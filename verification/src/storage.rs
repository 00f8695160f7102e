//! What to make of an attempt to read the watchlist from its file.
//!
//! Reading and decoding happen outside this library. The rule for what the
//! program starts with is here: a file that is missing, unreadable or
//! malformed never stops the program, it starts with an empty list.

use crate::movie::{Movie, MovieView};
use crate::watchlist::views_of;
use vstd::prelude::*;

verus! {

/// How the attempt to read the file ended.
#[derive(Debug)]
pub enum LoadOutcome {
    /// There is no such file.
    Missing,
    /// The file is there but could not be read; the reason is given.
    Unreadable(String),
    /// The file was read but does not hold a list of records; the reason is
    /// given.
    Malformed(String),
    /// The file holds these records, in this order.
    Parsed(Vec<Movie>),
}

/// What the program starts with.
#[derive(Debug)]
pub struct Loaded {
    /// The records to start with.
    pub movies: Vec<Movie>,
    /// A line for the error stream, if the file was there and could not be
    /// used.
    pub diagnostic: Option<String>,
}

/// The records that `outcome` gives: those of the file where it was decoded,
/// none otherwise.
pub open spec fn movies_of(outcome: LoadOutcome) -> Seq<MovieView> {
    match outcome {
        LoadOutcome::Parsed(movies) => views_of(movies@),
        _ => Seq::empty(),
    }
}

/// The complaint that `outcome` gives rise to. A missing file is no fault.
pub open spec fn diagnostic_of(outcome: LoadOutcome) -> Option<Seq<char>> {
    match outcome {
        LoadOutcome::Unreadable(reason) => Some("Error reading file: "@ + reason@),
        LoadOutcome::Malformed(reason) => Some("Error parsing JSON: "@ + reason@),
        _ => None,
    }
}

/// Decides what the program starts with. It never fails: whatever went wrong
/// with the file, the list is empty and the fault is reported in words.
pub fn load_from_file(outcome: LoadOutcome) -> (loaded: Loaded)
    ensures
        views_of(loaded.movies@) == movies_of(outcome),
        match diagnostic_of(outcome) {
            Some(text) => loaded.diagnostic.is_some() && loaded.diagnostic.unwrap()@ == text,
            None => loaded.diagnostic.is_none(),
        },
{
    match outcome {
        LoadOutcome::Missing => Loaded { movies: Vec::new(), diagnostic: None },
        LoadOutcome::Unreadable(reason) => {
            let mut text = String::from_str("Error reading file: ");
            text.append(reason.as_str());
            Loaded { movies: Vec::new(), diagnostic: Some(text) }
        },
        LoadOutcome::Malformed(reason) => {
            let mut text = String::from_str("Error parsing JSON: ");
            text.append(reason.as_str());
            Loaded { movies: Vec::new(), diagnostic: Some(text) }
        },
        LoadOutcome::Parsed(movies) => Loaded { movies, diagnostic: None },
    }
}

} // verus!
