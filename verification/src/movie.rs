//! One entry of the watchlist.

use vstd::prelude::*;

verus! {

/// What a [`Movie`] holds, as mathematical values.
pub struct MovieView {
    /// The year of release.
    pub year: nat,
    /// Whether the movie has been watched.
    pub watched: bool,
    /// The title, character by character.
    pub movie: Seq<char>,
}

/// A movie with its release year, its title and whether it has been watched.
///
/// A record has no identity of its own: two equal records may stand in one
/// list, and a record is found by its position. Any year and any title are
/// taken as they are, an empty title too.
#[derive(Clone, Debug, PartialEq, Eq)]
pub struct Movie {
    /// The year of release.
    pub year: u32,
    /// Whether the movie has been watched.
    pub watched: bool,
    /// The title.
    pub movie: String,
}

impl View for Movie {
    type V = MovieView;

    open spec fn view(&self) -> MovieView {
        MovieView { year: self.year as nat, watched: self.watched, movie: self.movie@ }
    }
}

} // verus!
