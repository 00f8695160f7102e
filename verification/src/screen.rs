//! What the terminal shows of a watchlist: a progress line, one row for each
//! record, and a line of help.
//!
//! Nothing here draws. A [`Screen`] holds the texts and the style of each
//! row; the caller hands them to the terminal.

use crate::movie::{Movie, MovieView};
use crate::watchlist::{views_of, Watchlist, WatchlistView};
use vstd::prelude::*;

verus! {

/// The character that stands for the digit `d`.
pub open spec fn digit(d: nat) -> char
    recommends
        d < 10,
{
    if d == 0 {
        '0'
    } else if d == 1 {
        '1'
    } else if d == 2 {
        '2'
    } else if d == 3 {
        '3'
    } else if d == 4 {
        '4'
    } else if d == 5 {
        '5'
    } else if d == 6 {
        '6'
    } else if d == 7 {
        '7'
    } else if d == 8 {
        '8'
    } else {
        '9'
    }
}

/// The number `n` written in base ten, without leading zeros.
pub open spec fn decimal(n: nat) -> Seq<char>
    decreases n,
{
    if n < 10 {
        seq![digit(n)]
    } else {
        decimal(n / 10).push(digit(n % 10))
    }
}

/// The progress line for `watched` records out of `total`.
pub open spec fn title_text(watched: nat, total: nat) -> Seq<char> {
    "Movie Watchlist ("@ + decimal(watched) + "/"@ + decimal(total) + " watched)"@
}

/// The mark in front of a row: ticked for a watched record.
pub open spec fn checkbox(watched: bool) -> Seq<char> {
    if watched {
        "[✓]"@
    } else {
        "[ ]"@
    }
}

/// The row for the record `m`: its mark, its year and its title.
pub open spec fn row_text(m: MovieView) -> Seq<char> {
    checkbox(m.watched) + " "@ + decimal(m.year) + " - "@ + m.movie
}

/// The line of help under the list.
pub open spec fn help_text() -> Seq<char> {
    "↑/↓: Navigate | Space: Toggle Watched | q: Quit"@
}

/// How a row is painted.
#[derive(Clone, Copy, Debug, PartialEq, Eq, Structural)]
pub enum RowStyle {
    /// A watched record: green and dim.
    Watched,
    /// A record still to watch: white.
    Unwatched,
}

/// The style of a row by the watched flag of its record.
pub open spec fn style_of(watched: bool) -> RowStyle {
    if watched {
        RowStyle::Watched
    } else {
        RowStyle::Unwatched
    }
}

/// One row of the list on screen.
#[derive(Debug)]
pub struct Row {
    pub text: String,
    pub style: RowStyle,
}

impl Row {
    /// Whether this is the row that shows the record `m`.
    pub open spec fn shows(self, m: MovieView) -> bool {
        &&& self.text@ == row_text(m)
        &&& self.style == style_of(m.watched)
    }
}

/// Everything that one frame shows.
#[derive(Debug)]
pub struct Screen {
    pub title: String,
    pub rows: Vec<Row>,
    pub help: String,
}

impl Screen {
    /// Whether this is the frame that shows `list`: the progress line counts
    /// its records, the rows are its records in order, the help is in place.
    pub open spec fn shows(self, list: WatchlistView) -> bool {
        &&& self.title@ == title_text(list.stats().0, list.stats().1)
        &&& self.rows@.len() == list.movies.len()
        &&& forall|i: int| 0 <= i < list.movies.len() ==> (#[trigger] self.rows@[i]).shows(list.movies[i])
        &&& self.help@ == help_text()
    }
}

fn digit_str(d: u64) -> (text: &'static str)
    requires
        d < 10,
    ensures
        text@ == seq![digit(d as nat)],
{
    proof {
        reveal_strlit("0");
        reveal_strlit("1");
        reveal_strlit("2");
        reveal_strlit("3");
        reveal_strlit("4");
        reveal_strlit("5");
        reveal_strlit("6");
        reveal_strlit("7");
        reveal_strlit("8");
        reveal_strlit("9");
    }
    let text = if d == 0 {
        "0"
    } else if d == 1 {
        "1"
    } else if d == 2 {
        "2"
    } else if d == 3 {
        "3"
    } else if d == 4 {
        "4"
    } else if d == 5 {
        "5"
    } else if d == 6 {
        "6"
    } else if d == 7 {
        "7"
    } else if d == 8 {
        "8"
    } else {
        "9"
    };
    assert(text@ =~= seq![digit(d as nat)]);
    text
}

/// Writes `n` in base ten.
pub fn decimal_string(n: u64) -> (text: String)
    ensures
        text@ == decimal(n as nat),
    decreases n,
{
    if n < 10 {
        String::from_str(digit_str(n))
    } else {
        let mut text = decimal_string(n / 10);
        text.append(digit_str(n % 10));
        assert(text@ =~= decimal(n as nat));
        text
    }
}

/// The progress line for `watched` records out of `total`.
pub fn title_string(watched: usize, total: usize) -> (text: String)
    ensures
        text@ == title_text(watched as nat, total as nat),
{
    let mut text = String::from_str("Movie Watchlist (");
    text.append(decimal_string(watched as u64).as_str());
    text.append("/");
    text.append(decimal_string(total as u64).as_str());
    text.append(" watched)");
    text
}

/// The row that shows `movie`.
pub fn row_for(movie: &Movie) -> (row: Row)
    ensures
        row.shows(movie@),
{
    let mut text = String::from_str(if movie.watched { "[✓]" } else { "[ ]" });
    text.append(" ");
    text.append(decimal_string(movie.year as u64).as_str());
    text.append(" - ");
    text.append(movie.movie.as_str());
    let style = if movie.watched { RowStyle::Watched } else { RowStyle::Unwatched };
    Row { text, style }
}

/// The frame that shows `list`. Drawing reads the list and changes nothing.
pub fn render(list: &Watchlist) -> (screen: Screen)
    ensures
        screen.shows(list@),
{
    let (watched, total) = list.stats();
    let movies = list.movies();
    let mut rows: Vec<Row> = Vec::new();
    let mut i: usize = 0;
    while i < movies.len()
        invariant
            i <= movies@.len(),
            rows@.len() == i,
            forall|j: int| 0 <= j < i ==> (#[trigger] rows@[j]).shows(movies@[j]@),
        decreases movies@.len() - i,
    {
        rows.push(row_for(&movies[i]));
        i = i + 1;
    }
    Screen {
        title: title_string(watched, total),
        rows,
        help: String::from_str("↑/↓: Navigate | Space: Toggle Watched | q: Quit"),
    }
}

} // verus!
