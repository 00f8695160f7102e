//! The state of the running program: the watchlist, the file it is kept in,
//! and the state of the list on screen.

use crate::input::{command_for, command_of, state_after, Command, Input, LoopState};
use crate::list_state::{scroll_offset, selected_row};
use crate::movie::Movie;
use crate::watchlist::{views_of, Watchlist, WatchlistView};
use ratatui::widgets::ListState;
use vstd::prelude::*;

verus! {

/// The watchlist together with the path of its file and the highlight of the
/// list on screen.
pub struct App {
    /// The records and the cursor.
    pub watchlist: Watchlist,
    /// The path of the file that holds the records.
    pub save_path: String,
    /// The highlighted row and the first row in view. Whoever draws the list
    /// may move both.
    pub list_state: ListState,
}

/// The list after `command` was carried out on it.
pub open spec fn list_after(list: WatchlistView, command: Command) -> WatchlistView {
    match command {
        Command::Toggle => list.toggle_current(),
        Command::Next => list.next(),
        Command::Previous => list.previous(),
        Command::Quit | Command::Ignore => list,
    }
}

/// Whether `command` moves the cursor of `list`, and with it the highlight.
pub open spec fn moves_cursor(list: WatchlistView, command: Command) -> bool {
    (command == Command::Next || command == Command::Previous) && !list.is_empty()
}

/// Whether `command` changes a record of `list`, so that the file has to be
/// written again.
pub open spec fn changes_records(list: WatchlistView, command: Command) -> bool {
    command == Command::Toggle && !list.is_empty()
}

/// How the highlight `after` a step relates to the one `before` it: where the
/// cursor moved it stands on `row` with the same first row in view, and
/// otherwise it is as it was.
pub open spec fn highlight_follows(before: ListState, after: ListState, moved: bool, row: nat) -> bool {
    if moved {
        &&& selected_row(after) == Some(row as usize)
        &&& scroll_offset(after) == scroll_offset(before)
    } else {
        after == before
    }
}

/// What one turn of the loop leaves for its caller to do.
#[derive(Clone, Copy, Debug, PartialEq, Eq, Structural)]
pub struct Step {
    /// Whether the loop goes on.
    pub state: LoopState,
    /// Whether the records changed and the file has to be written again.
    pub save: bool,
}

impl App {
    /// A watchlist over `movies`, kept in the file at `save_path`, with the
    /// cursor and the highlight on the first row.
    pub fn new(save_path: &str, movies: Vec<Movie>) -> (app: App)
        ensures
            app.watchlist@.movies == views_of(movies@),
            app.watchlist@.selected == 0,
            app.watchlist@.wf(),
            app.save_path@ == save_path@,
            selected_row(app.list_state) == Some(0usize),
            scroll_offset(app.list_state) == 0,
    {
        let mut list_state = ListState::default();
        list_state.select(Some(0));
        App { watchlist: Watchlist::new(movies), save_path: String::from_str(save_path), list_state }
    }

    /// Flips the watched flag of the record under the cursor and reports
    /// whether a record changed, that is, whether the file is now out of date.
    /// On an empty list nothing changes.
    pub fn toggle_current(&mut self) -> (changed: bool)
        ensures
            final(self).watchlist@ == old(self).watchlist@.toggle_current(),
            final(self).save_path == old(self).save_path,
            final(self).list_state == old(self).list_state,
            changed == !old(self).watchlist@.is_empty(),
    {
        self.watchlist.toggle_current()
    }

    /// Moves the cursor down one row, from the last row to the first, and
    /// puts the highlight on the same row. On an empty list nothing changes.
    pub fn next(&mut self)
        ensures
            final(self).watchlist@ == old(self).watchlist@.next(),
            final(self).save_path == old(self).save_path,
            highlight_follows(
                old(self).list_state,
                final(self).list_state,
                !old(self).watchlist@.is_empty(),
                final(self).watchlist@.selected,
            ),
    {
        if self.watchlist.next() {
            self.list_state.select(Some(self.watchlist.selected()));
        }
    }

    /// Moves the cursor up one row, from the first row to the last, and puts
    /// the highlight on the same row. On an empty list nothing changes.
    pub fn previous(&mut self)
        ensures
            final(self).watchlist@ == old(self).watchlist@.previous(),
            final(self).save_path == old(self).save_path,
            highlight_follows(
                old(self).list_state,
                final(self).list_state,
                !old(self).watchlist@.is_empty(),
                final(self).watchlist@.selected,
            ),
    {
        if self.watchlist.previous() {
            self.list_state.select(Some(self.watchlist.selected()));
        }
    }

    /// Counts the records that are marked as watched, and all records.
    pub fn get_stats(&self) -> (stats: (usize, usize))
        ensures
            stats.0 == self.watchlist@.stats().0,
            stats.1 == self.watchlist@.stats().1,
            stats.0 <= stats.1,
    {
        self.watchlist.stats()
    }

    /// Takes one turn of the loop: carries out what `input` asks for and tells
    /// the caller whether to go on and whether to write the file.
    ///
    /// Quitting changes nothing. Only a toggle on a list with records asks for
    /// the file to be written; only a move of the cursor touches the
    /// highlight.
    pub fn handle(&mut self, input: Input) -> (step: Step)
        ensures
            final(self).watchlist@ == list_after(old(self).watchlist@, command_of(input)),
            final(self).save_path == old(self).save_path,
            highlight_follows(
                old(self).list_state,
                final(self).list_state,
                moves_cursor(old(self).watchlist@, command_of(input)),
                final(self).watchlist@.selected,
            ),
            step.state == state_after(command_of(input)),
            step.save == changes_records(old(self).watchlist@, command_of(input)),
    {
        match command_for(input) {
            Command::Quit => Step { state: LoopState::Quitting, save: false },
            Command::Toggle => Step { state: LoopState::Running, save: self.toggle_current() },
            Command::Next => {
                self.next();
                Step { state: LoopState::Running, save: false }
            },
            Command::Previous => {
                self.previous();
                Step { state: LoopState::Running, save: false }
            },
            Command::Ignore => Step { state: LoopState::Running, save: false },
        }
    }
}

} // verus!
