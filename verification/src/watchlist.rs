//! The watchlist: an ordered sequence of records and a cursor.
//!
//! Everything that the list does is defined first on a mathematical value,
//! [`WatchlistView`], and the laws that these definitions obey are proved on
//! it. The executable list, [`Watchlist`], states its behaviour in those terms.

use crate::movie::{Movie, MovieView};
use vstd::arithmetic::div_mod::{
    lemma_add_mod_noop, lemma_mod_add_multiples_vanish, lemma_mod_bound, lemma_mod_self_0,
    lemma_mod_twice, lemma_small_mod,
};
use vstd::prelude::*;

verus! {

/// What a [`Watchlist`] holds, as mathematical values: the records in display
/// order and the position of the cursor.
pub struct WatchlistView {
    pub movies: Seq<MovieView>,
    pub selected: nat,
}

/// The record `m` with its watched flag flipped.
pub open spec fn flipped(m: MovieView) -> MovieView {
    MovieView { watched: !m.watched, ..m }
}

/// How many of `movies` are marked as watched.
pub open spec fn watched_in(movies: Seq<MovieView>) -> nat {
    movies.filter(|m: MovieView| m.watched).len()
}

impl WatchlistView {
    /// The cursor points at a record, or rests at 0 when there is none.
    pub open spec fn wf(self) -> bool {
        if self.movies.len() == 0 {
            self.selected == 0
        } else {
            self.selected < self.movies.len()
        }
    }

    /// Whether the list has no record.
    pub open spec fn is_empty(self) -> bool {
        self.movies.len() == 0
    }

    /// The list after the record at `index` changed its watched flag.
    pub open spec fn toggle(self, index: int) -> WatchlistView {
        WatchlistView { movies: self.movies.update(index, flipped(self.movies[index])), ..self }
    }

    /// The list after the record under the cursor changed its watched flag.
    /// An empty list stays as it is.
    pub open spec fn toggle_current(self) -> WatchlistView {
        if self.is_empty() {
            self
        } else {
            self.toggle(self.selected as int)
        }
    }

    /// The list after the cursor moved down one row; from the last row it goes
    /// to the first. An empty list stays as it is.
    pub open spec fn next(self) -> WatchlistView {
        if self.is_empty() {
            self
        } else {
            WatchlistView { selected: (self.selected + 1) % self.movies.len(), ..self }
        }
    }

    /// The list after the cursor moved up one row; from the first row it goes
    /// to the last. An empty list stays as it is.
    pub open spec fn previous(self) -> WatchlistView {
        if self.is_empty() {
            self
        } else if self.selected == 0 {
            WatchlistView { selected: (self.movies.len() - 1) as nat, ..self }
        } else {
            WatchlistView { selected: (self.selected - 1) as nat, ..self }
        }
    }

    /// The list after the cursor moved down `steps` times.
    pub open spec fn next_times(self, steps: nat) -> WatchlistView
        decreases steps,
    {
        if steps == 0 {
            self
        } else {
            self.next_times((steps - 1) as nat).next()
        }
    }

    /// How many records are marked as watched.
    pub open spec fn watched_count(self) -> nat {
        watched_in(self.movies)
    }

    /// The pair that the progress line shows: records watched, records in all.
    pub open spec fn stats(self) -> (nat, nat) {
        (self.watched_count(), self.movies.len())
    }
}

/// Toggling the record at one position twice gives back the list as it was.
pub proof fn lemma_toggle_twice_restores(list: WatchlistView, index: int)
    requires
        0 <= index < list.movies.len(),
    ensures
        list.toggle(index).toggle(index) == list,
        list.toggle(index).movies[index].watched == !list.movies[index].watched,
{
    assert(list.toggle(index).toggle(index).movies =~= list.movies);
}

/// Toggling the record under the cursor twice gives back the list as it was.
pub proof fn lemma_toggle_current_twice_restores(list: WatchlistView)
    requires
        list.wf(),
    ensures
        list.toggle_current().toggle_current() == list,
{
    if !list.is_empty() {
        lemma_toggle_twice_restores(list, list.selected as int);
    }
}

/// Moving down `steps` times from row `selected` ends on row
/// `(selected + steps) % len`, and changes nothing else.
pub proof fn lemma_next_times(list: WatchlistView, steps: nat)
    requires
        list.wf(),
        !list.is_empty(),
    ensures
        list.next_times(steps).movies == list.movies,
        list.next_times(steps).selected == (list.selected + steps) % list.movies.len(),
    decreases steps,
{
    let len = list.movies.len();
    if steps == 0 {
        lemma_small_mod(list.selected, len);
    } else {
        let fewer = (steps - 1) as nat;
        lemma_next_times(list, fewer);
        lemma_add_mod_noop((list.selected + fewer) as int, 1, len as int);
        lemma_add_mod_noop(((list.selected + fewer) % len) as int, 1, len as int);
        lemma_mod_twice((list.selected + fewer) as int, len as int);
    }
}

/// Moving down as many times as the list has records, from any row, ends on
/// the row where it began.
pub proof fn lemma_next_wraps_around(list: WatchlistView)
    requires
        list.wf(),
    ensures
        list.next_times(list.movies.len()) == list,
{
    let len = list.movies.len();
    if len == 0 {
        assert(list.next_times(0) == list);
    } else {
        lemma_next_times(list, len);
        lemma_mod_add_multiples_vanish(list.selected as int, len as int);
        lemma_small_mod(list.selected, len);
    }
}

/// Moving up once from the first row lands on the last row.
pub proof fn lemma_previous_from_first_is_last(list: WatchlistView)
    requires
        !list.is_empty(),
        list.selected == 0,
    ensures
        list.previous().selected == list.movies.len() - 1,
        list.previous().movies == list.movies,
{
}

/// Moving up undoes moving down, and moving down undoes moving up.
pub proof fn lemma_next_previous_cancel(list: WatchlistView)
    requires
        list.wf(),
    ensures
        list.next().previous() == list,
        list.previous().next() == list,
{
    if !list.is_empty() {
        let len = list.movies.len();
        lemma_mod_self_0(len as int);
        if list.selected + 1 < len {
            lemma_small_mod(list.selected + 1, len);
        }
        if list.selected > 0 {
            lemma_small_mod(list.selected, len);
        }
    }
}

/// On a list without records, toggling and moving the cursor change nothing.
pub proof fn lemma_empty_list_is_unchanged(list: WatchlistView)
    requires
        list.is_empty(),
    ensures
        list.toggle_current() == list,
        list.next() == list,
        list.previous() == list,
        forall|steps: nat| #[trigger] list.next_times(steps) == list,
        list.stats() == (0nat, 0nat),
{
    assert forall|steps: nat| #[trigger] list.next_times(steps) == list by {
        lemma_empty_next_times(list, steps);
    }
    list.movies.lemma_filter_len(|m: MovieView| m.watched);
}

proof fn lemma_empty_next_times(list: WatchlistView, steps: nat)
    requires
        list.is_empty(),
    ensures
        list.next_times(steps) == list,
    decreases steps,
{
    if steps > 0 {
        lemma_empty_next_times(list, (steps - 1) as nat);
    }
}

/// Every operation keeps the cursor on a record.
pub proof fn lemma_operations_keep_wf(list: WatchlistView)
    requires
        list.wf(),
    ensures
        list.toggle_current().wf(),
        list.next().wf(),
        list.previous().wf(),
{
    if !list.is_empty() {
        lemma_mod_bound((list.selected + 1) as int, list.movies.len() as int);
    }
}

/// The watched records are never more than the records, and a record put at
/// the end adds one to their number if it is watched, and nothing if not.
pub proof fn lemma_watched_in_push(movies: Seq<MovieView>, m: MovieView)
    ensures
        watched_in(movies) <= movies.len(),
        watched_in(movies.push(m)) == watched_in(movies) + if m.watched { 1nat } else { 0nat },
{
    movies.lemma_filter_len(|m: MovieView| m.watched);
    assert(movies.push(m).drop_last() =~= movies);
    reveal(Seq::filter);
}

/// The records of `movies`, each as a mathematical value.
pub open spec fn views_of(movies: Seq<Movie>) -> Seq<MovieView> {
    Seq::new(movies.len(), |i: int| movies[i]@)
}

/// The records in display order and the cursor.
///
/// The cursor always points at a record, or is 0 while there is none. The list
/// is never resized: records change their flag, and the cursor moves.
pub struct Watchlist {
    movies: Vec<Movie>,
    selected: usize,
}

impl View for Watchlist {
    type V = WatchlistView;

    closed spec fn view(&self) -> WatchlistView {
        WatchlistView { movies: views_of(self.movies@), selected: self.selected as nat }
    }
}

impl Watchlist {
    #[verifier::type_invariant]
    spec fn cursor_in_range(self) -> bool {
        self@.wf()
    }

    /// A list over `movies` with the cursor on the first row.
    pub fn new(movies: Vec<Movie>) -> (list: Watchlist)
        ensures
            list@.movies == views_of(movies@),
            list@.selected == 0,
            list@.wf(),
    {
        Watchlist { movies, selected: 0 }
    }

    /// Flips the watched flag of the record under the cursor and reports
    /// whether a record changed. On an empty list nothing changes.
    pub fn toggle_current(&mut self) -> (changed: bool)
        ensures
            final(self)@ == old(self)@.toggle_current(),
            final(self)@.wf(),
            changed == !old(self)@.is_empty(),
    {
        proof {
            use_type_invariant(&*self);
        }
        if !self.movies.is_empty() {
            let watched = self.movies[self.selected].watched;
            self.movies[self.selected].watched = !watched;
            assert(self@.movies =~= old(self)@.toggle_current().movies);
            true
        } else {
            false
        }
    }

    /// Moves the cursor down one row, from the last row to the first, and
    /// reports whether the list has a row to stand on. On an empty list
    /// nothing changes.
    pub fn next(&mut self) -> (moved: bool)
        ensures
            final(self)@ == old(self)@.next(),
            final(self)@.wf(),
            moved == !old(self)@.is_empty(),
    {
        proof {
            use_type_invariant(&*self);
        }
        let len = self.movies.len();
        if len > 0 {
            self.selected = (self.selected + 1) % len;
            true
        } else {
            false
        }
    }

    /// Moves the cursor up one row, from the first row to the last, and
    /// reports whether the list has a row to stand on. On an empty list
    /// nothing changes.
    pub fn previous(&mut self) -> (moved: bool)
        ensures
            final(self)@ == old(self)@.previous(),
            final(self)@.wf(),
            moved == !old(self)@.is_empty(),
    {
        proof {
            use_type_invariant(&*self);
        }
        let len = self.movies.len();
        if len > 0 {
            self.selected = if self.selected == 0 {
                len - 1
            } else {
                self.selected - 1
            };
            true
        } else {
            false
        }
    }

    /// Counts the records that are marked as watched, and all records.
    pub fn stats(&self) -> (stats: (usize, usize))
        ensures
            stats.0 == self@.stats().0,
            stats.1 == self@.stats().1,
            stats.0 <= stats.1,
    {
        let total = self.movies.len();
        let mut watched: usize = 0;
        let mut i: usize = 0;
        while i < total
            invariant
                i <= total,
                total == self.movies@.len(),
                watched <= i,
                watched == watched_in(views_of(self.movies@).take(i as int)),
            decreases total - i,
        {
            proof {
                let seen = views_of(self.movies@).take(i as int);
                lemma_watched_in_push(seen, self.movies@[i as int]@);
                assert(views_of(self.movies@).take(i + 1) =~= seen.push(self.movies@[i as int]@));
            }
            if self.movies[i].watched {
                watched = watched + 1;
            }
            i = i + 1;
        }
        assert(views_of(self.movies@).take(total as int) =~= self@.movies);
        (watched, total)
    }

    /// The records, in display order.
    pub fn movies(&self) -> (movies: &Vec<Movie>)
        ensures
            views_of(movies@) == self@.movies,
    {
        &self.movies
    }

    /// The position of the cursor.
    pub fn selected(&self) -> (selected: usize)
        ensures
            selected == self@.selected,
            self@.wf(),
    {
        proof {
            use_type_invariant(self);
        }
        self.selected
    }
}

} // verus!
