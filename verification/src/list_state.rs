//! The selection state of the on-screen list, which `ratatui` keeps.
//!
//! A `ListState` holds two things: the row that is highlighted, if any, and the
//! first row in view. Verus cannot look inside it, so both get a name here and
//! the calls that the watchlist makes are described over those names.

use ratatui::widgets::ListState;
use vstd::prelude::*;

verus! {

/// `ratatui::widgets::ListState`, carried through as an opaque value.
#[verifier::external_type_specification]
#[verifier::external_body]
pub struct ExListState(ListState);

/// The highlighted row of a list state: what `ListState::selected` returns.
pub uninterp spec fn selected_row(state: ListState) -> Option<usize>;

/// The first row in view of a list state: what `ListState::offset` returns.
pub uninterp spec fn scroll_offset(state: ListState) -> usize;

/// `<ListState as Default>::default`: a fresh state highlights no row and
/// starts at the top. Not proved: the impl is derived in `ratatui`.
pub assume_specification[ <ListState as Default>::default ]() -> (state: ListState)
    ensures
        selected_row(state) == None::<usize>,
        scroll_offset(state) == 0,
;

/// `ListState::select`: the highlighted row becomes `index`. The first row in
/// view stays where it was, unless the highlight is taken away, which moves it
/// back to the top. Not proved: taken from the method's source.
pub assume_specification[ ListState::select ](state: &mut ListState, index: Option<usize>)
    ensures
        selected_row(*final(state)) == index,
        scroll_offset(*final(state)) == if index is None {
            0
        } else {
            scroll_offset(*old(state))
        },
;

} // verus!
