//! What the core takes on trust of the list widget's state, a type of the
//! drawing library. Nothing here is proved; the application state is
//! verified against these contracts.

use ratatui::widgets::ListState;
use vstd::prelude::*;

verus! {

/// `ratatui::widgets::ListState`, the scroll and selection state of a list
/// widget. Its fields stay hidden; contracts speak of `list_selected`.
#[verifier::external_type_specification]
#[verifier::external_body]
pub struct ExListState(ListState);

/// The row that a list state marks as selected, if any.
pub uninterp spec fn list_selected(state: ListState) -> Option<usize>;

/// `ListState::default()` gives a list state in which no row is selected.
pub assume_specification[ <ListState as Default>::default ]() -> (state: ListState)
    ensures
        list_selected(state) is None,
;

/// `ListState::select` makes `index` the selected row, or none where it is
/// `None`.
pub assume_specification[ ListState::select ](state: &mut ListState, index: Option<usize>)
    ensures
        list_selected(*final(state)) == index,
;

} // verus!
