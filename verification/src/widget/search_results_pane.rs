//! The search-results pane's view model.

use vstd::prelude::*;

use crate::state::Pane;
use crate::state::State;

verus! {

/// What the results pane shows: the committed result list, which entry is
/// highlighted, and whether the pane has focus.
pub struct ListPane {
    pub results: Vec<String>,
    pub selection: Option<usize>,
    pub active: bool,
}

impl ListPane {
    /// The pane as the given state renders it.
    pub fn of_state(state: &State) -> (r: ListPane)
        ensures
            r.results.deep_view() == state.search.results.deep_view(),
            r.selection == state.search.selection,
            r.active == (state.current_pane is SearchResults),
    {
        ListPane {
            results: state.search.results.clone(),
            selection: state.search.selection,
            active: match state.current_pane {
                Pane::SearchResults(_) => true,
                _ => false,
            },
        }
    }
}

} // verus!
