//! The search-input pane's view model.

use vstd::prelude::*;

use crate::state::Pane;
use crate::state::State;

verus! {

/// What the search-input pane shows: the query under edit, and whether
/// the pane has focus.
pub struct SearchPane {
    pub id: u8,
    pub query: String,
    pub active: bool,
}

impl SearchPane {
    /// The pane as the given state renders it: it has focus exactly when
    /// the search input is the current pane.
    pub fn of_state(state: &State) -> (r: SearchPane)
        ensures
            r.query == state.search.query,
            r.active == (state.current_pane is SearchInput),
    {
        SearchPane {
            id: 1,
            query: state.search.query.clone(),
            active: match state.current_pane {
                Pane::SearchInput => true,
                _ => false,
            },
        }
    }
}

} // verus!
