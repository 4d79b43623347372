//! View models of the interface's panes: the plain data a renderer needs,
//! computed from the shared state. Drawing them is the shell's business.

use vstd::prelude::*;

pub mod search_pane;
pub mod search_results_pane;

verus! {

/// A pane's view model, ready to be drawn.
pub enum Widget {
    SearchPane(crate::widget::search_pane::SearchPane),
    SearchResultsPane(crate::widget::search_results_pane::ListPane),
}

} // verus!
