//! State of the header region.
use vstd::prelude::*;

use crate::ui::widget::search::SearchState;

verus! {

/// The header's widget state.
#[derive(Debug, Copy, Clone, Default)]
pub struct HeaderState {
    pub search: SearchState,
}

} // verus!
