//! Selection state of the group table.
use vstd::prelude::*;

use crate::ui::widget::stateful::SelectState;
use crate::ui::widget::stateful::SelectionState;

verus! {

/// The group table's selection cursor.
#[derive(Debug, Clone)]
pub struct GroupsStates {
    pub table: SelectionState,
}

impl Default for GroupsStates {
    /// No selection.
    fn default() -> (r: GroupsStates)
        ensures
            r.table.spec_selected() is None,
    {
        GroupsStates { table: SelectionState::default() }
    }
}

} // verus!
