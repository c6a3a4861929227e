//! Selection state of the profile list.
use vstd::prelude::*;

use crate::aws::profile::ProfileName;
use crate::aws::profile::ProfileStore;
use crate::ui::widget::stateful::SelectState;
use crate::ui::widget::stateful::SelectionState;

verus! {

/// The profile list's selection cursor.
#[derive(Debug, Clone)]
pub struct ProfilesState {
    pub list: SelectionState,
}

impl ProfilesState {
    /// The profile the cursor points at within the filtered view, if any.
    pub fn selected_profile(&self, data: &ProfileStore) -> (r: Option<ProfileName>)
        ensures
            match self.list.spec_selected() {
                Some(i) => match r {
                    Some(p) => i < data.filtered().len() && p@ == data.filtered()[i as int],
                    None => i >= data.filtered().len(),
                },
                None => r is None,
            },
    {
        if let Some(i) = self.list.selected() {
            data.nth(i)
        } else {
            None
        }
    }
}

impl Default for ProfilesState {
    /// No selection.
    fn default() -> (r: ProfilesState)
        ensures
            r.list.spec_selected() is None,
    {
        ProfilesState { list: SelectionState::default() }
    }
}

} // verus!
