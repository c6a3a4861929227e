//! Selection state of the preset list.
use vstd::prelude::*;

use crate::preset::Preset;
use crate::preset::PresetStore;
use crate::ui::widget::stateful::SelectState;
use crate::ui::widget::stateful::SelectionState;

verus! {

/// The preset list's selection cursor.
#[derive(Debug, Clone)]
pub struct PresetsState {
    pub list: SelectionState,
}

impl PresetsState {
    /// The preset the cursor points at within the filtered view, if any.
    pub fn selected_preset(&self, data: &PresetStore) -> (r: Option<Preset>)
        ensures
            match self.list.spec_selected() {
                Some(i) => match r {
                    Some(p) => i < data.filtered().len() && p@ == data.filtered()[i as int],
                    None => i >= data.filtered().len(),
                },
                None => r is None,
            },
    {
        if let Some(i) = self.list.selected() {
            data.nth(i)
        } else {
            None
        }
    }
}

impl Default for PresetsState {
    /// No selection.
    fn default() -> (r: PresetsState)
        ensures
            r.list.spec_selected() is None,
    {
        PresetsState { list: SelectionState::default() }
    }
}

} // verus!
