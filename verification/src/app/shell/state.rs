//! The focus state machine of the shell region.
//!
//! Two orthogonal axes: which of the three sibling regions is selected, and
//! whether input focus is on (keys move the region's item cursor) or off
//! (keys move between regions). Region transitions follow a fixed cyclic
//! adjacency; absent a selection, a fixed default applies.
use vstd::prelude::*;

use crate::app::data::AppData;
use crate::aws::profile::ProfileName;
use crate::collection::Length;
use crate::event::action::Action;
use crate::preset::Preset;
use crate::preset::PresetName;
use crate::preset::PresetV;
use crate::ui::widget::groups::GroupsStates;
use crate::ui::widget::presets::PresetsState;
use crate::ui::widget::profiles::ProfilesState;
use crate::ui::widget::stateful::select_next;
use crate::ui::widget::stateful::select_previous;
use crate::ui::widget::stateful::spec_select;
use crate::ui::widget::stateful::SelectState;

verus! {

/// The three sibling regions of the shell.
#[derive(Debug, Copy, Clone, Eq, PartialEq, Hash, Structural)]
pub enum ShellSelection {
    Presets,
    Profiles,
    Groups,
}

impl Default for ShellSelection {
    /// The fixed default region.
    fn default() -> (r: ShellSelection)
        ensures
            r == ShellSelection::Presets,
    {
        ShellSelection::Presets
    }
}

/// A region's two cyclic neighbours.
#[derive(Debug, Copy, Clone, Eq, PartialEq, Structural)]
pub struct WidgetOrder {
    pub prev: ShellSelection,
    pub next: ShellSelection,
}

impl WidgetOrder {
    pub fn new(prev: ShellSelection, next: ShellSelection) -> (r: WidgetOrder)
        ensures
            r.prev == prev,
            r.next == next,
    {
        WidgetOrder { prev, next }
    }
}

impl Default for WidgetOrder {
    /// The neighbours applied when no region is selected.
    fn default() -> (r: WidgetOrder)
        ensures
            r == spec_widget_order(None),
    {
        WidgetOrder { prev: ShellSelection::Groups, next: ShellSelection::Presets }
    }
}

/// The fixed cyclic adjacency of the three regions; without a selection the
/// default order applies.
pub open spec fn spec_widget_order(sel: Option<ShellSelection>) -> WidgetOrder {
    match sel {
        Some(ShellSelection::Presets) => WidgetOrder {
            prev: ShellSelection::Groups,
            next: ShellSelection::Profiles,
        },
        Some(ShellSelection::Profiles) => WidgetOrder {
            prev: ShellSelection::Presets,
            next: ShellSelection::Groups,
        },
        Some(ShellSelection::Groups) => WidgetOrder {
            prev: ShellSelection::Profiles,
            next: ShellSelection::Presets,
        },
        None => WidgetOrder { prev: ShellSelection::Groups, next: ShellSelection::Presets },
    }
}

/// Where one step forward lands.
pub open spec fn spec_next_region(sel: Option<ShellSelection>) -> ShellSelection {
    spec_widget_order(sel).next
}

/// Where one step backward lands.
pub open spec fn spec_prev_region(sel: Option<ShellSelection>) -> ShellSelection {
    spec_widget_order(sel).prev
}

/// Law: from no selection one step forward lands on the fixed default
/// region, and three steps forward from any region return to it; backward
/// steps invert forward steps.
pub proof fn lemma_region_cycle(sel: ShellSelection)
    ensures
        spec_next_region(None) == ShellSelection::Presets,
        spec_next_region(Some(spec_next_region(Some(spec_next_region(Some(sel)))))) == sel,
        spec_prev_region(Some(spec_next_region(Some(sel)))) == sel,
{
}

/// State of the shell region.
#[derive(Debug)]
pub struct ShellState {
    pub selection: Option<ShellSelection>,
    pub focus: bool,
    pub presets: PresetsState,
    pub profiles: ProfilesState,
    pub groups: GroupsStates,
    pub query: String,
}

impl Default for ShellState {
    /// No region selected, focus off, no cursor anywhere.
    fn default() -> (r: ShellState)
        ensures
            r.wf(),
            r.selection is None,
            !r.spec_focus(),
            r.presets.list.spec_selected() is None,
            r.profiles.list.spec_selected() is None,
            r.groups.table.spec_selected() is None,
            r.query@.len() == 0,
    {
        ShellState {
            selection: None,
            focus: false,
            presets: PresetsState::default(),
            profiles: ProfilesState::default(),
            groups: GroupsStates::default(),
            query: String::new(),
        }
    }
}

impl ShellState {
    /// Whether input focus is on.
    pub open spec fn spec_focus(&self) -> bool {
        self.focus
    }

    /// The focus invariant: input focus needs a selected region.
    pub open spec fn wf(&self) -> bool {
        self.spec_focus() ==> self.selection is Some
    }

    /// Whether input focus is on.
    pub fn has_focus(&self) -> (r: bool)
        ensures
            r == self.spec_focus(),
    {
        self.focus
    }

    /// Turns input focus on; a no-op without a selected region.
    pub fn set_focus(&mut self)
        requires
            old(self).wf(),
        ensures
            final(self).wf(),
            final(self).spec_focus() == (old(self).selection is Some || old(self).spec_focus()),
            final(self).selection == old(self).selection,
            final(self).presets == old(self).presets,
            final(self).profiles == old(self).profiles,
            final(self).groups == old(self).groups,
            final(self).query == old(self).query,
    {
        if self.selection.is_some() {
            self.focus = true;
        }
    }

    /// Turns input focus off; this always succeeds.
    pub fn clear_focus(&mut self)
        ensures
            final(self).wf(),
            !final(self).spec_focus(),
            final(self).selection == old(self).selection,
            final(self).presets == old(self).presets,
            final(self).profiles == old(self).profiles,
            final(self).groups == old(self).groups,
            final(self).query == old(self).query,
    {
        self.focus = false;
    }

    /// The selected region's cyclic neighbours.
    pub fn widget_order(&self) -> (r: WidgetOrder)
        ensures
            r == spec_widget_order(self.selection),
    {
        match self.selection {
            Some(ShellSelection::Presets) => WidgetOrder::new(
                ShellSelection::Groups,
                ShellSelection::Profiles,
            ),
            Some(ShellSelection::Profiles) => WidgetOrder::new(
                ShellSelection::Presets,
                ShellSelection::Groups,
            ),
            Some(ShellSelection::Groups) => WidgetOrder::new(
                ShellSelection::Profiles,
                ShellSelection::Presets,
            ),
            None => WidgetOrder::default(),
        }
    }

    /// Selects the next region.
    fn next_widget(&mut self)
        ensures
            final(self).selection == Some(spec_next_region(old(self).selection)),
            final(self).spec_focus() == old(self).spec_focus(),
            final(self).presets == old(self).presets,
            final(self).profiles == old(self).profiles,
            final(self).groups == old(self).groups,
            final(self).query == old(self).query,
    {
        let order = self.widget_order();
        self.selection = Some(order.next);
    }

    /// Selects the previous region.
    fn previous_widget(&mut self)
        ensures
            final(self).selection == Some(spec_prev_region(old(self).selection)),
            final(self).spec_focus() == old(self).spec_focus(),
            final(self).presets == old(self).presets,
            final(self).profiles == old(self).profiles,
            final(self).groups == old(self).groups,
            final(self).query == old(self).query,
    {
        let order = self.widget_order();
        self.selection = Some(order.prev);
    }

    /// Exact description of one navigation step: while focused, the selected
    /// region's item cursor moves cyclically over that region's current item
    /// count and everything else stays; unfocused, the region selection
    /// itself steps along the adjacency and every cursor stays.
    pub open spec fn navigated(self, before: ShellState, data: AppData, direction: int) -> bool {
        &&& self.spec_focus() == before.spec_focus()
        &&& self.query == before.query
        &&& (!before.spec_focus() ==> {
            &&& self.selection == Some(
                if direction == 1 {
                    spec_next_region(before.selection)
                } else {
                    spec_prev_region(before.selection)
                },
            )
            &&& self.presets == before.presets
            &&& self.profiles == before.profiles
            &&& self.groups == before.groups
        })
        &&& (before.spec_focus() ==> {
            &&& self.selection == before.selection
            &&& (match before.selection {
                Some(ShellSelection::Presets) => self.presets.list.spec_selected() == spec_select(
                    before.presets.list.spec_selected(),
                    data.presets.filtered().len() as int,
                    direction,
                ) && self.profiles == before.profiles && self.groups == before.groups,
                Some(ShellSelection::Profiles) => self.profiles.list.spec_selected()
                    == spec_select(
                    before.profiles.list.spec_selected(),
                    data.profiles.filtered().len() as int,
                    direction,
                ) && self.presets == before.presets && self.groups == before.groups,
                Some(ShellSelection::Groups) => self.groups.table.spec_selected() == spec_select(
                    before.groups.table.spec_selected(),
                    data.groups@.len() as int,
                    direction,
                ) && self.presets == before.presets && self.profiles == before.profiles,
                None => self.presets == before.presets && self.profiles == before.profiles
                    && self.groups == before.groups,
            })
        })
    }

    /// Moves down: the next item while focused, the next region otherwise.
    pub fn select_next(&mut self, data: &AppData)
        requires
            old(self).wf(),
        ensures
            final(self).wf(),
            final(self).navigated(*old(self), *data, 1),
    {
        if self.focus {
            self.next_item(data);
        } else {
            self.next_widget();
        }
    }

    /// Moves up: the previous item while focused, the previous region
    /// otherwise.
    pub fn select_previous(&mut self, data: &AppData)
        requires
            old(self).wf(),
        ensures
            final(self).wf(),
            final(self).navigated(*old(self), *data, -1),
    {
        if self.focus {
            self.previous_item(data);
        } else {
            self.previous_widget();
        }
    }

    /// Steps the selected region's item cursor forward.
    fn next_item(&mut self, data: &AppData)
        requires
            old(self).wf(),
            old(self).spec_focus(),
        ensures
            final(self).wf(),
            final(self).navigated(*old(self), *data, 1),
    {
        match self.selection {
            Some(ShellSelection::Presets) => {
                let len = data.presets.len();
                select_next(&mut self.presets.list, len);
            },
            Some(ShellSelection::Profiles) => {
                let len = data.profiles.len();
                select_next(&mut self.profiles.list, len);
            },
            Some(ShellSelection::Groups) => {
                let len = data.groups.len();
                select_next(&mut self.groups.table, len);
            },
            None => (),
        }
    }

    /// Steps the selected region's item cursor backward.
    fn previous_item(&mut self, data: &AppData)
        requires
            old(self).wf(),
            old(self).spec_focus(),
        ensures
            final(self).wf(),
            final(self).navigated(*old(self), *data, -1),
    {
        match self.selection {
            Some(ShellSelection::Presets) => {
                let len = data.presets.len();
                select_previous(&mut self.presets.list, len);
            },
            Some(ShellSelection::Profiles) => {
                let len = data.profiles.len();
                select_previous(&mut self.profiles.list, len);
            },
            Some(ShellSelection::Groups) => {
                let len = data.groups.len();
                select_previous(&mut self.groups.table, len);
            },
            None => (),
        }
    }

    /// The profile the profile cursor points at, within the filtered view.
    pub open spec fn spec_selected_profile(self, data: AppData) -> Option<Seq<char>> {
        match self.profiles.list.spec_selected() {
            Some(i) => if i < data.profiles.filtered().len() {
                Some(data.profiles.filtered()[i as int])
            } else {
                None
            },
            None => None,
        }
    }

    /// The preset the preset cursor points at, within the filtered view.
    pub open spec fn spec_selected_preset(self, data: AppData) -> Option<PresetV> {
        match self.presets.list.spec_selected() {
            Some(i) => if i < data.presets.filtered().len() {
                Some(data.presets.filtered()[i as int])
            } else {
                None
            },
            None => None,
        }
    }

    /// The profile the profile cursor points at.
    pub fn selected_profile(&self, data: &AppData) -> (r: Option<ProfileName>)
        ensures
            match r {
                Some(p) => self.spec_selected_profile(*data) == Some(p@),
                None => self.spec_selected_profile(*data) is None,
            },
    {
        self.profiles.selected_profile(&data.profiles)
    }

    /// The preset the preset cursor points at.
    pub fn selected_preset(&self, data: &AppData) -> (r: Option<Preset>)
        ensures
            match r {
                Some(p) => self.spec_selected_preset(*data) == Some(p@),
                None => self.spec_selected_preset(*data) is None,
            },
    {
        self.presets.selected_preset(&data.presets)
    }

    /// Executes the selected item: over the preset or profile region this
    /// requests a group listing for the selected profile under the selected
    /// preset and moves the selection to the group region; the group region
    /// and the empty selection execute nothing.
    pub fn execute_item(&mut self, data: &AppData) -> (r: Option<Action>)
        requires
            old(self).wf(),
        ensures
            final(self).wf(),
            final(self).spec_focus() == old(self).spec_focus(),
            final(self).presets == old(self).presets,
            final(self).profiles == old(self).profiles,
            final(self).groups == old(self).groups,
            final(self).query == old(self).query,
            match old(self).selection {
                Some(ShellSelection::Presets) | Some(ShellSelection::Profiles) => match old(
                    self,
                ).spec_selected_profile(*data) {
                    Some(pname) => {
                        &&& final(self).selection == Some(ShellSelection::Groups)
                        &&& (r matches Some(a) && (a matches Action::RequestLogGroups(p, preset)
                            && p@ == pname && (match old(self).spec_selected_preset(*data) {
                            Some(pv) => preset matches Some(pr) && pr@ == pv,
                            None => preset is None,
                        })))
                    },
                    None => r is None && final(self).selection == old(self).selection,
                },
                _ => r is None && final(self).selection == old(self).selection,
            },
    {
        match self.selection {
            Some(ShellSelection::Presets) => self.load_log_groups_action(data),
            Some(ShellSelection::Profiles) => self.load_log_groups_action(data),
            Some(ShellSelection::Groups) => self.load_log_streams_action(data),
            None => None,
        }
    }

    /// Requests a group listing for the selected profile, when there is one.
    fn load_log_groups_action(&mut self, data: &AppData) -> (r: Option<Action>)
        requires
            old(self).wf(),
        ensures
            final(self).wf(),
            final(self).spec_focus() == old(self).spec_focus(),
            final(self).presets == old(self).presets,
            final(self).profiles == old(self).profiles,
            final(self).groups == old(self).groups,
            final(self).query == old(self).query,
            match old(self).spec_selected_profile(*data) {
                Some(pname) => {
                    &&& final(self).selection == Some(ShellSelection::Groups)
                    &&& (r matches Some(a) && (a matches Action::RequestLogGroups(p, preset)
                        && p@ == pname && (match old(self).spec_selected_preset(*data) {
                        Some(pv) => preset matches Some(pr) && pr@ == pv,
                        None => preset is None,
                    })))
                },
                None => r is None && final(self).selection == old(self).selection,
            },
    {
        if let Some(profile) = self.selected_profile(data) {
            self.selection = Some(ShellSelection::Groups);
            let selected_preset = self.selected_preset(data);
            Some(Action::RequestLogGroups(profile, selected_preset))
        } else {
            None
        }
    }

    /// Streams are inert placeholders: executing a group does nothing yet.
    fn load_log_streams_action(&mut self, _data: &AppData) -> (r: Option<Action>)
        ensures
            r is None,
            *final(self) == *old(self),
    {
        None
    }
}

} // verus!
