//! The widget states of the whole application.
use vstd::prelude::*;

use crate::app::header::state::HeaderState;
use crate::app::shell::state::ShellState;
use crate::ui::widget::debug::DebugState;

verus! {

/// Every region's widget state.
#[derive(Debug)]
pub struct AppWidgetStates {
    pub debug: DebugState,
    pub shell: ShellState,
    pub header: HeaderState,
}

impl AppWidgetStates {
    /// The states' invariant.
    pub open spec fn wf(&self) -> bool {
        self.shell.wf()
    }
}

impl Default for AppWidgetStates {
    /// Nothing selected, nothing focused.
    fn default() -> (r: AppWidgetStates)
        ensures
            r.wf(),
            r.shell.selection is None,
            !r.shell.spec_focus(),
    {
        AppWidgetStates {
            debug: DebugState {  },
            shell: ShellState::default(),
            header: HeaderState { search: crate::ui::widget::search::SearchState { cursor_pos: 0 } },
        }
    }
}

} // verus!
