//! The application core: configuration, data, widget states, focus, and the
//! key/action dispatching that drives them.
use vstd::prelude::*;

pub mod config;
pub mod data;
pub mod handler;
pub mod header;
pub mod shell;
pub mod state;
pub mod widget;

use crate::app::config::AppConfig;
use crate::app::data::AppData;
use crate::app::widget::AppWidgetStates;
use crate::aws::cwlogs::group::cursor::GroupCursor;
use crate::aws::cwlogs::group::cursor::GroupsRequest;
use crate::preset::Preset;
use crate::session::SessionId;

verus! {

/// Which top-level region holds the keyboard.
#[derive(Debug, Copy, Clone, Eq, PartialEq, Structural)]
pub enum AppFocus {
    Shell,
    Header,
    Session(SessionId),
}

impl Default for AppFocus {
    /// The shell holds the keyboard first.
    fn default() -> (r: AppFocus)
        ensures
            r == AppFocus::Shell,
    {
        AppFocus::Shell
    }
}

/// The application core. The terminal, the remote client and the task
/// plumbing live with the caller; the core only decides.
pub struct App {
    pub config: AppConfig,
    pub data: AppData,
    pub widget_states: AppWidgetStates,
    pub focus: AppFocus,
}

impl App {
    /// The application invariant.
    pub open spec fn wf(&self) -> bool {
        &&& self.data.wf()
        &&& self.widget_states.wf()
    }

    /// A fresh application over the given configuration and data.
    pub fn new(config: AppConfig, data: AppData) -> (r: App)
        requires
            data.wf(),
        ensures
            r.wf(),
            r.config == config,
            r.data == data,
            r.focus == AppFocus::Shell,
            r.widget_states.shell.selection is None,
            !r.widget_states.shell.spec_focus(),
    {
        App { config, data, widget_states: AppWidgetStates::default(), focus: AppFocus::Shell }
    }

    /// A fresh pagination cursor over the group listing that the preset
    /// filters.
    pub fn create_groups_cursor(&self, preset: Preset) -> (c: GroupCursor)
        ensures
            c@.prefix == preset@.group_name_prefix,
            c@.next_token is None,
            c@.has_next,
    {
        GroupCursor::new(
            GroupsRequest { log_group_name_prefix: preset.group_name_prefix, next_token: None },
        )
    }
}

} // verus!
