//! Key routing and action dispatch.
//!
//! Handlers never perform outside work themselves: they mutate the
//! application core and hand back at most one command — quit, redraw,
//! dispatch an action, or fetch a page of groups in the background — for the
//! runtime around the core to carry out.
use vstd::prelude::*;

use crate::app::shell::state::ShellSelection;
use crate::aws::cwlogs::group::model::CwlGroup;
use crate::aws::cwlogs::group::model::CwlGroupV;
use crate::collection::store::spec_store_extend;
use crate::collection::store::Keyed;
use crate::app::App;
use crate::app::AppFocus;
use crate::aws::profile::ProfileName;
use crate::event::action::Action;
use crate::event::event::Event;
use crate::event::key::Key;
use crate::preset::Preset;
use crate::preset::PresetName;
use crate::query::query_from;
use crate::query::query_view;
use crate::query::Query;
use crate::repository::spec_label_text;
use vstd::string::StringExecFns;

verus! {

/// One piece of outside work the runtime must carry out.
#[derive(Debug)]
pub enum Command {
    /// Flip the shared run flag off; every loop then drains and exits.
    Quit,
    /// Repaint the screen from the current state.
    Redraw,
    /// Feed this action back into the event stream.
    Dispatch(Action),
    /// Fetch one page of log groups under this profile and preset in a
    /// background task, and feed the outcome back as an action.
    FetchGroups(ProfileName, Preset),
}

/// What handling a key in the shell region does. The quit key always wins;
/// otherwise arrows and vi keys navigate, enter focuses or executes, escape
/// unfocuses, and the slash hands the keyboard to the header.
pub open spec fn shell_key_effect(before: App, after: App, key: Key, r: Option<Command>) -> bool {
    &&& after.config == before.config
    &&& after.data.same_except_debug(before.data)
    &&& after.widget_states.shell.query == before.widget_states.shell.query
    &&& if key == before.config.quit_key {
        &&& r matches Some(Command::Quit)
        &&& after.focus == before.focus
        &&& after.data.presets == before.data.presets
        &&& after.data.profiles == before.data.profiles
        &&& after.data.groups == before.data.groups
        &&& shell_unchanged(before, after)
    } else if key == Key::Up || key == Key::Char('k') {
        &&& r is None
        &&& after.focus == before.focus
        &&& after.widget_states.shell.navigated(
            before.widget_states.shell,
            before.data,
            -1,
        )
        &&& after.data.presets == before.data.presets
        &&& after.data.profiles == before.data.profiles
        &&& after.data.groups == before.data.groups
    } else if key == Key::Down || key == Key::Char('j') {
        &&& r is None
        &&& after.focus == before.focus
        &&& after.widget_states.shell.navigated(before.widget_states.shell, before.data, 1)
        &&& after.data.presets == before.data.presets
        &&& after.data.profiles == before.data.profiles
        &&& after.data.groups == before.data.groups
    } else if key == Key::Enter {
        &&& after.focus == before.focus
        &&& after.data.presets == before.data.presets
        &&& after.data.profiles == before.data.profiles
        &&& after.data.groups == before.data.groups
        &&& enter_effect(before, after, r)
    } else if key == Key::Esc {
        &&& r is None
        &&& after.focus == before.focus
        &&& after.data.presets == before.data.presets
        &&& after.data.profiles == before.data.profiles
        &&& after.data.groups == before.data.groups
        &&& !after.widget_states.shell.spec_focus()
        &&& after.widget_states.shell.selection == before.widget_states.shell.selection
        &&& shell_cursors_unchanged(before, after)
    } else if key == Key::Char('/') {
        &&& r is None
        &&& after.focus == AppFocus::Header
        &&& shell_unchanged(before, after)
        &&& after.data.presets == before.data.presets
        &&& after.data.profiles == before.data.profiles
        &&& after.data.groups == before.data.groups
    } else {
        &&& r is None
        &&& after.focus == before.focus
        &&& shell_unchanged(before, after)
        &&& after.data.presets == before.data.presets
        &&& after.data.profiles == before.data.profiles
        &&& after.data.groups == before.data.groups
    }
}

/// What enter does in the shell: focused, it executes the selected item and
/// dispatches the resulting request; unfocused, it takes input focus.
pub open spec fn enter_effect(before: App, after: App, r: Option<Command>) -> bool {
    if before.widget_states.shell.spec_focus() {
        &&& after.widget_states.shell.spec_focus() == before.widget_states.shell.spec_focus()
        &&& shell_cursors_unchanged(before, after)
        &&& match before.widget_states.shell.selection {
            Some(ShellSelection::Presets) | Some(ShellSelection::Profiles) => match before
                .widget_states
                .shell
                .spec_selected_profile(before.data) {
                Some(pname) => {
                    &&& after.widget_states.shell.selection == Some(ShellSelection::Groups)
                    &&& (r matches Some(Command::Dispatch(a)) && (a matches
                        Action::RequestLogGroups(p, preset) && p@ == pname && (
                    match before.widget_states.shell.spec_selected_preset(before.data) {
                        Some(pv) => preset matches Some(pr) && pr@ == pv,
                        None => preset is None,
                    })))
                },
                None => r is None && after.widget_states.shell.selection
                    == before.widget_states.shell.selection,
            },
            _ => r is None && after.widget_states.shell.selection
                == before.widget_states.shell.selection,
        }
    } else {
        &&& r is None
        &&& after.widget_states.shell.spec_focus() == (
        before.widget_states.shell.selection is Some
            || before.widget_states.shell.spec_focus())
        &&& after.widget_states.shell.selection == before.widget_states.shell.selection
        &&& shell_cursors_unchanged(before, after)
    }
}

/// The shell's whole widget state agrees.
pub open spec fn shell_unchanged(before: App, after: App) -> bool {
    &&& after.widget_states.shell.selection == before.widget_states.shell.selection
    &&& after.widget_states.shell.spec_focus() == before.widget_states.shell.spec_focus()
    &&& shell_cursors_unchanged(before, after)
}

/// The shell's three item cursors agree.
pub open spec fn shell_cursors_unchanged(before: App, after: App) -> bool {
    &&& after.widget_states.shell.presets == before.widget_states.shell.presets
    &&& after.widget_states.shell.profiles == before.widget_states.shell.profiles
    &&& after.widget_states.shell.groups == before.widget_states.shell.groups
}

/// What handling a key in the header does: characters and backspace edit the
/// search text, arrows move inside it, and enter dispatches the search and
/// hands the keyboard back to the shell.
pub open spec fn header_key_effect(before: App, after: App, key: Key, r: Option<Command>) -> bool {
    &&& after.config == before.config
    &&& after.data.spec_sessions() == before.data.spec_sessions()
    &&& after.data.spec_groups_cursor() == before.data.spec_groups_cursor()
    &&& shell_unchanged(before, after)
    &&& after.widget_states.shell.query == before.widget_states.shell.query
    &&& after.data.presets == before.data.presets
    &&& after.data.profiles == before.data.profiles
    &&& after.data.groups == before.data.groups
    &&& match key {
        Key::Char(c) => {
            &&& r is None
            &&& after.focus == before.focus
            &&& after.data.search.spec_chars() == before.data.search.spec_chars().insert(
                before.data.search.spec_pos(),
                c,
            )
            &&& after.data.search.spec_pos() == before.data.search.spec_pos() + 1
        },
        Key::BackSpace => {
            &&& r is None
            &&& after.focus == before.focus
            &&& if before.data.search.spec_chars().len() > 0 && before.data.search.spec_pos()
                >= 1 {
                after.data.search.spec_chars() == before.data.search.spec_chars().remove(
                    before.data.search.spec_pos() - 1,
                ) && after.data.search.spec_pos() == before.data.search.spec_pos() - 1
            } else {
                after.data.search.spec_chars() == before.data.search.spec_chars()
                    && after.data.search.spec_pos() == before.data.search.spec_pos()
            }
        },
        Key::Enter => {
            &&& after.focus == AppFocus::Shell
            &&& after.data.search == before.data.search
            &&& (r matches Some(Command::Dispatch(a)) && (a matches Action::Search(s) && s@
                == before.data.search.spec_chars()))
        },
        Key::Left => {
            &&& r is None
            &&& after.focus == before.focus
            &&& moved_position(before, after, -1)
        },
        Key::Right => {
            &&& r is None
            &&& after.focus == before.focus
            &&& moved_position(before, after, 1)
        },
        _ => r is None && after.focus == before.focus && after.data.search == before.data.search,
    }
}

/// The search position moved by `direction`, clamped into the text.
pub open spec fn moved_position(before: App, after: App, direction: int) -> bool {
    &&& after.data.search.spec_chars() == before.data.search.spec_chars()
    &&& if before.data.search.spec_chars().len() > 0 {
        after.data.search.spec_pos() == crate::ui::widget::search::spec_clamp(
            before.data.search.spec_pos() + direction,
            0,
            before.data.search.spec_chars().len() as int,
        )
    } else {
        after.data.search.spec_pos() == before.data.search.spec_pos()
    }
}

/// Key handling of the shell region.
pub struct ShellHandler;

impl ShellHandler {
    /// Handles one key while the shell holds the keyboard.
    pub fn handle_key(&self, app: &mut App, key: Key) -> (r: Option<Command>)
        requires
            old(app).wf(),
        ensures
            final(app).wf(),
            final(app).data.spec_debug() == old(app).data.spec_debug(),
            shell_key_effect(*old(app), *final(app), key, r),
    {
        if key == app.config.quit_key {
            return Some(Command::Quit);
        }
        match key {
            Key::Up | Key::Char('k') => {
                let data = &app.data;
                app.widget_states.shell.select_previous(data);
                None
            },
            Key::Down | Key::Char('j') => {
                let data = &app.data;
                app.widget_states.shell.select_next(data);
                None
            },
            Key::Enter => self.on_enter(app),
            Key::Esc => {
                app.widget_states.shell.clear_focus();
                None
            },
            Key::Char('/') => {
                app.focus = AppFocus::Header;
                None
            },
            _ => None,
        }
    }

    /// Enter: execute the selected item while focused, else take focus.
    fn on_enter(&self, app: &mut App) -> (r: Option<Command>)
        requires
            old(app).wf(),
        ensures
            final(app).wf(),
            final(app).config == old(app).config,
            final(app).focus == old(app).focus,
            final(app).data == old(app).data,
            final(app).widget_states.shell.query == old(app).widget_states.shell.query,
            enter_effect(*old(app), *final(app), r),
    {
        if app.widget_states.shell.has_focus() {
            let data = &app.data;
            let action = app.widget_states.shell.execute_item(data);
            match action {
                Some(a) => Some(Command::Dispatch(a)),
                None => None,
            }
        } else {
            app.widget_states.shell.set_focus();
            None
        }
    }
}

/// Key handling of the header region.
pub struct HeaderHandler;

impl HeaderHandler {
    /// Handles one key while the header holds the keyboard.
    pub fn handle_key(&self, app: &mut App, key: Key) -> (r: Option<Command>)
        requires
            old(app).wf(),
        ensures
            final(app).wf(),
            final(app).data.spec_debug() == old(app).data.spec_debug(),
            header_key_effect(*old(app), *final(app), key, r),
    {
        match key {
            Key::Char(c) => {
                app.data.search.append_char(c);
                None
            },
            Key::BackSpace => {
                app.data.search.delete_char();
                None
            },
            Key::Enter => {
                let text = app.data.search.query();
                app.focus = AppFocus::Shell;
                Some(Command::Dispatch(Action::Search(text)))
            },
            Key::Left => {
                app.data.search.move_position(-1);
                None
            },
            Key::Right => {
                app.data.search.move_position(1);
                None
            },
            _ => None,
        }
    }
}

/// What routing one key does, depending on which region holds the keyboard.
pub open spec fn key_input_effect(before: App, after: App, key: Key, r: Option<Command>) -> bool {
    match before.focus {
        AppFocus::Shell => shell_key_effect(before, after, key, r),
        AppFocus::Header => header_key_effect(before, after, key, r),
        AppFocus::Session(_) => {
            &&& r is None
            &&& after.config == before.config
            &&& after.focus == before.focus
            &&& after.data.same_except_debug(before.data)
            &&& shell_unchanged(before, after)
            &&& after.widget_states.shell.query == before.widget_states.shell.query
        },
    }
}

/// Routes one key to the region that holds the keyboard, after recording it
/// on the diagnostic panel.
pub fn handle_key_input(app: &mut App, key: Key) -> (r: Option<Command>)
    requires
        old(app).wf(),
    ensures
        final(app).wf(),
        key_input_effect(*old(app), *final(app), key, r),
{
    app.data.debug_key(key);
    let r = match app.focus {
        AppFocus::Shell => ShellHandler.handle_key(app, key),
        AppFocus::Header => HeaderHandler.handle_key(app, key),
        AppFocus::Session(_) => None,
    };
    r
}

/// What dispatching a search does: with the preset or profile region
/// selected it filters that repository and relabels it; with the group
/// region selected it turns the search into a fresh listing request under an
/// anonymous preset; without a selection it does nothing.
pub open spec fn search_effect(before: App, after: App, s: Seq<char>, r: Option<Command>) -> bool {
    let qv: Option<Seq<char>> = if s.len() == 0 {
        None
    } else {
        Some(s)
    };
    &&& after.focus == before.focus
    &&& shell_unchanged(before, after)
    &&& after.widget_states.shell.query == before.widget_states.shell.query
    &&& after.data.search == before.data.search
    &&& after.data.groups == before.data.groups
    &&& after.data.spec_sessions() == before.data.spec_sessions()
    &&& after.data.spec_groups_cursor() == before.data.spec_groups_cursor()
    &&& after.data.spec_debug() == before.data.spec_debug()
    &&& match before.widget_states.shell.selection {
        None => {
            &&& r is None
            &&& after.data.presets == before.data.presets
            &&& after.data.profiles == before.data.profiles
        },
        Some(ShellSelection::Presets) => {
            &&& r is None
            &&& after.data.profiles == before.data.profiles
            &&& after.data.presets.rows() == before.data.presets.rows()
            &&& after.data.presets.spec_query() == qv
            &&& after.data.presets.spec_base() == before.data.presets.spec_base()
            &&& after.data.presets.spec_label() == spec_label_text(
                before.data.presets.spec_base(),
                qv,
            )
        },
        Some(ShellSelection::Profiles) => {
            &&& r is None
            &&& after.data.presets == before.data.presets
            &&& after.data.profiles.rows() == before.data.profiles.rows()
            &&& after.data.profiles.spec_query() == qv
            &&& after.data.profiles.spec_base() == before.data.profiles.spec_base()
            &&& after.data.profiles.spec_label() == spec_label_text(
                before.data.profiles.spec_base(),
                qv,
            )
        },
        Some(ShellSelection::Groups) => {
            &&& after.data.presets == before.data.presets
            &&& after.data.profiles == before.data.profiles
            &&& match before.widget_states.shell.spec_selected_profile(before.data) {
                Some(pname) => r matches Some(Command::Dispatch(a)) && (a matches
                    Action::RequestLogGroups(p, pr) && p@ == pname && (pr matches Some(ps) && ps@.name
                    == "anonymous"@ && ps@.group_name_prefix == qv)),
                None => r is None,
            }
        },
    }
}

/// What dispatching an action does in the shell region.
pub open spec fn shell_action_effect(before: App, after: App, action: Action, r: Option<
    Command,
>) -> bool {
    &&& after.config == before.config
    &&& after.widget_states.shell.query == before.widget_states.shell.query
    &&& match action {
        Action::Search(s) => search_effect(before, after, s@, r),
        Action::RequestLogGroups(profile, preset) => {
            &&& after.focus == before.focus
            &&& shell_unchanged(before, after)
            &&& after.data.same_stores(before.data)
            &&& after.data.spec_sessions() == before.data.spec_sessions()
            &&& (after.data.spec_groups_cursor() matches Some(c) && c@.has_next
                && c@.next_token is None && c@.prefix == (match preset {
                Some(ref p) => p@.group_name_prefix,
                None => None,
            }))
            &&& (r matches Some(Command::FetchGroups(p2, pr2)) && p2@ == profile@ && (
            match preset {
                Some(ref p) => pr2@ == p@,
                None => pr2@.name.len() == 0 && pr2@.group_name_prefix is None,
            }))
        },
        Action::ReceiveLogGroups(groups) => {
            &&& r is None
            &&& after.focus == before.focus
            &&& shell_unchanged(before, after)
            &&& after.data.presets == before.data.presets
            &&& after.data.profiles == before.data.profiles
            &&& after.data.search == before.data.search
            &&& after.data.spec_sessions() == before.data.spec_sessions()
            &&& after.data.spec_groups_cursor() == before.data.spec_groups_cursor()
            &&& after.data.groups@ == spec_store_extend(
                Seq::<CwlGroupV>::empty(),
                groups@.map_values(|g: CwlGroup| g@),
                |v: CwlGroupV| CwlGroup::pkey(v),
            )
        },
        Action::Error(msg) => {
            &&& r is None
            &&& after.focus == before.focus
            &&& shell_unchanged(before, after)
            &&& after.data.same_except_debug(before.data)
        },
    }
}

impl ShellHandler {
    /// Handles one dispatched action in the shell region.
    pub fn handle_action(&self, app: &mut App, action: Action) -> (r: Option<Command>)
        requires
            old(app).wf(),
        ensures
            final(app).wf(),
            shell_action_effect(*old(app), *final(app), action, r),
    {
        match action {
            Action::Search(s) => {
                proof {
                    if s@.len() == 0 {
                        assert(s@ =~= Seq::<char>::empty());
                    }
                }
                self.on_query(app, query_from(s))
            },
            Action::RequestLogGroups(profile, preset) => self.on_request_log_groups(
                app,
                profile,
                preset,
            ),
            Action::ReceiveLogGroups(groups) => self.on_receive_log_groups(app, groups),
            Action::Error(msg) => self.on_error(app, msg),
        }
    }

    /// Applies a new query to the selected repository, or turns it into a
    /// fresh listing request over the group region.
    fn on_query(&self, app: &mut App, q: Option<Query>) -> (r: Option<Command>)
        requires
            old(app).wf(),
            q matches Some(qq) ==> qq@.len() > 0,
        ensures
            final(app).wf(),
            final(app).config == old(app).config,
            search_effect(
                *old(app),
                *final(app),
                match q {
                    Some(ref qq) => qq@,
                    None => Seq::empty(),
                },
                r,
            ),
    {
        let ghost s: Seq<char> = match q {
            Some(ref qq) => qq@,
            None => Seq::empty(),
        };
        let ghost qv: Option<Seq<char>> = if s.len() == 0 {
            None
        } else {
            Some(s)
        };
        proof {
            assert(query_view(q) == qv);
        }
        match app.widget_states.shell.selection {
            Some(ShellSelection::Presets) => {
                app.data.presets.set_query(q);
                None
            },
            Some(ShellSelection::Profiles) => {
                app.data.profiles.set_query(q);
                None
            },
            Some(ShellSelection::Groups) => {
                let data = &app.data;
                let profile = app.widget_states.shell.selected_profile(data);
                if let Some(profile) = profile {
                    let prefix = match q {
                        Some(qq) => Some(qq.into_word()),
                        None => None,
                    };
                    let preset = Preset::new(PresetName::from("anonymous"), prefix);
                    Some(Command::Dispatch(Action::RequestLogGroups(profile, Some(preset))))
                } else {
                    None
                }
            },
            None => None,
        }
    }

    /// Remembers a fresh cursor for the request and hands the fetch to the
    /// runtime.
    fn on_request_log_groups(&self, app: &mut App, profile_name: ProfileName, preset: Option<
        Preset,
    >) -> (r: Option<Command>)
        requires
            old(app).wf(),
        ensures
            final(app).wf(),
            final(app).config == old(app).config,
            final(app).focus == old(app).focus,
            shell_unchanged(*old(app), *final(app)),
            final(app).widget_states.shell.query == old(app).widget_states.shell.query,
            final(app).data.same_stores(old(app).data),
            final(app).data.spec_sessions() == old(app).data.spec_sessions(),
            (final(app).data.spec_groups_cursor() matches Some(c) && c@.has_next
                && c@.next_token is None && c@.prefix == (match preset {
                Some(ref p) => p@.group_name_prefix,
                None => None,
            })),
            (r matches Some(Command::FetchGroups(p2, pr2)) && p2@ == profile_name@ && (
            match preset {
                Some(ref p) => pr2@ == p@,
                None => pr2@.name.len() == 0 && pr2@.group_name_prefix is None,
            })),
    {
        app.data.debug_log("create a new group listing cursor".to_owned());
        let preset = match preset {
            Some(p) => p,
            None => Preset::default(),
        };
        let cursor = app.create_groups_cursor(crate::repository::Named::dup(&preset));
        app.data.set_groups_cursor(cursor);
        Some(Command::FetchGroups(profile_name, preset))
    }

    /// Replaces the group store wholesale with a received page.
    fn on_receive_log_groups(&self, app: &mut App, groups: Vec<CwlGroup>) -> (r: Option<Command>)
        requires
            old(app).wf(),
        ensures
            final(app).wf(),
            r is None,
            final(app).config == old(app).config,
            final(app).focus == old(app).focus,
            shell_unchanged(*old(app), *final(app)),
            final(app).widget_states.shell.query == old(app).widget_states.shell.query,
            final(app).data.presets == old(app).data.presets,
            final(app).data.profiles == old(app).data.profiles,
            final(app).data.search == old(app).data.search,
            final(app).data.spec_sessions() == old(app).data.spec_sessions(),
            final(app).data.spec_groups_cursor() == old(app).data.spec_groups_cursor(),
            final(app).data.groups@ == spec_store_extend(
                Seq::<CwlGroupV>::empty(),
                groups@.map_values(|g: CwlGroup| g@),
                |v: CwlGroupV| CwlGroup::pkey(v),
            ),
    {
        app.data.debug_log("received a page of log groups".to_owned());
        app.data.groups.clear();
        app.data.groups.extend(&groups);
        None
    }

    /// Logs a fetch failure; it never aborts the dispatcher and never
    /// touches previously displayed data.
    fn on_error(&self, app: &mut App, msg: String) -> (r: Option<Command>)
        requires
            old(app).wf(),
        ensures
            final(app).wf(),
            r is None,
            final(app).config == old(app).config,
            final(app).focus == old(app).focus,
            shell_unchanged(*old(app), *final(app)),
            final(app).widget_states.shell.query == old(app).widget_states.shell.query,
            final(app).data.same_except_debug(old(app).data),
    {
        app.data.debug_log(msg);
        None
    }
}

/// What routing one action does, depending on which region holds the
/// keyboard: only the shell region consumes actions.
pub open spec fn action_input_effect(before: App, after: App, action: Action, r: Option<
    Command,
>) -> bool {
    match before.focus {
        AppFocus::Shell => shell_action_effect(before, after, action, r),
        _ => r is None && after == before,
    }
}

/// Routes one action to the region that holds the keyboard.
pub fn handle_action(app: &mut App, action: Action) -> (r: Option<Command>)
    requires
        old(app).wf(),
    ensures
        final(app).wf(),
        action_input_effect(*old(app), *final(app), action, r),
{
    match app.focus {
        AppFocus::Shell => ShellHandler.handle_action(app, action),
        AppFocus::Header => None,
        AppFocus::Session(_) => None,
    }
}

/// One step of the main loop: a tick asks for a redraw, a key is routed to
/// the focused region, an action is dispatched.
pub fn run_step(app: &mut App, event: Event) -> (r: Option<Command>)
    requires
        old(app).wf(),
    ensures
        final(app).wf(),
        match event {
            Event::Tick => (r matches Some(Command::Redraw)) && *final(app) == *old(app),
            Event::Input(key) => key_input_effect(*old(app), *final(app), key, r),
            Event::Action(a) => action_input_effect(*old(app), *final(app), a, r),
        },
{
    match event {
        Event::Tick => Some(Command::Redraw),
        Event::Input(key) => handle_key_input(app, key),
        Event::Action(action) => handle_action(app, action),
    }
}

} // verus!
