use razy_cwlogs::app::config::AppConfig;
use razy_cwlogs::app::data::default_presets;
use razy_cwlogs::app::data::AppData;
use razy_cwlogs::app::handler::handle_action;
use razy_cwlogs::app::handler::handle_key_input;
use razy_cwlogs::app::handler::run_step;
use razy_cwlogs::app::handler::Command;
use razy_cwlogs::app::shell::state::ShellSelection;
use razy_cwlogs::app::state::AppSharedState;
use razy_cwlogs::app::App;
use razy_cwlogs::aws::cwlogs::group::cursor::GroupCursor;
use razy_cwlogs::aws::cwlogs::group::cursor::GroupsPage;
use razy_cwlogs::aws::cwlogs::group::cursor::GroupsRequest;
use razy_cwlogs::aws::cwlogs::group::model::LogGroupRecord;
use razy_cwlogs::aws::profile::from_lines;
use razy_cwlogs::collection::AsStr;
use razy_cwlogs::collection::Length;
use razy_cwlogs::event::Action;
use razy_cwlogs::event::Event;
use razy_cwlogs::event::EventBus;
use razy_cwlogs::event::Key;
use razy_cwlogs::preset::Preset;
use razy_cwlogs::preset::PresetName;
use razy_cwlogs::preset::PresetStore;
use razy_cwlogs::session::SessionSet;
use razy_cwlogs::ui::widget::search::SearchData;
use razy_cwlogs::ui::widget::stateful::SelectState;

fn record(name: &str) -> LogGroupRecord {
    LogGroupRecord {
        arn: Some(format!("arn:aws:logs:eu-west-1:000000000000:log-group:{}", name)),
        log_group_name: Some(name.to_string()),
        creation_time: Some(1604316153000),
        retention_in_days: None,
        stored_bytes: Some(1024),
    }
}

fn test_app() -> App {
    let profiles = from_lines(&vec!["[default]".to_string(), "[second]".to_string()]);
    let data = AppData::new(
        default_presets(),
        profiles,
        razy_cwlogs::aws::cwlogs::group::store::CwlGroupStore::default(),
        SearchData::default(),
        SessionSet::default(),
        None,
    );
    App::new(AppConfig::default(), data)
}

// An exhausted cursor asks for no remote call, and a failing page leaves the
// token state untouched.
#[test]
fn cursor_exhaustion_is_idempotent() {
    let mut cursor = GroupCursor::new(GroupsRequest {
        log_group_name_prefix: Some("prod".to_string()),
        next_token: None,
    });

    let request = cursor.begin_next().expect("a fresh cursor must fetch");
    assert_eq!(Some("prod".to_string()), request.log_group_name_prefix);
    assert_eq!(None, request.next_token);

    // a malformed page commits nothing
    let bad = GroupsPage {
        log_groups: Some(vec![LogGroupRecord {
            arn: None,
            ..record("prod-a")
        }]),
        next_token: Some("t1".to_string()),
    };
    assert!(cursor.finish_next(bad).is_err());
    let retry = cursor.begin_next().expect("failure must leave the cursor ready");
    assert_eq!(None, retry.next_token);

    // a page with a token keeps the cursor ready on that token
    let first = GroupsPage {
        log_groups: Some(vec![record("prod-a")]),
        next_token: Some("t1".to_string()),
    };
    assert_eq!(1, cursor.finish_next(first).expect("clean page").len());
    let second = cursor.begin_next().expect("a continuation token means more pages");
    assert_eq!(Some("t1".to_string()), second.next_token);

    // a page without a token exhausts the cursor: no further remote call
    let last = GroupsPage {
        log_groups: Some(vec![record("prod-b")]),
        next_token: None,
    };
    assert_eq!(1, cursor.finish_next(last).expect("clean page").len());
    assert!(cursor.begin_next().is_none());
    assert!(cursor.begin_next().is_none());

    // refresh re-issues the current page request without touching the state
    let refresh = cursor.refresh_request();
    assert_eq!(Some("t1".to_string()), refresh.next_token);
    let again = GroupsPage {
        log_groups: Some(vec![record("prod-b")]),
        next_token: None,
    };
    assert_eq!(1, cursor.refresh_finish(again).expect("clean page").len());
    assert!(cursor.begin_next().is_none());
}

// From no region selected, one step lands on the fixed default, and three
// steps return to the start.
#[test]
fn region_navigation_cycles() {
    let mut app = test_app();
    assert_eq!(None, app.widget_states.shell.selection);

    assert!(handle_key_input(&mut app, Key::Down).is_none());
    assert_eq!(Some(ShellSelection::Presets), app.widget_states.shell.selection);

    handle_key_input(&mut app, Key::Down);
    assert_eq!(Some(ShellSelection::Profiles), app.widget_states.shell.selection);
    handle_key_input(&mut app, Key::Down);
    assert_eq!(Some(ShellSelection::Groups), app.widget_states.shell.selection);
    handle_key_input(&mut app, Key::Down);
    assert_eq!(Some(ShellSelection::Presets), app.widget_states.shell.selection);

    // backward inverts forward
    handle_key_input(&mut app, Key::Up);
    assert_eq!(Some(ShellSelection::Groups), app.widget_states.shell.selection);
}

// `set_query` then `iterate` yields exactly the case-sensitive substring
// matches, in the active ordering.
#[test]
fn query_filters_iteration() {
    let mut presets = PresetStore::default();
    presets.insert(Preset::new(PresetName::from("project-prd"), None));
    presets.insert(Preset::new(PresetName::from("lambda"), None));
    presets.insert(Preset::new(PresetName::from("project-dev"), None));

    presets.set_query(razy_cwlogs::query::query_from("project".to_string()));
    assert_eq!("Presets (\"project\")", presets.label());
    let filtered = presets.iter();
    assert_eq!(2, filtered.len());
    assert_eq!(PresetName::from("project-prd"), filtered[0].name);
    assert_eq!(PresetName::from("project-dev"), filtered[1].name);
    assert_eq!(2, presets.len());

    // case-sensitive: no match, empty view
    presets.set_query(razy_cwlogs::query::query_from("Project".to_string()));
    assert_eq!(0, presets.iter().len());

    // clearing the query restores the full view and the plain label
    presets.set_query(None);
    assert_eq!("Presets", presets.label());
    assert_eq!(3, presets.iter().len());
}

// A listing request for "prod" answered by two records and no
// continuation token replaces the repository with exactly those two items in
// primary order.
#[test]
fn request_list_replaces_repository() {
    let mut app = test_app();

    // the dispatcher turns the request into a background fetch command and a
    // fresh cursor
    let profile = razy_cwlogs::aws::profile::ProfileName::from("default");
    let preset = Preset::new(PresetName::from("anonymous"), Some("prod".to_string()));
    let command = handle_action(
        &mut app,
        Action::RequestLogGroups(profile, Some(preset)),
    );
    let (fetch_profile, fetch_preset) = match command {
        Some(Command::FetchGroups(p, pr)) => (p, pr),
        other => panic!("expected a fetch command, got {:?}", other),
    };
    assert_eq!("default", fetch_profile.as_str());
    assert_eq!(Some("prod".to_string()), fetch_preset.group_name_prefix);

    // the fetch task drives the cursor once
    let mut cursor = GroupCursor::new(GroupsRequest {
        log_group_name_prefix: fetch_preset.group_name_prefix.clone(),
        next_token: None,
    });
    let _request = cursor.begin_next().expect("fresh cursor fetches");
    let page = GroupsPage {
        log_groups: Some(vec![record("prod-b"), record("prod-a")]),
        next_token: None,
    };
    let groups = cursor.finish_next(page).expect("clean page");
    assert!(cursor.begin_next().is_none());

    // the received page replaces the store wholesale, in primary order
    let mut app = app;
    app.data.groups.insert(
        razy_cwlogs::aws::cwlogs::group::model::CwlGroup::try_from(record("stale")).unwrap(),
    );
    assert!(handle_action(&mut app, Action::ReceiveLogGroups(groups)).is_none());
    let held = app.data.groups.iter();
    assert_eq!(2, held.len());
    assert_eq!("prod-a", held[0].group_name);
    assert_eq!("prod-b", held[1].group_name);
}

// Three ticks while running yield three redraw triggers; once the
// run flag is off, no further tick is processed.
#[test]
fn ticks_trigger_redraws_until_stopped() {
    let mut app = test_app();
    let mut shared = AppSharedState::new();
    shared.start_running();

    let mut redraws = 0;
    for _ in 0..3 {
        if shared.is_running() {
            match run_step(&mut app, Event::Tick) {
                Some(Command::Redraw) => redraws += 1,
                other => panic!("a tick must ask for a redraw, got {:?}", other),
            }
        }
    }
    assert_eq!(3, redraws);

    shared.stop_running();
    if shared.is_running() {
        run_step(&mut app, Event::Tick);
        redraws += 1;
    }
    assert_eq!(3, redraws);
}

// Navigating within a zero-length region selects nothing; no
// out-of-range index is ever selected.
#[test]
fn empty_region_navigation_selects_nothing() {
    let mut app = test_app();

    // move to the (empty) group region and focus it
    handle_key_input(&mut app, Key::Down);
    handle_key_input(&mut app, Key::Down);
    handle_key_input(&mut app, Key::Down);
    assert_eq!(Some(ShellSelection::Groups), app.widget_states.shell.selection);
    handle_key_input(&mut app, Key::Enter);
    assert!(app.widget_states.shell.has_focus());
    assert_eq!(0, app.data.groups.len());

    handle_key_input(&mut app, Key::Down);
    assert_eq!(None, app.widget_states.shell.groups.table.selected());
    handle_key_input(&mut app, Key::Up);
    assert_eq!(None, app.widget_states.shell.groups.table.selected());

    // a non-empty region wraps around instead of running out of range
    handle_key_input(&mut app, Key::Esc);
    handle_key_input(&mut app, Key::Up);
    assert_eq!(Some(ShellSelection::Profiles), app.widget_states.shell.selection);
    handle_key_input(&mut app, Key::Enter);
    handle_key_input(&mut app, Key::Up);
    assert_eq!(Some(0), app.widget_states.shell.profiles.list.selected());
    handle_key_input(&mut app, Key::Up);
    assert_eq!(Some(1), app.widget_states.shell.profiles.list.selected());
    handle_key_input(&mut app, Key::Down);
    assert_eq!(Some(0), app.widget_states.shell.profiles.list.selected());
    handle_key_input(&mut app, Key::Down);
    assert_eq!(Some(1), app.widget_states.shell.profiles.list.selected());
    handle_key_input(&mut app, Key::Down);
    assert_eq!(Some(0), app.widget_states.shell.profiles.list.selected());
}

// The quit key asks for a shutdown, and the shared flag gates every loop.
#[test]
fn quit_key_stops_the_run_flag() {
    let mut app = test_app();
    let mut shared = AppSharedState::new();
    shared.start_running();
    assert!(shared.is_running());

    match run_step(&mut app, Event::Input(Key::Char('q'))) {
        Some(Command::Quit) => shared.stop_running(),
        other => panic!("the quit key must ask to quit, got {:?}", other),
    }
    assert!(!shared.is_running());
}

// A fetch failure is logged and never clears previously displayed data.
#[test]
fn errors_leave_displayed_data_alone() {
    let mut app = test_app();
    let groups = vec![
        razy_cwlogs::aws::cwlogs::group::model::CwlGroup::try_from(record("prod-a")).unwrap(),
    ];
    handle_action(&mut app, Action::ReceiveLogGroups(groups));
    assert_eq!(1, app.data.groups.len());

    let command = handle_action(&mut app, Action::Error("remote error. cause:timeout".to_string()));
    assert!(command.is_none());
    assert_eq!(1, app.data.groups.len());
    assert_eq!("prod-a", app.data.groups.iter()[0].group_name);
}

// The bus hands events out first-in first-out and refuses beyond its bound.
#[test]
fn event_bus_is_bounded_fifo() {
    let mut bus = EventBus::new(2);
    assert!(bus.try_send(Event::Tick).is_ok());
    assert!(bus.try_send(Event::Input(Key::Char('a'))).is_ok());
    assert!(bus.try_send(Event::Tick).is_err());
    assert_eq!(2, bus.len());

    assert!(matches!(bus.recv(), Some(Event::Tick)));
    assert!(matches!(bus.recv(), Some(Event::Input(Key::Char('a')))));
    assert!(bus.recv().is_none());
}

// Typing in the header edits the search box and enter dispatches the search.
#[test]
fn header_search_dispatches_query() {
    let mut app = test_app();
    handle_key_input(&mut app, Key::Down);
    handle_key_input(&mut app, Key::Char('/'));
    assert_eq!(razy_cwlogs::app::AppFocus::Header, app.focus);

    handle_key_input(&mut app, Key::Char('p'));
    handle_key_input(&mut app, Key::Char('r'));
    handle_key_input(&mut app, Key::Char('x'));
    handle_key_input(&mut app, Key::BackSpace);
    let command = handle_key_input(&mut app, Key::Enter);
    assert_eq!(razy_cwlogs::app::AppFocus::Shell, app.focus);
    let action = match command {
        Some(Command::Dispatch(a)) => a,
        other => panic!("enter must dispatch the search, got {:?}", other),
    };
    match action {
        Action::Search(text) => assert_eq!("pr", text),
        other => panic!("expected a search action, got {:?}", other),
    }

    // with the preset region selected, the search filters the repository
    let command = handle_action(&mut app, Action::Search("pr".to_string()));
    assert!(command.is_none());
    assert_eq!("Presets (\"pr\")", app.data.presets.label());
    let filtered = app.data.presets.iter();
    assert_eq!(3, filtered.len());
}
