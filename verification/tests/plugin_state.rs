use std::time::Duration;
use zellij_tile::prelude::LayoutInfo;
use zsm::command::HostCommand;
use zsm::key::{BareKey, KeyWithModifier};
use zsm::session::{SessionInfo, SessionItem};
use zsm::state::{ActiveScreen, KeyResponse, PluginState};
use zsm::zoxide::ZoxideDirectory;

fn key(bare: BareKey) -> KeyWithModifier {
    KeyWithModifier::new(bare)
}

fn ctrl(bare: BareKey) -> KeyWithModifier {
    KeyWithModifier::new(bare).with_ctrl()
}

fn session(name: &str, current: bool) -> SessionInfo {
    SessionInfo {
        name: name.to_string(),
        is_current_session: current,
        available_layouts: vec![
            LayoutInfo::BuiltIn("default".to_string()),
            LayoutInfo::BuiltIn("compact".to_string()),
        ],
    }
}

fn dir(path: &str, name: &str) -> ZoxideDirectory {
    ZoxideDirectory { directory: path.to_string(), session_name: name.to_string() }
}

fn press(state: &mut PluginState, k: KeyWithModifier) -> KeyResponse {
    state.handle_key_with_request_id(k, "req-1".to_string())
}

fn sample_state() -> PluginState {
    let mut state = PluginState::default();
    state.update_sessions(vec![session("main", true), session("proj.2", false)]);
    state.update_zoxide_directories(vec![dir("/home/u/proj", "proj"), dir("/home/u/web", "web")]);
    state
}

#[test]
fn default_state_is_empty() {
    let state = PluginState::default();
    assert_eq!(state.active_screen(), ActiveScreen::Main);
    assert!(state.display_items().is_empty());
    assert_eq!(state.selected_index(), None);
    assert_eq!(state.selected_item(), None);
    assert_eq!(state.error(), None);
    assert!(state.colors().is_none());
}

#[test]
fn combined_list_orders_sessions_then_directories() {
    let state = sample_state();
    let items = state.display_items();
    assert_eq!(
        items,
        vec![
            SessionItem::ExistingSession {
                name: "main".to_string(),
                directory: String::new(),
                is_current: true,
            },
            SessionItem::ExistingSession {
                name: "proj.2".to_string(),
                directory: "/home/u/proj".to_string(),
                is_current: false,
            },
            SessionItem::Directory {
                path: "/home/u/proj".to_string(),
                session_name: "proj".to_string(),
            },
            SessionItem::Directory { path: "/home/u/web".to_string(), session_name: "web".to_string() },
        ]
    );
}

#[test]
fn resurrectable_sessions_shown_only_when_configured() {
    let mut state = sample_state();
    state.update_resurrectable_sessions(vec![
        ("old".to_string(), Duration::from_secs(60)),
        ("main".to_string(), Duration::from_secs(5)),
        ("old".to_string(), Duration::from_secs(90)),
    ]);
    assert_eq!(state.display_items().len(), 4);
    state.initialize(vec![("show_resurrectable_sessions".to_string(), "true".to_string())]);
    let items = state.display_items();
    assert_eq!(items.len(), 5);
    assert_eq!(
        items[2],
        SessionItem::ResurrectableSession { name: "old".to_string(), duration: Duration::from_secs(60) }
    );
}

#[test]
fn selection_wraps_around() {
    let mut state = sample_state();
    let r = press(&mut state, key(BareKey::Up));
    assert!(r.should_render);
    assert_eq!(state.selected_index(), Some(3));
    press(&mut state, key(BareKey::Down));
    assert_eq!(state.selected_index(), Some(0));
    press(&mut state, key(BareKey::Down));
    press(&mut state, key(BareKey::Up));
    assert_eq!(state.selected_index(), Some(0));
    press(&mut state, key(BareKey::Up));
    assert_eq!(state.selected_index(), Some(3));
}

#[test]
fn typing_searches_and_escape_clears() {
    let mut state = sample_state();
    press(&mut state, key(BareKey::Char('w')));
    assert!(state.search_engine().is_searching());
    assert_eq!(
        state.display_items(),
        vec![SessionItem::Directory { path: "/home/u/web".to_string(), session_name: "web".to_string() }]
    );
    assert_eq!(state.selected_index(), Some(0));
    press(&mut state, key(BareKey::Backspace));
    assert!(!state.search_engine().is_searching());
    assert_eq!(state.display_items().len(), 4);
    press(&mut state, key(BareKey::Char('p')));
    assert_eq!(state.display_items().len(), 2);
    let r = press(&mut state, key(BareKey::Esc));
    assert!(r.should_render);
    assert!(!state.search_engine().is_searching());
    let r = press(&mut state, key(BareKey::Esc));
    assert_eq!(r, KeyResponse { should_render: false, commands: vec![HostCommand::HideSelf] });
}

#[test]
fn enter_on_session_switches_to_it() {
    let mut state = sample_state();
    press(&mut state, key(BareKey::Down));
    press(&mut state, key(BareKey::Down));
    let r = press(&mut state, key(BareKey::Enter));
    assert_eq!(
        r.commands,
        vec![
            HostCommand::SwitchSession { name: Some("proj.2".to_string()), cwd: None },
            HostCommand::HideSelf,
        ]
    );
}

#[test]
fn enter_on_directory_opens_form_with_free_name() {
    let mut state = sample_state();
    state.update_sessions(vec![session("main", true), session("proj", false), session("proj.2", false)]);
    press(&mut state, key(BareKey::Up));
    press(&mut state, key(BareKey::Up));
    assert_eq!(
        state.selected_item(),
        Some(SessionItem::Directory {
            path: "/home/u/proj".to_string(),
            session_name: "proj".to_string(),
        })
    );
    let r = press(&mut state, key(BareKey::Enter));
    assert!(r.commands.is_empty());
    assert_eq!(state.active_screen(), ActiveScreen::NewSession);
    assert_eq!(state.new_session_info().name(), "proj.3");
    assert_eq!(state.new_session_info().new_session_folder(), Some("/home/u/proj".to_string()));
    assert!(!state.new_session_info().entering_new_session_name());
}

#[test]
fn quick_creation_from_directory() {
    let mut state = sample_state();
    press(&mut state, key(BareKey::Up));
    let r = press(&mut state, ctrl(BareKey::Enter));
    assert_eq!(
        r.commands,
        vec![
            HostCommand::SwitchSession {
                name: Some("web".to_string()),
                cwd: Some("/home/u/web".to_string()),
            },
            HostCommand::HideSelf,
        ]
    );
}

#[test]
fn quick_creation_uses_default_layout() {
    let mut state = PluginState::default();
    state.initialize(vec![("default_layout".to_string(), "compact".to_string())]);
    state.update_sessions(vec![session("main", true)]);
    state.update_zoxide_directories(vec![dir("/w", "web")]);
    press(&mut state, key(BareKey::Up));
    let r = press(&mut state, ctrl(BareKey::Enter));
    assert_eq!(
        r.commands,
        vec![
            HostCommand::SwitchSessionWithLayout {
                name: Some("web".to_string()),
                layout: LayoutInfo::BuiltIn("compact".to_string()),
                cwd: Some("/w".to_string()),
            },
            HostCommand::HideSelf,
        ]
    );
}

#[test]
fn quick_creation_refuses_bad_names() {
    let long = "x".repeat(108);
    let mut state = sample_state();
    state.update_zoxide_directories(vec![dir("/a", &long), dir("/b", "a/b"), dir("/m", "main")]);
    press(&mut state, key(BareKey::Down));
    press(&mut state, key(BareKey::Down));
    press(&mut state, key(BareKey::Down));
    let r = press(&mut state, ctrl(BareKey::Enter));
    assert!(r.commands.is_empty());
    assert_eq!(state.error(), Some("Session name must be shorter than 108 bytes"));
    let r = press(&mut state, key(BareKey::Down));
    assert!(r.should_render);
    assert_eq!(state.error(), None);
    press(&mut state, key(BareKey::Down));
    press(&mut state, ctrl(BareKey::Enter));
    assert_eq!(state.error(), Some("Session name cannot contain '/'"));
}

#[test]
fn quick_creation_refuses_current_session_name() {
    let mut state = PluginState::default();
    state.update_sessions(vec![session("web", true)]);
    state.update_sessions(vec![session("other", false)]);
    state.update_zoxide_directories(vec![dir("/w", "web")]);
    press(&mut state, key(BareKey::Up));
    let r = press(&mut state, ctrl(BareKey::Enter));
    assert!(r.commands.is_empty());
    assert_eq!(state.error(), Some("Cannot create session with same name as current session"));
}

#[test]
fn quick_creation_without_selection_asks_for_one() {
    let mut state = sample_state();
    press(&mut state, ctrl(BareKey::Enter));
    assert_eq!(state.error(), Some("Please select a directory"));
}

#[test]
fn deletion_needs_confirmation() {
    let mut state = sample_state();
    press(&mut state, key(BareKey::Down));
    press(&mut state, key(BareKey::Down));
    press(&mut state, key(BareKey::Delete));
    assert_eq!(state.session_manager().pending_deletion(), Some("proj.2".to_string()));
    let r = press(&mut state, key(BareKey::Char('x')));
    assert!(!r.should_render);
    let r = press(&mut state, key(BareKey::Char('y')));
    assert_eq!(r.commands, vec![HostCommand::KillSession { name: "proj.2".to_string() }]);
    assert_eq!(state.session_manager().pending_deletion(), None);
    press(&mut state, key(BareKey::Delete));
    let r = press(&mut state, key(BareKey::Esc));
    assert!(r.commands.is_empty());
    assert_eq!(state.session_manager().pending_deletion(), None);
}

#[test]
fn deleting_a_resurrectable_session() {
    let mut state = PluginState::default();
    state.initialize(vec![("show_resurrectable_sessions".to_string(), "true".to_string())]);
    state.update_resurrectable_sessions(vec![("gone".to_string(), Duration::from_secs(3))]);
    press(&mut state, key(BareKey::Down));
    press(&mut state, key(BareKey::Delete));
    let r = press(&mut state, key(BareKey::Char('Y')));
    assert_eq!(r.commands, vec![HostCommand::DeleteDeadSession { name: "gone".to_string() }]);
}

#[test]
fn ctrl_r_reloads_directories_and_ctrl_c_hides() {
    let mut state = sample_state();
    let r = press(&mut state, ctrl(BareKey::Char('r')));
    assert_eq!(r, KeyResponse { should_render: true, commands: vec![HostCommand::ReloadZoxideDirectories] });
    let r = press(&mut state, ctrl(BareKey::Char('c')));
    assert_eq!(r, KeyResponse { should_render: false, commands: vec![HostCommand::HideSelf] });
    let r = press(&mut state, key(BareKey::Tab));
    assert_eq!(r, KeyResponse { should_render: false, commands: vec![] });
}

#[test]
fn new_session_form_flow() {
    let mut state = sample_state();
    press(&mut state, key(BareKey::Up));
    press(&mut state, key(BareKey::Enter));
    assert_eq!(state.active_screen(), ActiveScreen::NewSession);
    assert_eq!(state.new_session_info().name(), "web");
    let r = press(&mut state, ctrl(BareKey::Char('f')));
    assert_eq!(
        r.commands,
        vec![HostCommand::OpenFilepicker {
            request_id: "req-1".to_string(),
            caller_cwd: Some("/home/u/web".to_string()),
        }]
    );
    assert!(state.is_valid_request_id("req-1"));
    state.remove_request_id("req-1");
    assert!(!state.is_valid_request_id("req-1"));
    state.set_new_session_folder(Some("/tmp".to_string()));
    press(&mut state, key(BareKey::Char('c')));
    let r = press(&mut state, key(BareKey::Enter));
    assert_eq!(
        r.commands,
        vec![
            HostCommand::SwitchSessionWithLayout {
                name: Some("web".to_string()),
                layout: LayoutInfo::BuiltIn("compact".to_string()),
                cwd: Some("/tmp".to_string()),
            },
            HostCommand::HideSelf,
        ]
    );
    assert_eq!(state.active_screen(), ActiveScreen::Main);
}

#[test]
fn new_session_escape_returns_to_main_when_name_empty() {
    let mut state = sample_state();
    press(&mut state, key(BareKey::Up));
    press(&mut state, key(BareKey::Enter));
    press(&mut state, key(BareKey::Esc));
    assert!(state.new_session_info().entering_new_session_name());
    assert_eq!(state.active_screen(), ActiveScreen::NewSession);
    press(&mut state, key(BareKey::Esc));
    assert_eq!(state.new_session_info().name(), "");
    assert_eq!(state.active_screen(), ActiveScreen::NewSession);
    press(&mut state, key(BareKey::Esc));
    assert_eq!(state.active_screen(), ActiveScreen::Main);
}

#[test]
fn new_session_ctrl_enter_checks_name() {
    let mut state = sample_state();
    press(&mut state, key(BareKey::Up));
    press(&mut state, key(BareKey::Enter));
    press(&mut state, key(BareKey::Esc));
    press(&mut state, key(BareKey::Esc));
    press(&mut state, key(BareKey::Char('a')));
    press(&mut state, key(BareKey::Char('/')));
    let r = press(&mut state, ctrl(BareKey::Enter));
    assert!(r.commands.is_empty());
    assert_eq!(state.error(), Some("Session name cannot contain '/'"));
    press(&mut state, key(BareKey::Char('z')));
    press(&mut state, key(BareKey::Backspace));
    assert_eq!(state.new_session_info().name(), "a");
    let r = press(&mut state, ctrl(BareKey::Enter));
    assert_eq!(
        r.commands,
        vec![
            HostCommand::SwitchSession { name: Some("a".to_string()), cwd: Some("/home/u/web".to_string()) },
            HostCommand::HideSelf,
        ]
    );
    assert_eq!(state.active_screen(), ActiveScreen::Main);
}

#[test]
fn handle_key_makes_uuid_request_ids() {
    let mut state = sample_state();
    press(&mut state, key(BareKey::Up));
    press(&mut state, key(BareKey::Enter));
    let r = state.handle_key(ctrl(BareKey::Char('f')));
    match &r.commands[0] {
        HostCommand::OpenFilepicker { request_id, .. } => {
            assert_eq!(request_id.len(), 36);
            assert_eq!(request_id.chars().nth(8), Some('-'));
            assert_eq!(request_id.chars().nth(14), Some('4'));
            assert!(state.is_valid_request_id(request_id));
        }
        other => panic!("unexpected command {:?}", other),
    }
}

#[test]
fn error_is_dismissed_by_any_key() {
    let mut state = sample_state();
    state.set_error("boom".to_string());
    assert_eq!(state.error(), Some("boom"));
    let r = press(&mut state, key(BareKey::Up));
    assert_eq!(r, KeyResponse { should_render: true, commands: vec![] });
    assert_eq!(state.error(), None);
    assert_eq!(state.selected_index(), None);
}

#[test]
fn filepicker_answer_sets_folder_once() {
    let mut state = sample_state();
    press(&mut state, key(BareKey::Up));
    press(&mut state, key(BareKey::Enter));
    press(&mut state, ctrl(BareKey::Char('f')));
    let name = "filepicker_result".to_string();
    assert!(!state.handle_pipe_message(&"other".to_string(), Some("/x".to_string()), Some("req-1".to_string())));
    assert!(!state.handle_pipe_message(&name, None, Some("req-1".to_string())));
    assert!(!state.handle_pipe_message(&name, Some("/x".to_string()), Some("req-2".to_string())));
    assert!(state.handle_pipe_message(&name, Some("/picked".to_string()), Some("req-1".to_string())));
    assert_eq!(state.new_session_info().new_session_folder(), Some("/picked".to_string()));
    assert!(!state.is_valid_request_id("req-1"));
    assert!(!state.handle_pipe_message(&name, Some("/again".to_string()), Some("req-1".to_string())));
    assert_eq!(state.new_session_info().new_session_folder(), Some("/picked".to_string()));
}

#[test]
fn zoxide_command_result_updates_directories() {
    let mut state = PluginState::default();
    assert!(!state.handle_command_result(Some("other".to_string()), Some(0), b"/a\n".to_vec(), vec![]));
    assert!(!state.handle_command_result(None, Some(0), b"/a\n".to_vec(), vec![]));
    assert!(state.display_items().is_empty());
    assert!(state.handle_command_result(Some("zoxide".to_string()), Some(0), b"/h/\xc3\xa9t\xc3\xa9\n/h/b\n".to_vec(), vec![]));
    assert_eq!(
        state.display_items(),
        vec![
            SessionItem::Directory { path: "/h/été".to_string(), session_name: "été".to_string() },
            SessionItem::Directory { path: "/h/b".to_string(), session_name: "b".to_string() },
        ]
    );
    assert!(state.handle_command_result(Some("zoxide".to_string()), Some(1), vec![], b"no db\xff".to_vec()));
    assert_eq!(state.error(), Some("zoxide failed: no db\u{fffd}"));
    assert_eq!(state.display_items().len(), 2);
}

#[test]
fn down_presses_cycle_through_list() {
    let mut state = sample_state();
    press(&mut state, key(BareKey::Down));
    press(&mut state, key(BareKey::Down));
    assert_eq!(state.selected_index(), Some(1));
    for _ in 0..4 {
        press(&mut state, key(BareKey::Down));
    }
    assert_eq!(state.selected_index(), Some(1));
}
