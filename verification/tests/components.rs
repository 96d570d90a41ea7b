use std::time::Duration;
use zellij_tile::prelude::LayoutInfo;
use zsm::command::HostCommand;
use zsm::config::Config;
use zsm::key::{BareKey, KeyWithModifier};
use zsm::new_session_info::NewSessionInfo;
use zsm::session::{incremented_number, SessionAction, SessionInfo, SessionItem, SessionManager};
use zsm::text::{
    chars_of, contains_char, decimal_string, parse_u32, string_of, subsequence_match,
    utf8_len_at_least,
};
use zsm::zoxide::{parse_zoxide_output, session_name_of, SearchEngine, ZoxideDirectory};

fn chars(s: &str) -> Vec<char> {
    s.chars().collect()
}

fn session(name: &str) -> SessionInfo {
    SessionInfo { name: name.to_string(), is_current_session: false, available_layouts: vec![] }
}

#[test]
fn parse_u32_follows_std() {
    assert_eq!(parse_u32(&chars("42")), Some(42));
    assert_eq!(parse_u32(&chars("+7")), Some(7));
    assert_eq!(parse_u32(&chars("007")), Some(7));
    assert_eq!(parse_u32(&chars("4294967295")), Some(u32::MAX));
    assert_eq!(parse_u32(&chars("4294967296")), None);
    assert_eq!(parse_u32(&chars("")), None);
    assert_eq!(parse_u32(&chars("+")), None);
    assert_eq!(parse_u32(&chars("-1")), None);
    assert_eq!(parse_u32(&chars("1a")), None);
    for s in ["0", "12", "+3", "99999999999", "x", "", "+"] {
        assert_eq!(parse_u32(&chars(s)), s.parse::<u32>().ok());
    }
}

#[test]
fn text_helpers() {
    assert_eq!(chars_of("héllo"), vec!['h', 'é', 'l', 'l', 'o']);
    assert_eq!(string_of(&chars("abc")), "abc");
    assert!(contains_char(&chars("a/b"), '/'));
    assert!(!contains_char(&chars("ab"), '/'));
    assert!(subsequence_match(&chars("hlo"), &chars("hello")));
    assert!(!subsequence_match(&chars("oh"), &chars("hello")));
    assert!(subsequence_match(&chars(""), &chars("")));
    assert_eq!(decimal_string(0), vec!['0']);
    assert_eq!(decimal_string(1203), chars("1203"));
    assert!(utf8_len_at_least(&chars("ééé"), 6));
    assert!(!utf8_len_at_least(&chars("ééé"), 7));
    assert!(utf8_len_at_least(&chars(""), 0));
    let long = "é".repeat(54);
    assert_eq!(long.len(), 108);
    assert!(utf8_len_at_least(&chars(&long), 108));
}

#[test]
fn config_reads_keys() {
    let default = Config::new();
    assert!(!default.show_resurrectable_sessions);
    assert_eq!(default.session_separator, ".");
    assert_eq!(default.default_layout, None);
    let config = Config::from_zellij_config(&vec![
        ("session_separator".to_string(), "-".to_string()),
        ("show_resurrectable_sessions".to_string(), "yes".to_string()),
        ("default_layout".to_string(), "compact".to_string()),
    ]);
    assert_eq!(config.session_separator, "-");
    assert!(!config.show_resurrectable_sessions);
    assert_eq!(config.default_layout, Some("compact".to_string()));
    let config = Config::from_zellij_config(&vec![
        ("show_resurrectable_sessions".to_string(), "true".to_string()),
        ("show_resurrectable_sessions".to_string(), "false".to_string()),
    ]);
    assert!(!config.show_resurrectable_sessions);
}

#[test]
fn incremented_names() {
    let dot = ".".to_string();
    assert_eq!(incremented_number(&"proj.2".to_string(), &"proj".to_string(), &dot), Some(2));
    assert_eq!(incremented_number(&"proj.+2".to_string(), &"proj".to_string(), &dot), Some(2));
    assert_eq!(incremented_number(&"proj".to_string(), &"proj".to_string(), &dot), None);
    assert_eq!(incremented_number(&"proj.".to_string(), &"proj".to_string(), &dot), None);
    assert_eq!(incremented_number(&"proj-2".to_string(), &"proj".to_string(), &dot), None);
    assert_eq!(incremented_number(&"project.2".to_string(), &"proj".to_string(), &dot), None);
    let mut manager = SessionManager::new();
    assert_eq!(manager.generate_incremented_name(&"proj".to_string(), &dot), "proj");
    manager.update_sessions(vec![session("proj"), session("proj.7"), session("proj.x"), session("other")]);
    assert_eq!(manager.generate_incremented_name(&"proj".to_string(), &dot), "proj.8");
    manager.update_sessions(vec![session("proj")]);
    assert_eq!(manager.generate_incremented_name(&"proj".to_string(), &dot), "proj.2");
    assert_eq!(manager.generate_incremented_name(&"proj".to_string(), &"_".to_string()), "proj_2");
}

#[test]
fn session_manager_deletion_and_actions() {
    let mut manager = SessionManager::new();
    manager.update_sessions(vec![session("a")]);
    manager.update_resurrectable_sessions(vec![("b".to_string(), Duration::from_secs(1))]);
    assert_eq!(manager.resurrectable_sessions().len(), 1);
    assert!(manager.has_session(&"a".to_string()));
    assert!(!manager.has_session(&"b".to_string()));
    assert_eq!(manager.confirm_deletion(), vec![]);
    manager.start_deletion("a".to_string());
    assert_eq!(manager.confirm_deletion(), vec![HostCommand::KillSession { name: "a".to_string() }]);
    manager.start_deletion("b".to_string());
    manager.cancel_deletion();
    assert_eq!(manager.pending_deletion(), None);
    assert_eq!(
        manager.execute_action(SessionAction::Switch("a".to_string())),
        vec![HostCommand::SwitchSession { name: Some("a".to_string()), cwd: None }]
    );
}

#[test]
fn zoxide_output_is_parsed() {
    let dirs = parse_zoxide_output("/home/u/proj\n\n/srv/web/\n/\nrelative\n/last");
    assert_eq!(
        dirs,
        vec![
            ZoxideDirectory { directory: "/home/u/proj".to_string(), session_name: "proj".to_string() },
            ZoxideDirectory { directory: "/srv/web/".to_string(), session_name: "/srv/web/".to_string() },
            ZoxideDirectory { directory: "/".to_string(), session_name: "/".to_string() },
            ZoxideDirectory { directory: "relative".to_string(), session_name: "relative".to_string() },
            ZoxideDirectory { directory: "/last".to_string(), session_name: "last".to_string() },
        ]
    );
    assert!(parse_zoxide_output("").is_empty());
    assert_eq!(session_name_of(&chars("/a/b")), chars("b"));
}

fn items() -> Vec<SessionItem> {
    vec![
        SessionItem::ExistingSession { name: "alpha".to_string(), directory: String::new(), is_current: true },
        SessionItem::ResurrectableSession { name: "beta".to_string(), duration: Duration::from_secs(2) },
        SessionItem::Directory { path: "/home/alpine".to_string(), session_name: "alpine".to_string() },
    ]
}

#[test]
fn search_engine_filters_and_moves() {
    let items = items();
    let mut search = SearchEngine::new();
    assert!(!search.is_searching());
    search.add_char('a', &items);
    assert_eq!(search.results().len(), 3);
    search.add_char('l', &items);
    search.add_char('p', &items);
    assert_eq!(search.search_term(), "alp");
    assert_eq!(search.results().len(), 2);
    assert_eq!(search.selected_index(), Some(0));
    search.move_selection_up();
    assert_eq!(search.selected_index(), Some(1));
    assert_eq!(search.selected_item(), Some(items[2].clone()));
    search.move_selection_down();
    assert_eq!(search.selected_index(), Some(0));
    search.add_char('z', &items);
    assert!(search.results().is_empty());
    assert_eq!(search.selected_index(), None);
    search.move_selection_down();
    assert_eq!(search.selected_index(), None);
    search.backspace(&items);
    assert_eq!(search.results().len(), 2);
    search.clear();
    assert!(!search.is_searching());
    search.update_search("be".to_string(), &items);
    assert_eq!(search.results(), &vec![items[1].clone()]);
    search.backspace(&items);
    search.backspace(&items);
    assert!(!search.is_searching());
    assert!(search.results().is_empty());
}

fn key(bare: BareKey) -> KeyWithModifier {
    KeyWithModifier::new(bare)
}

#[test]
fn new_session_form() {
    let mut form = NewSessionInfo::new();
    assert!(form.entering_new_session_name());
    form.handle_key(key(BareKey::Char('x')));
    form.handle_key(key(BareKey::Char('y')));
    form.handle_key(key(BareKey::Backspace));
    assert_eq!(form.name(), "x");
    form.handle_key(key(BareKey::Char('c')).with_ctrl());
    assert_eq!(form.name(), "");
    form.set_name(&"dev".to_string());
    form.update_layout_list(vec![
        LayoutInfo::BuiltIn("default".to_string()),
        LayoutInfo::BuiltIn("strider".to_string()),
        LayoutInfo::BuiltIn("compact".to_string()),
    ]);
    assert_eq!(form.selected_layout_info(), Some(LayoutInfo::BuiltIn("default".to_string())));
    let commands = form.handle_selection(&Some("main".to_string()));
    assert!(commands.is_empty());
    assert!(!form.entering_new_session_name());
    form.handle_key(key(BareKey::Up));
    assert_eq!(form.selected_layout_info(), Some(LayoutInfo::BuiltIn("compact".to_string())));
    form.handle_key(key(BareKey::Down));
    form.handle_key(key(BareKey::Down));
    assert_eq!(form.selected_layout_info(), Some(LayoutInfo::BuiltIn("strider".to_string())));
    form.handle_key(key(BareKey::Char('t')));
    assert_eq!(form.selected_layout_info(), Some(LayoutInfo::BuiltIn("default".to_string())));
    form.handle_key(key(BareKey::Char('q')));
    assert_eq!(form.selected_layout_info(), None);
    form.handle_key(key(BareKey::Esc));
    assert!(form.entering_new_session_name());
    assert_eq!(form.name(), "dev");
    form.set_folder(Some("/src".to_string()));
    let commands = form.handle_quick_session_creation(&None, &Some("strider".to_string()));
    assert_eq!(
        commands,
        vec![
            HostCommand::SwitchSessionWithLayout {
                name: Some("dev".to_string()),
                layout: LayoutInfo::BuiltIn("strider".to_string()),
                cwd: Some("/src".to_string()),
            },
            HostCommand::HideSelf,
        ]
    );
    assert_eq!(form.name(), "");
    assert_eq!(form.new_session_folder(), Some("/src".to_string()));
    form.set_name(&"main".to_string());
    let commands = form.handle_quick_session_creation(&Some("main".to_string()), &None);
    assert_eq!(commands, vec![HostCommand::HideSelf]);
}
