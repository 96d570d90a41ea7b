use zsm::key::{BareKey, KeyWithModifier};
use zsm::session::{SessionInfo, SessionItem};
use zsm::state::PluginState;
use zsm::zoxide::ZoxideDirectory;

fn key(bare: BareKey) -> KeyWithModifier {
    KeyWithModifier::new(bare)
}

fn state_with(n: usize) -> PluginState {
    let mut state = PluginState::default();
    let sessions = (0..n)
        .map(|i| SessionInfo {
            name: format!("s{}", i),
            is_current_session: i == 0,
            available_layouts: vec![],
        })
        .collect();
    state.update_sessions(sessions);
    state.update_zoxide_directories(vec![ZoxideDirectory {
        directory: "/d".to_string(),
        session_name: "d".to_string(),
    }]);
    state
}

#[test]
fn down_then_up_returns_to_each_entry() {
    for n in 0..4 {
        let len = n + 1;
        for start in 0..len {
            let mut state = state_with(n);
            for _ in 0..=start {
                state.handle_key_with_request_id(key(BareKey::Down), String::new());
            }
            assert_eq!(state.selected_index(), Some(start));
            state.handle_key_with_request_id(key(BareKey::Down), String::new());
            assert!(state.selected_index().unwrap() < len);
            state.handle_key_with_request_id(key(BareKey::Up), String::new());
            assert_eq!(state.selected_index(), Some(start));
            state.handle_key_with_request_id(key(BareKey::Up), String::new());
            state.handle_key_with_request_id(key(BareKey::Down), String::new());
            assert_eq!(state.selected_index(), Some(start));
        }
    }
}

#[test]
fn keys_leave_the_list_unchanged() {
    let mut state = state_with(3);
    let before = state.display_items();
    for k in [
        key(BareKey::Down),
        key(BareKey::Delete),
        key(BareKey::Char('n')),
        key(BareKey::Up),
        KeyWithModifier::new(BareKey::Char('r')).with_ctrl(),
        key(BareKey::Tab),
    ] {
        state.handle_key_with_request_id(k, String::new());
        assert_eq!(state.display_items(), before);
    }
}

#[test]
fn search_results_are_matching_list_entries() {
    let mut state = state_with(3);
    let all = state.display_items();
    state.handle_key_with_request_id(key(BareKey::Char('1')), String::new());
    let results = state.display_items();
    assert_eq!(
        results,
        vec![SessionItem::ExistingSession {
            name: "s1".to_string(),
            directory: String::new(),
            is_current: false,
        }]
    );
    assert!(results.iter().all(|r| all.contains(r)));
}
