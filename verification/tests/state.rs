use orcs::state::AppState;

#[test]
fn test_new() {
    let state = AppState::new();
    assert!(state.last_selected_workspace_id.is_none());
    assert!(state.default_workspace_id.is_none());
    assert!(state.active_session_id.is_none());
    assert!(state.open_tabs.is_empty());
    assert!(state.active_tab_id.is_none());
}

#[test]
fn test_default() {
    let state = AppState::default();
    assert!(state.last_selected_workspace_id.is_none());
    assert!(state.default_workspace_id.is_none());
    assert!(state.active_session_id.is_none());
    assert!(state.open_tabs.is_empty());
    assert!(state.active_tab_id.is_none());
}
