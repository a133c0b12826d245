use orcs::state::{AppState, StateError};

fn state_with_three_tabs() -> AppState {
    let mut s = AppState::new();
    s.open_tab("s1".to_string(), "w".to_string(), "t1".to_string(), 10);
    s.open_tab("s2".to_string(), "w".to_string(), "t2".to_string(), 20);
    s.open_tab("s3".to_string(), "w".to_string(), "t3".to_string(), 30);
    s
}

fn ids(s: &AppState) -> Vec<String> {
    s.open_tabs.iter().map(|t| t.id.clone()).collect()
}

fn orders(s: &AppState) -> Vec<i32> {
    s.open_tabs.iter().map(|t| t.order).collect()
}

#[test]
fn open_tab_appends_with_next_order_and_activates() {
    let s = state_with_three_tabs();
    assert_eq!(ids(&s), vec!["t1", "t2", "t3"]);
    assert_eq!(orders(&s), vec![0, 1, 2]);
    assert_eq!(s.active_tab_id.as_deref(), Some("t3"));
    assert_eq!(s.open_tabs[1].last_accessed_at, 20);
    assert!(s.open_tabs[1].input.is_none());
}

#[test]
fn open_tab_for_open_session_reuses_tab() {
    let mut s = state_with_three_tabs();
    let id = s.open_tab("s1".to_string(), "w".to_string(), "t9".to_string(), 99);
    assert_eq!(id, "t1");
    assert_eq!(ids(&s), vec!["t1", "t2", "t3"]);
    assert_eq!(s.active_tab_id.as_deref(), Some("t1"));
    assert_eq!(s.open_tabs[0].last_accessed_at, 99);
}

#[test]
fn close_active_tab_activates_neighbour_and_renumbers() {
    let mut s = state_with_three_tabs();
    s.set_active_tab("t2".to_string(), 40).unwrap();
    assert_eq!(s.close_tab("t2"), Ok(()));
    assert_eq!(ids(&s), vec!["t1", "t3"]);
    assert_eq!(orders(&s), vec![0, 1]);
    assert_eq!(s.active_tab_id.as_deref(), Some("t3"));
}

#[test]
fn close_last_active_tab_activates_new_last() {
    let mut s = state_with_three_tabs();
    assert_eq!(s.close_tab("t3"), Ok(()));
    assert_eq!(s.active_tab_id.as_deref(), Some("t2"));
    s.close_tab("t1").unwrap();
    s.close_tab("t2").unwrap();
    assert!(s.open_tabs.is_empty());
    assert!(s.active_tab_id.is_none());
}

#[test]
fn close_inactive_tab_keeps_active() {
    let mut s = state_with_three_tabs();
    s.close_tab("t1").unwrap();
    assert_eq!(s.active_tab_id.as_deref(), Some("t3"));
}

#[test]
fn close_unknown_tab_fails_and_changes_nothing() {
    let mut s = state_with_three_tabs();
    let r = s.close_tab("nope");
    assert_eq!(r, Err(StateError::TabNotFound { tab_id: "nope".to_string() }));
    assert_eq!(ids(&s), vec!["t1", "t2", "t3"]);
}

#[test]
fn set_active_tab_unknown_fails() {
    let mut s = state_with_three_tabs();
    assert_eq!(
        s.set_active_tab("x".to_string(), 5),
        Err(StateError::TabNotFound { tab_id: "x".to_string() })
    );
    assert_eq!(s.active_tab_id.as_deref(), Some("t3"));
}

#[test]
fn reorder_tabs_moves_and_renumbers() {
    let mut s = state_with_three_tabs();
    assert_eq!(s.reorder_tabs(0, 2), Ok(()));
    assert_eq!(ids(&s), vec!["t2", "t3", "t1"]);
    assert_eq!(orders(&s), vec![0, 1, 2]);
}

#[test]
fn reorder_tabs_out_of_range_fails() {
    let mut s = state_with_three_tabs();
    assert_eq!(
        s.reorder_tabs(1, 3),
        Err(StateError::InvalidTabIndices { from: 1, to: 3, len: 3 })
    );
    assert_eq!(ids(&s), vec!["t1", "t2", "t3"]);
}

#[test]
fn update_tab_ui_state_replaces_given_values_only() {
    let mut s = state_with_three_tabs();
    s.update_tab_ui_state("t2".to_string(), Some("draft".to_string()), None, Some(true), None, None)
        .unwrap();
    s.update_tab_ui_state("t2".to_string(), None, None, None, Some(3), Some(true)).unwrap();
    let t = &s.open_tabs[1];
    assert_eq!(t.input.as_deref(), Some("draft"));
    assert_eq!(t.auto_mode, Some(true));
    assert_eq!(t.auto_chat_iteration, Some(3));
    assert_eq!(t.is_dirty, Some(true));
    assert!(s
        .update_tab_ui_state("zz".to_string(), None, None, None, None, None)
        .is_err());
}

#[test]
fn workspace_and_session_setters() {
    let mut s = AppState::new();
    s.set_last_selected_workspace("w1".to_string());
    s.set_default_workspace("d".to_string());
    s.set_active_session("s".to_string());
    assert_eq!(s.last_selected_workspace_id.as_deref(), Some("w1"));
    assert_eq!(s.default_workspace_id.as_deref(), Some("d"));
    assert_eq!(s.active_session_id.as_deref(), Some("s"));
    s.clear_last_selected_workspace();
    s.clear_active_session();
    assert!(s.last_selected_workspace_id.is_none());
    assert!(s.active_session_id.is_none());
}
