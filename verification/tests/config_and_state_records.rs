use orcs::app_state_dto::{AppStateV1_0, AppStateV1_4, AppStateV1_6, OpenTabDTO};
use orcs::config_root_dto::{
    default_root_config, migrate_v2_0_to_latest, ConfigRootV1_0_0, ConfigRootV2_0_0,
    ConfigRootV2_5_0,
};
use orcs::config_service::ConfigService;
use orcs::user_profile_dto::{UserProfileV1_0, UserProfileV1_1};

#[test]
fn oldest_app_state_migrates_to_latest_with_no_tabs() {
    let v = AppStateV1_0 { last_selected_workspace_id: Some("w".to_string()) };
    let latest: AppStateV1_6 = v.migrate().migrate().migrate().migrate().migrate().migrate();
    assert_eq!(latest.last_selected_workspace_id.as_deref(), Some("w"));
    assert!(latest.default_workspace_id.is_none());
    assert!(latest.active_session_id.is_none());
    assert!(latest.open_tabs.is_empty());
    let state = latest.into_domain();
    assert!(state.open_tabs.is_empty());
}

#[test]
fn tabs_gain_empty_ui_state_in_1_6() {
    let v = AppStateV1_4 {
        last_selected_workspace_id: None,
        default_workspace_id: None,
        active_session_id: Some("s".to_string()),
        open_tabs: vec![OpenTabDTO {
            id: "t".to_string(),
            session_id: "s".to_string(),
            workspace_id: "w".to_string(),
            last_accessed_at: 5,
            order: 0,
        }],
        active_tab_id: Some("t".to_string()),
    };
    let latest = v.migrate().migrate();
    assert_eq!(latest.open_tabs.len(), 1);
    assert_eq!(latest.open_tabs[0].id, "t");
    assert!(latest.open_tabs[0].input.is_none() && latest.open_tabs[0].is_dirty.is_none());
    let state = latest.into_domain();
    let back = AppStateV1_6::from_domain(state.clone());
    assert_eq!(back.open_tabs[0].last_accessed_at, 5);
    assert_eq!(back.active_tab_id.as_deref(), Some("t"));
}

#[test]
fn user_profile_gets_empty_background() {
    let p = UserProfileV1_0 { nickname: "Ann".to_string() }.migrate();
    assert_eq!(p.nickname, "Ann");
    assert_eq!(p.background, "");
    let d = p.into_domain();
    assert_eq!(d.nickname, "Ann");
}

#[test]
fn legacy_root_config_keeps_only_the_profile() {
    let v1 = ConfigRootV1_0_0 {
        personas: vec!["{\"name\":\"Mai\"}".to_string()],
        user_profile: None,
        workspaces: vec![],
    };
    let v11 = v1.migrate();
    assert!(v11.app_state.is_none());
    assert_eq!(v11.personas.len(), 1);
    let v2: ConfigRootV2_0_0 = v11.migrate();
    assert_eq!(v2.user_profile.nickname, "You");
    let latest = migrate_v2_0_to_latest(v2);
    assert!(latest.env_settings.auto_detect_tool_managers);
    assert_eq!(latest.memory_sync_settings.interval_secs, 60);
    assert_eq!(latest.debug_settings.log_level, "info");
    assert!(latest.terminal_settings.custom_app.is_none());
}

#[test]
fn root_config_defaults() {
    let c = default_root_config();
    assert_eq!(c.user_profile.nickname, "You");
    assert!(c.env_settings.auto_detect_tool_managers);
    assert!(!c.debug_settings.enable_llm_debug);
    assert_eq!(c.memory_sync_settings.interval_secs, 60);
    let d = ConfigRootV2_5_0::default().into_domain();
    assert_eq!(d.debug_settings.memory_sync_log_level, "info");
    let profile = UserProfileV1_1 { nickname: "B".to_string(), background: "bio".to_string() };
    let with_profile = migrate_v2_0_to_latest(ConfigRootV2_0_0 { user_profile: profile });
    assert_eq!(with_profile.user_profile.background, "bio");
}

#[test]
fn config_service_caches_loaded_or_default() {
    let mut svc = ConfigService::new();
    assert!(svc.get_config().is_none());
    let mut loaded = default_root_config();
    loaded.user_profile.nickname = "Zed".to_string();
    let got = svc.store_loaded(Ok(loaded));
    assert_eq!(got.user_profile.nickname, "Zed");
    assert_eq!(svc.get_config().unwrap().user_profile.nickname, "Zed");
    svc.invalidate_cache();
    assert!(svc.get_config().is_none());
    let fallback = svc.store_loaded(Err("unreadable".to_string()));
    assert_eq!(fallback.user_profile.nickname, "You");
}

#[test]
fn stored_configs_first_or_default_to_save() {
    let (c, save) = ConfigService::config_from_stored(vec![]);
    assert!(save);
    assert_eq!(c.user_profile.nickname, "You");
    let mut a = default_root_config();
    a.user_profile.nickname = "A".to_string();
    let mut b = default_root_config();
    b.user_profile.nickname = "B".to_string();
    let (c, save) = ConfigService::config_from_stored(vec![a, b]);
    assert!(!save);
    assert_eq!(c.user_profile.nickname, "A");
}
