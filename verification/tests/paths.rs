use orcs::paths::{OrcsPaths, PathError, PathType, ServiceType};

#[test]
fn test_config_dir() {
    let orcs_paths = OrcsPaths::new(None);
    let config_dir = orcs_paths.config_dir().unwrap();
    assert!(config_dir.contains("com.orcs-app"));
    // Linux: ~/.config/com.orcs-app; macOS: ~/Library/Preferences/com.orcs-app;
    // Windows: a path under the roaming application data directory.
    assert!(
        config_dir.contains(".config")
            || config_dir.contains("Library/Preferences")
            || config_dir.contains('\\')
    );
}

#[test]
fn test_data_dir() {
    let orcs_paths = OrcsPaths::new(None);
    let data_dir = orcs_paths.data_dir().unwrap();
    assert!(data_dir.ends_with(OrcsPaths::APP_PATH));
}

#[test]
fn test_secret_dir() {
    let orcs_paths = OrcsPaths::new(None);
    let secret_dir = orcs_paths.secret_dir().unwrap();
    let config_dir = orcs_paths.config_dir().unwrap();
    assert_eq!(secret_dir, config_dir);
}

#[test]
fn test_storage_dir() {
    let orcs_paths = OrcsPaths::new(None);
    let storage_dir = orcs_paths.storage_dir().unwrap();
    assert!(storage_dir.ends_with("files"));
    let orcs_paths2 = OrcsPaths::new(None);
    let data_dir = orcs_paths2.data_dir().unwrap();
    assert!(storage_dir.starts_with(&data_dir));
}

#[test]
fn test_default_user_workspace_path_custom_base() {
    let custom_base = "/tmp/test_orcs";
    let orcs_paths = OrcsPaths::new(Some(custom_base));
    let workspace_path = orcs_paths.default_user_workspace_path().unwrap();
    assert_eq!(workspace_path, "/tmp/test_orcs/user_workspace");
}

#[test]
fn custom_base_directories() {
    let p = OrcsPaths::new(Some("/tmp/orcs_base"));
    assert_eq!(p.config_dir().unwrap(), "/tmp/orcs_base/config");
    assert_eq!(p.secret_dir().unwrap(), "/tmp/orcs_base/config");
    assert_eq!(p.data_dir().unwrap(), "/tmp/orcs_base/data");
    assert_eq!(p.storage_dir().unwrap(), "/tmp/orcs_base/data/files");
}

#[test]
fn custom_base_get_path_returns_base() {
    let p = OrcsPaths::new(Some("/nonexistent/orcs_dir"));
    assert_eq!(
        p.get_path(ServiceType::Session).unwrap(),
        PathType::Dir("/nonexistent/orcs_dir".to_string())
    );
}

#[test]
fn service_paths() {
    let f = orcs::paths::service_path_in(ServiceType::AppState, "/c");
    assert_eq!(f, PathType::File("/c/app_state.json".to_string()));
    assert!(f.is_file() && !f.is_dir());
    let d = orcs::paths::service_path_in(ServiceType::DialoguePreset, "/d");
    assert_eq!(d.as_path_buf(), "/d/dialogue_presets");
    assert!(d.is_dir());
    assert_eq!(d.into_path_buf(), "/d/dialogue_presets");
    let got = OrcsPaths::new(None).get_path(ServiceType::Config).unwrap();
    assert!(got.is_file());
    assert!(got.as_path_buf().ends_with("com.orcs-app/config.toml"));
    let sess = OrcsPaths::new(None).get_path(ServiceType::Session).unwrap();
    assert!(sess.as_path_buf().ends_with("orcs/sessions"));
}

#[test]
fn path_error_message() {
    assert_eq!(PathError::HomeDirNotFound.message(), "Cannot find home directory");
}

#[test]
fn test_default_user_workspace_path_production() {
    let orcs_paths = OrcsPaths::new(None);
    let workspace_path = orcs_paths.default_user_workspace_path().unwrap();

    // Should end with "orcs"
    assert!(workspace_path.ends_with("orcs"));

    // Should be under home directory
    if let Some(home) = dirs::home_dir() {
        let home = home.to_string_lossy().to_string();
        assert!(workspace_path.starts_with(&home));
        assert_eq!(
            workspace_path,
            std::path::Path::new(&home).join("orcs").to_string_lossy().to_string()
        );
    }
}

#[test]
fn custom_base_is_a_file_or_a_directory_as_the_disk_says() {
    assert_eq!(orcs::paths::path_type_at("/b".to_string(), true), PathType::File("/b".to_string()));
    assert_eq!(orcs::paths::path_type_at("/b".to_string(), false), PathType::Dir("/b".to_string()));
}
