use orcs::uploaded_file_dto::{migrate_uploaded_file_to_latest, UploadedFileV1_0_0};
use orcs::workspace::WorkspaceMetadata;
use orcs::workspace_dto::{ProjectContextV1, TempFileV1, WorkspaceResourcesV1, WorkspaceV1};
use std::collections::HashMap;

fn file() -> UploadedFileV1_0_0 {
    UploadedFileV1_0_0 {
        id: "f1".to_string(),
        name: "notes.md".to_string(),
        path: "/ws/files/notes.md".to_string(),
        mime_type: "text/markdown".to_string(),
        size: 42,
        uploaded_at: 1700000000,
    }
}

#[test]
fn old_uploaded_files_get_defaults() {
    let f = migrate_uploaded_file_to_latest(file());
    assert_eq!(f.name, "notes.md");
    assert_eq!(f.size, 42);
    assert!(f.session_id.is_none() && f.message_timestamp.is_none() && f.author.is_none());
    assert!(!f.is_archived && !f.is_favorite && f.sort_order.is_none());
}

fn workspace() -> WorkspaceV1 {
    let mut metadata = HashMap::new();
    metadata.insert("team".to_string(), "core".to_string());
    WorkspaceV1 {
        id: "ws".to_string(),
        name: "Project".to_string(),
        root_path: "/src/project".to_string(),
        resources: WorkspaceResourcesV1 {
            uploaded_files: vec![migrate_uploaded_file_to_latest(file())],
            temp_files: vec![TempFileV1 {
                id: "t".to_string(),
                path: "/tmp/x".to_string(),
                purpose: "scratch".to_string(),
                created_at: 1,
                auto_delete: true,
            }],
        },
        project_context: ProjectContextV1 {
            languages: vec!["rust".to_string()],
            build_system: Some("cargo".to_string()),
            description: None,
            repository_url: None,
            metadata,
        },
    }
}

#[test]
fn oldest_workspace_reads_with_defaults() {
    let w = workspace().into_domain();
    assert_eq!(w.id, "ws");
    assert_eq!(w.workspace_dir, "");
    assert_eq!(w.last_accessed, 0);
    assert!(!w.is_favorite);
    assert!(w.last_active_session_id.is_none());
    assert_eq!(w.resources.uploaded_files.len(), 1);
    assert_eq!(w.resources.temp_files[0].purpose, "scratch");
    assert_eq!(w.project_context.build_system.as_deref(), Some("cargo"));
    assert_eq!(w.project_context.metadata.get("team").map(|s| s.as_str()), Some("core"));
}

#[test]
fn workspace_migrations_add_access_favorite_and_session() {
    let v13 = workspace().migrate().migrate().migrate();
    assert_eq!(v13.last_accessed, 0);
    assert!(!v13.is_favorite);
    assert!(v13.last_active_session_id.is_none());
    let w = v13.into_domain();
    assert_eq!(w.name, "Project");
}

#[test]
fn metadata_read_and_applied() {
    let mut w = workspace().into_domain();
    let m = WorkspaceMetadata {
        id: "ws".to_string(),
        name: "Renamed".to_string(),
        root_path: "/src/project".to_string(),
        last_accessed: 99,
        is_favorite: true,
    };
    m.apply_to_workspace(&mut w);
    assert_eq!(w.name, "Renamed");
    assert_eq!(w.last_accessed, 99);
    assert_eq!(w.resources.temp_files.len(), 1);
    assert_eq!(WorkspaceMetadata::from_workspace(&w), m);
}

fn meta(id: &str, last_accessed: i64) -> orcs::workspace::WorkspaceMetadata {
    orcs::workspace::WorkspaceMetadata {
        id: id.to_string(),
        name: id.to_string(),
        root_path: format!("/p/{}", id),
        last_accessed,
        is_favorite: false,
    }
}

#[test]
fn metadata_is_listed_most_recently_accessed_first() {
    let sorted = orcs::workspace::sort_metadata_most_recent_first(vec![
        meta("a", 1000),
        meta("b", 3000),
        meta("c", 2000),
        meta("d", 3000),
    ]);
    let ids: Vec<&str> = sorted.iter().map(|m| m.id.as_str()).collect();
    assert_eq!(ids, vec!["b", "d", "c", "a"]);
    assert!(orcs::workspace::sort_metadata_most_recent_first(vec![]).is_empty());
}

#[test]
fn old_workspace_records_read_as_the_latest() {
    let v1 = WorkspaceV1 {
        id: "w1".to_string(),
        name: "proj".to_string(),
        root_path: "/p".to_string(),
        resources: WorkspaceResourcesV1 { uploaded_files: vec![], temp_files: vec![] },
        project_context: ProjectContextV1 {
            languages: vec!["rust".to_string()],
            build_system: None,
            description: None,
            repository_url: None,
            metadata: HashMap::new(),
        },
    };
    let r = orcs::workspace_dto::migrate_workspace_to_latest(orcs::workspace_dto::WorkspaceRecord::V1(v1));
    assert_eq!(r.id, "w1");
    assert_eq!(r.last_accessed, 0);
    assert!(!r.is_favorite);
    assert!(r.last_active_session_id.is_none());
    assert_eq!(r.project_context.languages, vec!["rust".to_string()]);
}
