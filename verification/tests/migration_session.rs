use orcs::legacy_dto::{SessionV0, SessionV1};
use orcs::migration::session::{resolve_persona_key, SessionV0ToV1Migration};
use orcs::migration::traits::{Migration, TypedMigration};
use orcs::persona::{Persona, PersonaBackend, PersonaRepository, PersonaSource};
use orcs::session::{AppMode, ConversationMessage, MessageRole};
use std::sync::{Arc, Mutex};

// Mock PersonaRepository for testing
struct MockPersonaRepository {
    personas: Mutex<Vec<Persona>>,
}

impl MockPersonaRepository {
    fn new(personas: Vec<Persona>) -> Self {
        Self { personas: Mutex::new(personas) }
    }
}

impl PersonaRepository for MockPersonaRepository {
    fn get_all(&self) -> Result<Vec<Persona>, String> {
        Ok(self.personas.lock().unwrap().clone())
    }

    fn save_all(&self, _configs: &[Persona]) -> Result<(), String> {
        Ok(())
    }
}

struct FailingPersonaRepository;

impl PersonaRepository for FailingPersonaRepository {
    fn get_all(&self) -> Result<Vec<Persona>, String> {
        Err("disk unavailable".to_string())
    }

    fn save_all(&self, _configs: &[Persona]) -> Result<(), String> {
        Err("disk unavailable".to_string())
    }
}

fn persona(id: &str, name: &str, role: &str) -> Persona {
    Persona {
        id: id.to_string(),
        name: name.to_string(),
        role: role.to_string(),
        background: "".to_string(),
        communication_style: "".to_string(),
        default_participant: true,
        source: PersonaSource::System,
        backend: PersonaBackend::ClaudeCli,
        model_name: None,
        icon: None,
        base_color: None,
    }
}

fn create_test_personas() -> Vec<Persona> {
    vec![
        persona("8c6f3e4a-7b2d-5f1e-9a3c-4d8b6e2f1a5c", "Mai", "Engineer"),
        persona("2a9f5c3b-1e7d-5a4f-8b2c-6d3e9f1a7b4c", "Yui", "Architect"),
    ]
}

fn contains_key(h: &[(String, Vec<ConversationMessage>)], key: &str) -> bool {
    h.iter().any(|(k, _)| k == key)
}

#[test]
fn test_migrate_persona_histories_lowercase_keys() {
    let personas = create_test_personas();
    let repo = Arc::new(MockPersonaRepository::new(personas));
    let migration = SessionV0ToV1Migration::new(repo);

    let histories = vec![(
        "mai".to_string(),
        vec![ConversationMessage {
            role: MessageRole::User,
            content: "test".to_string(),
            timestamp: "2024-01-01T00:00:00Z".to_string(),
        }],
    )];

    let migrated = migration.migrate_persona_history_keys(histories).unwrap();

    // "mai" should be converted to Mai's UUID
    assert!(contains_key(&migrated, "8c6f3e4a-7b2d-5f1e-9a3c-4d8b6e2f1a5c"));
    assert!(!contains_key(&migrated, "mai"));
}

#[test]
fn test_migrate_v0_to_v1() {
    let personas = create_test_personas();
    let repo = Arc::new(MockPersonaRepository::new(personas));
    let migration = SessionV0ToV1Migration::new(repo);

    let v0 = SessionV0 {
        schema_version: "1.0.0".to_string(),
        id: "test-session".to_string(),
        name: "Test Session".to_string(),
        created_at: "2024-01-01T00:00:00Z".to_string(),
        updated_at: "2024-01-02T00:00:00Z".to_string(),
        current_persona_id: "mai".to_string(),
        persona_histories: Vec::new(),
        app_mode: AppMode::Idle,
    };

    let v1: SessionV1 = migration.migrate(v0).unwrap();

    assert_eq!(v1.title, "Test Session"); // name → title
    assert_eq!(v1.created_at, Some("2024-01-01T00:00:00Z".to_string()));
    // current_persona_id should be converted to UUID
    assert_eq!(v1.current_persona_id, "8c6f3e4a-7b2d-5f1e-9a3c-4d8b6e2f1a5c");
}

#[test]
fn test_preserve_existing_uuid_keys() {
    let personas = create_test_personas();
    let repo = Arc::new(MockPersonaRepository::new(personas));
    let migration = SessionV0ToV1Migration::new(repo);

    let uuid_key = "8c6f3e4a-7b2d-5f1e-9a3c-4d8b6e2f1a5c";
    let histories = vec![(uuid_key.to_string(), vec![])];

    let migrated = migration.migrate_persona_history_keys(histories).unwrap();

    // UUID keys should be preserved
    assert!(contains_key(&migrated, uuid_key));
}

#[test]
fn test_preserve_special_keys() {
    let personas = create_test_personas();
    let repo = Arc::new(MockPersonaRepository::new(personas));
    let migration = SessionV0ToV1Migration::new(repo);

    let histories = vec![("user".to_string(), vec![])];

    let migrated = migration.migrate_persona_history_keys(histories).unwrap();

    // Special keys like "user" should be preserved
    assert!(contains_key(&migrated, "user"));
}

#[test]
fn display_names_and_uppercase_keys_resolve_and_later_entries_win() {
    let repo = Arc::new(MockPersonaRepository::new(create_test_personas()));
    let migration = SessionV0ToV1Migration::new(repo);
    let msg = |c: &str| ConversationMessage {
        role: MessageRole::Assistant,
        content: c.to_string(),
        timestamp: "t".to_string(),
    };
    let histories = vec![
        ("Mai".to_string(), vec![msg("first")]),
        ("YUI".to_string(), vec![msg("yui")]),
        ("mai".to_string(), vec![msg("second")]),
    ];
    let migrated = migration.migrate_persona_history_keys(histories).unwrap();
    assert_eq!(migrated.len(), 2);
    let mai: Vec<_> = migrated
        .iter()
        .filter(|(k, _)| k == "8c6f3e4a-7b2d-5f1e-9a3c-4d8b6e2f1a5c")
        .collect();
    assert_eq!(mai.len(), 1);
    assert_eq!(mai[0].1[0].content, "second");
    assert!(contains_key(&migrated, "2a9f5c3b-1e7d-5a4f-8b2c-6d3e9f1a7b4c"));
}

#[test]
fn resolving_a_key_against_a_list() {
    let personas = create_test_personas();
    assert_eq!(
        resolve_persona_key("yui".to_string(), &personas),
        "2a9f5c3b-1e7d-5a4f-8b2c-6d3e9f1a7b4c"
    );
    assert_eq!(resolve_persona_key("nobody".to_string(), &personas), "nobody");
    let uuid = "00000000-0000-0000-0000-000000000000";
    assert_eq!(resolve_persona_key(uuid.to_string(), &personas), uuid);
}

#[test]
fn repository_failures_are_reported() {
    let migration = SessionV0ToV1Migration::new(Arc::new(FailingPersonaRepository));
    let err = migration.migrate_persona_history_keys(vec![]).unwrap_err();
    assert_eq!(err, "Failed to load personas for migration: disk unavailable");
    let v0 = SessionV0 {
        schema_version: "1.0.0".to_string(),
        id: "s1".to_string(),
        name: "n".to_string(),
        created_at: "c".to_string(),
        updated_at: "u".to_string(),
        current_persona_id: "mai".to_string(),
        persona_histories: Vec::new(),
        app_mode: AppMode::Idle,
    };
    let err = migration.migrate(v0).unwrap_err();
    assert_eq!(err, "Failed to migrate persona_histories for session s1");
}

#[test]
fn session_migration_versions() {
    let migration = SessionV0ToV1Migration::new(Arc::new(MockPersonaRepository::new(vec![])));
    assert_eq!(migration.from_version().to_text(), "1.0.0");
    assert_eq!(migration.to_version().to_text(), "1.1.0");
    assert!(migration.description().contains("title"));
}
