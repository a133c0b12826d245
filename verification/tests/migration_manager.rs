use orcs::legacy_dto::{PersonaConfigV2, SessionV1};
use orcs::migration::build_migration_manager;
use orcs::migration::entity::{Entity, MigratedEntity};
use orcs::migration::manager::{MigrationManager, MigrationManagerBuilder};
use orcs::migration::registry::MigrationRegistry;
use orcs::migration::traits::{Migration, TypedMigration};
use orcs::persona::{Persona, PersonaBackend, PersonaRepository, PersonaSource};
use orcs::session::Session;
use orcs::version::Version;
use std::sync::{Arc, Mutex};

// A step type for chains that have no step yet.
#[derive(Debug)]
struct Step;

impl Migration for Step {
    fn from_version(&self) -> Version {
        Version::new(0, 0, 0)
    }
    fn to_version(&self) -> Version {
        Version::new(0, 0, 0)
    }
    fn description(&self) -> &str {
        "unused"
    }
}

impl TypedMigration<SessionV1, SessionV1> for Step {
    fn migrate(&self, from: SessionV1) -> Result<SessionV1, String> {
        Ok(from)
    }
}

impl TypedMigration<PersonaConfigV2, PersonaConfigV2> for Step {
    fn migrate(&self, from: PersonaConfigV2) -> Result<PersonaConfigV2, String> {
        Ok(from)
    }
}

type Builder = MigrationManagerBuilder<Step, Step>;

#[test]
fn test_builder_requires_all_registries() {
    // Only Session registry set - should fail
    let result = Builder::new()
        .with_session_registry(MigrationRegistry::new(Version::parse("1.1.0").unwrap()))
        .build();

    assert!(result.is_err());
    let err_msg = result.err().unwrap();
    assert!(err_msg.contains("PersonaConfig"), "Error should mention missing PersonaConfig registry");
}

#[test]
fn test_builder_success_with_all_registries() {
    let result = Builder::new()
        .with_session_registry(MigrationRegistry::new(Version::parse("1.1.0").unwrap()))
        .with_persona_registry(MigrationRegistry::new(Version::parse("2.0.0").unwrap()))
        .build();

    assert!(result.is_ok());
}

#[test]
fn test_validate_checks_all_entities() {
    let manager = Builder::new()
        .with_session_registry(MigrationRegistry::new(Version::parse("1.1.0").unwrap()))
        .with_persona_registry(MigrationRegistry::new(Version::parse("2.0.0").unwrap()))
        .build()
        .unwrap();

    // Validation should succeed even with empty registries
    assert!(manager.validate().is_ok());
}

#[test]
fn test_entity_all_matches_manager_fields() {
    let all_entities = Entity::all();
    assert!(all_entities.len() >= 2, "Expected at least 2 entities in Entity::all()");

    let manager = Builder::new()
        .with_session_registry(MigrationRegistry::new(Version::parse("1.1.0").unwrap()))
        .with_persona_registry(MigrationRegistry::new(Version::parse("2.0.0").unwrap()))
        .build()
        .unwrap();

    manager.validate().unwrap();
}

#[test]
fn builder_without_any_registry_names_the_session_registry() {
    let err = Builder::new().build().err().unwrap();
    assert_eq!(err, "Session migration registry not set");
}

#[test]
fn test_all_entities_have_names() {
    for entity in Entity::all() {
        let name = entity.name();
        assert!(!name.is_empty(), "Entity {:?} has no name", entity);
    }
    assert_eq!(Entity::Session.name(), "Session");
    assert_eq!(Entity::PersonaConfig.name(), "PersonaConfig");
}

#[test]
fn test_entity_count() {
    let all_count = Entity::all().len();
    assert!(all_count >= 2, "Expected at least 2 entities (Session, PersonaConfig), got {}", all_count);
}

#[test]
fn test_migrated_entity_versions_are_valid() {
    let session_version = Session::latest_version();
    assert!(session_version.major >= 1);

    let persona_version = Persona::latest_version();
    assert!(persona_version.major >= 1);
    assert_eq!(Session::entity(), Entity::Session);
    assert_eq!(Persona::entity(), Entity::PersonaConfig);
}

// Mock PersonaRepository for testing
struct MockPersonaRepository {
    personas: Mutex<Vec<Persona>>,
}

impl MockPersonaRepository {
    fn new() -> Self {
        Self {
            personas: Mutex::new(vec![Persona {
                id: "8c6f3e4a-7b2d-5f1e-9a3c-4d8b6e2f1a5c".to_string(),
                name: "Mai".to_string(),
                role: "Engineer".to_string(),
                background: "".to_string(),
                communication_style: "".to_string(),
                default_participant: true,
                source: PersonaSource::System,
                backend: PersonaBackend::ClaudeCli,
                model_name: None,
                icon: None,
                base_color: None,
            }]),
        }
    }
}

impl PersonaRepository for MockPersonaRepository {
    fn get_all(&self) -> Result<Vec<Persona>, String> {
        Ok(self.personas.lock().unwrap().clone())
    }

    fn save_all(&self, _configs: &[Persona]) -> Result<(), String> {
        Ok(())
    }
}

#[test]
fn test_build_migration_manager() {
    let repo = Arc::new(MockPersonaRepository::new());
    let result: Result<MigrationManager<Step, Step>, String> = build_migration_manager(repo);

    assert!(result.is_ok(), "Failed to build migration manager");

    let manager = result.unwrap();
    assert!(manager.session_registry().is_empty());
    assert!(manager.persona_registry().is_empty());
}

#[test]
fn test_all_entities_have_registries() {
    let repo = Arc::new(MockPersonaRepository::new());
    let manager: MigrationManager<Step, Step> = build_migration_manager(repo).unwrap();

    for entity in Entity::all() {
        match entity {
            Entity::Session => {
                let _ = manager.session_registry();
            }
            Entity::PersonaConfig => {
                let _ = manager.persona_registry();
            }
            _ => unreachable!(),
        }
    }
}
