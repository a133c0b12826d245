use orcs::migration::registry::{MigrationError, MigrationRegistry};
use orcs::migration::traits::{Migration, TypedMigration};
use orcs::version::Version;

// Mock migration for testing
#[derive(Debug)]
struct MockMigration {
    from: Version,
    to: Version,
    desc: &'static str,
}

impl Migration for MockMigration {
    fn from_version(&self) -> Version {
        self.from.clone()
    }

    fn to_version(&self) -> Version {
        self.to.clone()
    }

    fn description(&self) -> &str {
        self.desc
    }
}

impl TypedMigration<String, String> for MockMigration {
    fn migrate(&self, from: String) -> Result<String, String> {
        Ok(format!("{} -> {}", from, self.to.to_text()))
    }
}

// A step that always fails.
#[derive(Debug)]
struct FailingMigration {
    from: Version,
    to: Version,
}

impl Migration for FailingMigration {
    fn from_version(&self) -> Version {
        self.from
    }

    fn to_version(&self) -> Version {
        self.to
    }

    fn description(&self) -> &str {
        "fails"
    }
}

impl TypedMigration<String, String> for FailingMigration {
    fn migrate(&self, _from: String) -> Result<String, String> {
        Err("broken step".to_string())
    }
}

fn mock(from: &str, to: &str, desc: &'static str) -> MockMigration {
    MockMigration { from: Version::parse(from).unwrap(), to: Version::parse(to).unwrap(), desc }
}

#[test]
fn test_empty_registry() {
    let registry: MigrationRegistry<String, MockMigration> =
        MigrationRegistry::new(Version::parse("1.0.0").unwrap());
    assert!(registry.is_empty());
    assert_eq!(registry.len(), 0);
}

#[test]
fn test_register_single_migration() {
    let mut registry = MigrationRegistry::new(Version::parse("1.1.0").unwrap());
    registry.register(mock("1.0.0", "1.1.0", "Test migration"));

    assert_eq!(registry.len(), 1);
    assert_eq!(registry.start_version(), Some(Version::parse("1.0.0").unwrap()));
}

#[test]
fn test_migrate_through_all_steps() {
    let mut registry = MigrationRegistry::new(Version::parse("3.0.0").unwrap());

    registry.register_all(vec![mock("1.0.0", "2.0.0", "V1 to V2"), mock("2.0.0", "3.0.0", "V2 to V3")]);

    let result = registry
        .migrate_to_latest("start".to_string(), &Version::parse("1.0.0").unwrap())
        .unwrap();

    // Should pass through both migrations
    assert!(result.contains("2.0.0"));
    assert!(result.contains("3.0.0"));
}

#[test]
fn test_already_at_latest_version() {
    let registry: MigrationRegistry<String, MockMigration> =
        MigrationRegistry::new(Version::parse("1.0.0").unwrap());

    let result = registry
        .migrate_to_latest("data".to_string(), &Version::parse("1.0.0").unwrap())
        .unwrap();

    assert_eq!(result, "data");
}

#[test]
fn test_available_paths() {
    let mut registry = MigrationRegistry::new(Version::parse("2.0.0").unwrap());

    registry.register_all(vec![mock("1.0.0", "1.5.0", "Step 1"), mock("1.5.0", "2.0.0", "Step 2")]);

    let paths = registry.available_paths(&Version::parse("1.0.0").unwrap());

    assert_eq!(paths.len(), 1);
    assert_eq!(
        paths[0],
        vec![
            Version::parse("1.0.0").unwrap(),
            Version::parse("1.5.0").unwrap(),
            Version::parse("2.0.0").unwrap(),
        ]
    );
}

#[test]
fn migrating_from_the_middle_runs_only_the_rest_in_order() {
    let mut registry = MigrationRegistry::new(Version::new(3, 0, 0));
    registry.register_all(vec![mock("1.0.0", "2.0.0", "a"), mock("2.0.0", "3.0.0", "b")]);
    let result = registry.migrate_to_latest("x".to_string(), &Version::new(2, 0, 0)).unwrap();
    assert_eq!(result, "x -> 3.0.0");
    let all = registry.migrate_to_latest("x".to_string(), &Version::new(1, 0, 0)).unwrap();
    assert_eq!(all, "x -> 2.0.0 -> 3.0.0");
    assert_eq!(registry.available_paths(&Version::new(9, 9, 9)).len(), 0);
}

#[test]
fn newer_or_unknown_versions_are_refused() {
    let mut registry = MigrationRegistry::new(Version::new(2, 0, 0));
    registry.register(mock("1.0.0", "2.0.0", "a"));
    match registry.migrate_to_latest("x".to_string(), &Version::new(2, 1, 0)) {
        Err(MigrationError::NewerThanLatest { current, latest }) => {
            assert_eq!(current, Version::new(2, 1, 0));
            assert_eq!(latest, Version::new(2, 0, 0));
        }
        other => panic!("unexpected {:?}", other),
    }
    match registry.migrate_to_latest("x".to_string(), &Version::new(1, 5, 0)) {
        Err(MigrationError::NoMigrationFrom { current, available }) => {
            assert_eq!(current, Version::new(1, 5, 0));
            assert_eq!(available, vec![(Version::new(1, 0, 0), Version::new(2, 0, 0))]);
        }
        other => panic!("unexpected {:?}", other),
    }
}

#[test]
fn a_failing_step_is_reported_with_its_number() {
    let mut registry: MigrationRegistry<String, FailingMigration> = MigrationRegistry::new(Version::new(2, 0, 0));
    registry.register(FailingMigration { from: Version::new(1, 0, 0), to: Version::new(2, 0, 0) });
    match registry.migrate_to_latest("x".to_string(), &Version::new(1, 0, 0)) {
        Err(MigrationError::StepFailed { step, from, to, message }) => {
            assert_eq!(step, 1);
            assert_eq!(from, Version::new(1, 0, 0));
            assert_eq!(to, Version::new(2, 0, 0));
            assert_eq!(message, "broken step");
        }
        other => panic!("unexpected {:?}", other),
    }
}
