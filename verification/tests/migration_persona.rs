use orcs::legacy_dto::{
    persona_from_v1, PersonaConfigV1, PersonaConfigV2, PersonaSourceDTO, PERSONA_CONFIG_V1_VERSION,
    PERSONA_CONFIG_V2_VERSION,
};
use orcs::migration::persona::PersonaV1ToV2Migration;
use orcs::migration::traits::{Migration, TypedMigration};
use orcs::persona::{PersonaBackend, PersonaSource};
use orcs::uuid_text::is_valid_uuid;

#[test]
fn test_v1_to_v2_with_non_uuid_id() {
    let v1 = PersonaConfigV1 {
        schema_version: PERSONA_CONFIG_V1_VERSION.to_string(),
        id: "mai".to_string(),
        name: "Mai".to_string(),
        role: "Engineer".to_string(),
        background: "Background".to_string(),
        communication_style: "Friendly".to_string(),
        default_participant: true,
        source: PersonaSourceDTO::System,
    };

    let migration = PersonaV1ToV2Migration;
    let v2 = migration.migrate(v1).unwrap();

    // ID should be converted to UUID
    assert!(is_valid_uuid(&v2.id), "ID should be a valid UUID, got: {}", v2.id);
    assert_ne!(v2.id, "mai", "ID should not be 'mai' anymore");
    assert_eq!(v2.schema_version, PERSONA_CONFIG_V2_VERSION);
    assert_eq!(v2.name, "Mai");
}

#[test]
fn test_v1_to_v2_with_existing_uuid() {
    let existing_uuid = "8c6f3e4a-7b2d-5f1e-9a3c-4d8b6e2f1a5c";

    let v1 = PersonaConfigV1 {
        schema_version: PERSONA_CONFIG_V1_VERSION.to_string(),
        id: existing_uuid.to_string(),
        name: "Mai".to_string(),
        role: "Engineer".to_string(),
        background: "Background".to_string(),
        communication_style: "Friendly".to_string(),
        default_participant: true,
        source: PersonaSourceDTO::System,
    };

    let migration = PersonaV1ToV2Migration;
    let v2 = migration.migrate(v1).unwrap();

    // UUID should be preserved
    assert_eq!(v2.id, existing_uuid, "UUID should be preserved");
    assert_eq!(v2.schema_version, PERSONA_CONFIG_V2_VERSION);
}

#[test]
fn test_v1_to_domain_model_converts_uuid() {
    let v1 = PersonaConfigV1 {
        schema_version: PERSONA_CONFIG_V1_VERSION.to_string(),
        id: "yui".to_string(),
        name: "Yui".to_string(),
        role: "Architect".to_string(),
        background: "Background".to_string(),
        communication_style: "Professional".to_string(),
        default_participant: true,
        source: PersonaSourceDTO::System,
    };

    let persona = persona_from_v1(v1);

    // ID should be converted to UUID
    assert!(is_valid_uuid(&persona.id), "ID should be a valid UUID, got: {}", persona.id);
    assert_ne!(persona.id, "yui", "ID should not be 'yui' anymore");
    assert_eq!(persona.name, "Yui");
}

#[test]
fn test_deterministic_uuid_generation() {
    // Same name should always generate the same UUID
    let uuid1 = PersonaV1ToV2Migration::generate_uuid_from_name("TestPersona");
    let uuid2 = PersonaV1ToV2Migration::generate_uuid_from_name("TestPersona");

    assert_eq!(uuid1, uuid2, "UUID generation should be deterministic");
    assert!(is_valid_uuid(&uuid1));
}

#[test]
fn test_different_names_different_uuids() {
    let uuid_mai = PersonaV1ToV2Migration::generate_uuid_from_name("Mai");
    let uuid_yui = PersonaV1ToV2Migration::generate_uuid_from_name("Yui");

    assert_ne!(uuid_mai, uuid_yui, "Different names should produce different UUIDs");
}

#[test]
fn test_v2_dto_to_domain_model() {
    let v2 = PersonaConfigV2 {
        schema_version: PERSONA_CONFIG_V2_VERSION.to_string(),
        id: "8c6f3e4a-7b2d-5f1e-9a3c-4d8b6e2f1a5c".to_string(),
        name: "Mai".to_string(),
        role: "Engineer".to_string(),
        background: "Background".to_string(),
        communication_style: "Friendly".to_string(),
        default_participant: true,
        source: PersonaSourceDTO::System,
    };

    let persona = v2.into_domain();

    assert_eq!(persona.id, "8c6f3e4a-7b2d-5f1e-9a3c-4d8b6e2f1a5c");
    assert_eq!(persona.name, "Mai");
}

#[test]
fn generated_uuid_is_the_v5_oid_uuid_of_the_name() {
    // The version 5 UUID of "Mai" in the OID namespace, lowercase and hyphenated.
    let id = PersonaV1ToV2Migration::generate_uuid_from_name("Mai");
    assert_eq!(id.len(), 36);
    assert_eq!(&id[14..15], "5");
    assert_eq!(id, id.to_lowercase());
    assert_ne!(id, "Mai");
}

#[test]
fn v2_record_with_legacy_id_is_read_with_a_name_based_uuid() {
    let v2 = PersonaConfigV2 {
        schema_version: PERSONA_CONFIG_V2_VERSION.to_string(),
        id: "mai".to_string(),
        name: "Mai".to_string(),
        role: "Engineer".to_string(),
        background: String::new(),
        communication_style: String::new(),
        default_participant: false,
        source: PersonaSourceDTO::User,
    };
    let persona = v2.into_domain();
    assert_eq!(persona.id, PersonaV1ToV2Migration::generate_uuid_from_name("Mai"));
    assert_eq!(persona.source, PersonaSource::User);
    assert_eq!(persona.backend, PersonaBackend::ClaudeCli);
    assert!(persona.model_name.is_none() && persona.icon.is_none() && persona.base_color.is_none());
}

#[test]
fn persona_migration_versions_and_description() {
    let m = PersonaV1ToV2Migration;
    assert_eq!(m.from_version().to_text(), "1.0.0");
    assert_eq!(m.to_version().to_text(), "2.0.0");
    assert!(m.can_migrate(&orcs::version::Version::new(1, 0, 0)));
    assert!(!m.can_migrate(&orcs::version::Version::new(2, 0, 0)));
    assert!(!m.description().is_empty());
}

#[test]
fn persona_records_round_trip_through_the_domain() {
    let v2 = PersonaConfigV2 {
        schema_version: PERSONA_CONFIG_V2_VERSION.to_string(),
        id: "2a9f5c3b-1e7d-5a4f-8b2c-6d3e9f1a7b4c".to_string(),
        name: "Yui".to_string(),
        role: "Architect".to_string(),
        background: "b".to_string(),
        communication_style: "c".to_string(),
        default_participant: true,
        source: PersonaSourceDTO::System,
    };
    let persona = v2.clone().into_domain();
    let back = PersonaConfigV2::from_persona(&persona);
    assert_eq!(back.id, v2.id);
    assert_eq!(back.name, v2.name);
    assert_eq!(back.source, v2.source);
    assert_eq!(back.schema_version, "2.0.0");
    let v1 = PersonaConfigV1::from_persona(&persona);
    assert_eq!(v1.schema_version, "1.0.0");
    assert_eq!(v1.id, v2.id);
}
