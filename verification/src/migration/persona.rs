//! Persona configuration V1 (1.0.0) → V2 (2.0.0): string identifiers such as
//! "mai" become UUIDs. The new identifier is the version 5 UUID of the
//! persona's name, so the same name always gives the same identifier; an
//! identifier that already is a UUID is kept.

use vstd::prelude::*;
use crate::legacy_dto::{PersonaConfigV1, PersonaConfigV2, spec_persona_v1_to_v2};
use crate::uuid_text::{is_canonical_uuid, is_uuid_text, uuid_v5_oid_text};
use crate::version::Version;
use super::traits::{Migration, TypedMigration};

verus! {

/// Migration from PersonaConfigV1 (1.0.0) to PersonaConfigV2 (2.0.0).
#[derive(Debug, Clone, Copy)]
pub struct PersonaV1ToV2Migration;

impl PersonaV1ToV2Migration {
    /// The identifier a persona named `name` gets: the version 5 UUID of the
    /// name in the OID namespace.
    pub fn generate_uuid_from_name(name: &str) -> (r: String)
        ensures
            r@ == uuid_v5_oid_text(name@),
            is_canonical_uuid(r@),
            is_uuid_text(r@),
    {
        crate::uuid_text::generate_uuid_from_name(name)
    }
}

impl Migration for PersonaV1ToV2Migration {
    open spec fn spec_from_version(&self) -> Version {
        Version { major: 1, minor: 0, patch: 0 }
    }

    open spec fn spec_to_version(&self) -> Version {
        Version { major: 2, minor: 0, patch: 0 }
    }

    fn from_version(&self) -> (r: Version) {
        Version::new(1, 0, 0)
    }

    fn to_version(&self) -> (r: Version) {
        Version::new(2, 0, 0)
    }

    fn description(&self) -> (r: &str)
        ensures
            r@ == "Convert persona IDs from strings to UUIDs (name-based v5)"@,
    {
        proof {
            reveal_strlit("Convert persona IDs from strings to UUIDs (name-based v5)");
        }
        "Convert persona IDs from strings to UUIDs (name-based v5)"
    }
}

impl TypedMigration<PersonaConfigV1, PersonaConfigV2> for PersonaV1ToV2Migration {
    /// The step always succeeds, with the migrated record.
    open spec fn migrates(&self, from: PersonaConfigV1, result: Result<PersonaConfigV2, String>) -> bool {
        result matches Ok(v2) && spec_persona_v1_to_v2(from, v2) && is_uuid_text(v2.id@)
    }

    fn migrate(&self, from: PersonaConfigV1) -> (r: Result<PersonaConfigV2, String>) {
        Ok(from.migrate())
    }
}

/// Migrated identifiers do not depend on the identifier a record had unless
/// it was a UUID: two records with the same name and non-UUID identifiers get
/// the same identifier.
pub proof fn lemma_same_name_same_id(a: PersonaConfigV1, b: PersonaConfigV1, ra: PersonaConfigV2, rb: PersonaConfigV2)
    requires
        spec_persona_v1_to_v2(a, ra),
        spec_persona_v1_to_v2(b, rb),
        a.name@ == b.name@,
        !is_uuid_text(a.id@),
        !is_uuid_text(b.id@),
    ensures
        ra.id@ == rb.id@,
{
}

} // verus!
