//! Schema migrations: linear chains of version steps per entity, and the
//! manager holding one chain for each migratable entity.

pub mod traits;

pub mod registry;
pub mod entity;
pub mod persona;
pub mod session;
pub mod manager;

use vstd::prelude::*;
use std::sync::Arc;
use crate::legacy_dto::{PersonaConfigV2, SessionV1};
use crate::persona::{Persona, PersonaRepository};
use crate::session::Session;
use crate::version::Version;
use self::entity::MigratedEntity;
use self::manager::MigrationManager;
use self::registry::MigrationRegistry;
use self::traits::TypedMigration;

verus! {

/// Builds the migration manager with a registry for every entity.
///
/// Both chains are empty: sessions (1.1.0) and persona configurations (2.0.0)
/// are at their latest schema, and the V0 → V1 and V1 → V2 steps change the
/// record type, so they run when a record is loaded rather than through a
/// registry. The persona repository is what a future session step resolving
/// persona names would use.
pub fn build_migration_manager<
    SM: TypedMigration<SessionV1, SessionV1>,
    PM: TypedMigration<PersonaConfigV2, PersonaConfigV2>,
>(_persona_repository: Arc<dyn PersonaRepository>) -> (r: Result<MigrationManager<SM, PM>, String>)
    ensures
        r matches Ok(m) && m.session_chain().chain().len() == 0 && m.session_chain().latest() == (
        Version { major: 1, minor: 1, patch: 0 }) && m.persona_chain().chain().len() == 0
            && m.persona_chain().latest() == (Version { major: 2, minor: 0, patch: 0 }),
{
    let session_registry = MigrationRegistry::<SessionV1, SM>::new(Session::latest_version());
    let persona_registry = MigrationRegistry::<PersonaConfigV2, PM>::new(Persona::latest_version());
    MigrationManager::builder().with_session_registry(session_registry).with_persona_registry(
        persona_registry,
    ).build()
}

} // verus!
