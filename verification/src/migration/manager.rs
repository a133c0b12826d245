//! The manager of all entity migrations: one registry per migratable entity,
//! built through a builder that refuses to finish while one is missing.

use vstd::prelude::*;
use crate::legacy_dto::{PersonaConfigV2, SessionV1};
use super::registry::MigrationRegistry;
use super::traits::TypedMigration;

verus! {

/// Holds the migration registry of each entity; `SM` and `PM` are the step
/// types of the session and persona chains.
pub struct MigrationManager<
    SM: TypedMigration<SessionV1, SessionV1>,
    PM: TypedMigration<PersonaConfigV2, PersonaConfigV2>,
> {
    session_registry: MigrationRegistry<SessionV1, SM>,
    persona_registry: MigrationRegistry<PersonaConfigV2, PM>,
}

/// Collects the registries of a `MigrationManager`.
pub struct MigrationManagerBuilder<
    SM: TypedMigration<SessionV1, SessionV1>,
    PM: TypedMigration<PersonaConfigV2, PersonaConfigV2>,
> {
    session_registry: Option<MigrationRegistry<SessionV1, SM>>,
    persona_registry: Option<MigrationRegistry<PersonaConfigV2, PM>>,
}

impl<
    SM: TypedMigration<SessionV1, SessionV1>,
    PM: TypedMigration<PersonaConfigV2, PersonaConfigV2>,
> MigrationManager<SM, PM> {
    /// The session registry held.
    pub closed spec fn session_chain(&self) -> MigrationRegistry<SessionV1, SM> {
        self.session_registry
    }

    /// The persona registry held.
    pub closed spec fn persona_chain(&self) -> MigrationRegistry<PersonaConfigV2, PM> {
        self.persona_registry
    }

    /// A builder with no registry set.
    pub fn builder() -> (r: MigrationManagerBuilder<SM, PM>)
        ensures
            r.pending_session() is None,
            r.pending_persona() is None,
    {
        MigrationManagerBuilder::new()
    }

    /// The migration registry of sessions.
    pub fn session_registry(&self) -> (r: &MigrationRegistry<SessionV1, SM>)
        ensures
            *r == self.session_chain(),
    {
        &self.session_registry
    }

    /// The migration registry of persona configurations.
    pub fn persona_registry(&self) -> (r: &MigrationRegistry<PersonaConfigV2, PM>)
        ensures
            *r == self.persona_chain(),
    {
        &self.persona_registry
    }

    /// Checks that every entity has a registry. The manager holds one for
    /// each entity by construction, so this always succeeds; an empty registry
    /// only means that the entity is at its latest schema.
    pub fn validate(&self) -> (r: Result<(), String>)
        ensures
            r is Ok,
    {
        Ok(())
    }
}

impl<
    SM: TypedMigration<SessionV1, SessionV1>,
    PM: TypedMigration<PersonaConfigV2, PersonaConfigV2>,
> MigrationManagerBuilder<SM, PM> {
    /// The session registry set so far.
    pub closed spec fn pending_session(&self) -> Option<MigrationRegistry<SessionV1, SM>> {
        self.session_registry
    }

    /// The persona registry set so far.
    pub closed spec fn pending_persona(&self) -> Option<MigrationRegistry<PersonaConfigV2, PM>> {
        self.persona_registry
    }

    /// A builder with no registry set.
    pub fn new() -> (r: Self)
        ensures
            r.pending_session() is None,
            r.pending_persona() is None,
    {
        MigrationManagerBuilder { session_registry: None, persona_registry: None }
    }

    /// Sets the session registry.
    pub fn with_session_registry(self, registry: MigrationRegistry<SessionV1, SM>) -> (r: Self)
        ensures
            r.pending_session() == Some(registry),
            r.pending_persona() == self.pending_persona(),
    {
        MigrationManagerBuilder { session_registry: Some(registry), persona_registry: self.persona_registry }
    }

    /// Sets the persona registry.
    pub fn with_persona_registry(self, registry: MigrationRegistry<PersonaConfigV2, PM>) -> (r: Self)
        ensures
            r.pending_session() == self.pending_session(),
            r.pending_persona() == Some(registry),
    {
        MigrationManagerBuilder { session_registry: self.session_registry, persona_registry: Some(registry) }
    }

    /// Builds the manager; fails, naming the first missing registry (session
    /// first), when a registry was not set.
    pub fn build(self) -> (r: Result<MigrationManager<SM, PM>, String>)
        ensures
            self.pending_session() is None ==> (r matches Err(m) && m@
                == "Session migration registry not set"@),
            self.pending_session() is Some && self.pending_persona() is None ==> (r matches Err(m)
                && m@ == "PersonaConfig migration registry not set"@),
            self.pending_session() is Some && self.pending_persona() is Some ==> (r matches Ok(mgr)
                && Some(mgr.session_chain()) == self.pending_session() && Some(mgr.persona_chain())
                == self.pending_persona()),
    {
        let session_registry = match self.session_registry {
            Some(s) => s,
            None => {
                return Err(String::from_str("Session migration registry not set"));
            },
        };
        let persona_registry = match self.persona_registry {
            Some(p) => p,
            None => {
                return Err(String::from_str("PersonaConfig migration registry not set"));
            },
        };
        Ok(MigrationManager { session_registry, persona_registry })
    }
}

impl<
    SM: TypedMigration<SessionV1, SessionV1>,
    PM: TypedMigration<PersonaConfigV2, PersonaConfigV2>,
> Default for MigrationManagerBuilder<SM, PM> {
    fn default() -> (r: Self)
        ensures
            r.pending_session() is None,
            r.pending_persona() is None,
    {
        Self::new()
    }
}

} // verus!
