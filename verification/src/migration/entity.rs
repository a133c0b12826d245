//! The entities whose stored schema evolves, and the latest version of each.

use vstd::prelude::*;
use crate::version::Version;
use crate::session::Session;
use crate::persona::Persona;

verus! {

/// All entities that support schema migrations.
#[derive(Debug, Clone, Copy, PartialEq, Eq, Hash, Structural)]
#[non_exhaustive]
pub enum Entity {
    /// Session data (conversation history, state, ...).
    Session,
    /// Persona configuration (assistant profiles).
    PersonaConfig,
}

impl Entity {
    /// All entities that support migrations.
    pub fn all() -> (r: [Entity; 2])
        ensures
            r@ == seq![Entity::Session, Entity::PersonaConfig],
    {
        let r = [Entity::Session, Entity::PersonaConfig];
        proof {
            assert(r@ =~= seq![Entity::Session, Entity::PersonaConfig]);
        }
        r
    }

    /// The human-readable name of this entity.
    pub fn name(&self) -> (r: &'static str)
        ensures
            *self == Entity::Session ==> r@ == "Session"@,
            *self == Entity::PersonaConfig ==> r@ == "PersonaConfig"@,
            r@.len() > 0,
    {
        proof {
            reveal_strlit("Session");
            reveal_strlit("PersonaConfig");
        }
        match self {
            Entity::Session => "Session",
            Entity::PersonaConfig => "PersonaConfig",
        }
    }
}

/// Restricts `MigratedEntity` to the domain models of this crate.
pub trait Sealed {}

/// A domain model whose stored form is versioned.
pub trait MigratedEntity: Sealed {
    /// The entity identifier.
    fn entity() -> Entity;

    /// The latest schema version of the entity.
    fn latest_version() -> Version;
}

impl Sealed for Session {}

impl MigratedEntity for Session {
    fn entity() -> (r: Entity)
        ensures
            r == Entity::Session,
    {
        Entity::Session
    }

    /// Sessions are at schema 1.1.0.
    fn latest_version() -> (r: Version)
        ensures
            r == (Version { major: 1, minor: 1, patch: 0 }),
    {
        Version::new(1, 1, 0)
    }
}

impl Sealed for Persona {}

impl MigratedEntity for Persona {
    fn entity() -> (r: Entity)
        ensures
            r == Entity::PersonaConfig,
    {
        Entity::PersonaConfig
    }

    /// Persona configurations are at schema 2.0.0.
    fn latest_version() -> (r: Version)
        ensures
            r == (Version { major: 2, minor: 0, patch: 0 }),
    {
        Version::new(2, 0, 0)
    }
}

} // verus!
