//! The two faces of a migration step: its versions, and what it does to data.

use vstd::prelude::*;
use crate::version::Version;

verus! {

/// A migration step between two schema versions.
pub trait Migration {
    /// The version this step starts from. Steps defined outside this crate
    /// (which no proof here covers) leave it unspecified.
    closed spec fn spec_from_version(&self) -> Version {
        arbitrary()
    }

    /// The version this step produces; unspecified for steps defined outside
    /// this crate.
    closed spec fn spec_to_version(&self) -> Version {
        arbitrary()
    }

    /// Returns the source version this migration starts from.
    fn from_version(&self) -> (r: Version)
        ensures
            r == self.spec_from_version(),
    ;

    /// Returns the target version this migration produces.
    fn to_version(&self) -> (r: Version)
        ensures
            r == self.spec_to_version(),
    ;

    /// Whether this migration applies to data of the given version.
    fn can_migrate(&self, version: &Version) -> (r: bool)
        ensures
            r == (*version == self.spec_from_version()),
    {
        let from = self.from_version();
        *version == from
    }

    /// A human-readable description of this migration.
    fn description(&self) -> &str;
}

/// A migration step that transforms data of type `F` into data of type `T`.
pub trait TypedMigration<F, T>: Migration {
    /// What the step may give for `from`: the relation every outcome
    /// satisfies; unspecified for steps defined outside this crate.
    closed spec fn migrates(&self, from: F, result: Result<T, String>) -> bool {
        arbitrary()
    }

    /// Executes the migration, or describes why it could not be completed.
    fn migrate(&self, from: F) -> (r: Result<T, String>)
        ensures
            self.migrates(from, r),
    ;
}

} // verus!
