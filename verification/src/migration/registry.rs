//! A linear chain of migrations: `V1.0.0 → V1.1.0 → V2.0.0 → …`.
//!
//! Each registered step starts where the previous one ends, and no step goes
//! past the registry's latest version. Data is migrated through every step
//! from its own version onwards, none skipped.

use vstd::prelude::*;
use std::marker::PhantomData;
use crate::version::{Version, version_lt};
use super::traits::{Migration, TypedMigration};

verus! {

/// Why data could not be brought to the latest version.
#[derive(Debug, Clone)]
pub enum MigrationError {
    /// The data is newer than the latest version the registry knows.
    NewerThanLatest { current: Version, latest: Version },
    /// No step starts from the data's version; `available` lists every step
    /// as (from, to).
    NoMigrationFrom { current: Version, available: Vec<(Version, Version)> },
    /// Step number `step` (counted from 1 at the data's version) failed.
    StepFailed { step: usize, from: Version, to: Version, message: String },
}

/// Registry of a linear chain of migrations of type `M` for data of type `T`.
#[verifier::reject_recursive_types(T)]
pub struct MigrationRegistry<T, M: TypedMigration<T, T>> {
    /// Migrations in order, forming a linear chain.
    migrations: Vec<M>,
    /// The latest version this registry can migrate to.
    latest_version: Version,
    data: PhantomData<T>,
}

/// Step `k` of a run starting at `start`: migration `start + k` turns the
/// `k`-th value of the trace into the next one.
pub open spec fn step_ok<T, M: TypedMigration<T, T>>(
    migs: Seq<M>,
    start: int,
    trace: Seq<T>,
    k: int,
) -> bool {
    migs[start + k].migrates(trace[k], Ok(trace[k + 1]))
}

/// `trace` is the sequence of values data takes while the migrations from
/// index `start` on are applied to it one after another.
pub open spec fn is_run<T, M: TypedMigration<T, T>>(migs: Seq<M>, start: int, trace: Seq<T>) -> bool {
    &&& trace.len() >= 1
    &&& 0 <= start
    &&& start + trace.len() - 1 <= migs.len()
    &&& forall|k: int| 0 <= k < trace.len() - 1 ==> #[trigger] step_ok(migs, start, trace, k)
}

/// `i` is the first migration starting from version `v`.
pub open spec fn is_first_from<T, M: TypedMigration<T, T>>(migs: Seq<M>, v: Version, i: int) -> bool {
    &&& 0 <= i < migs.len()
    &&& migs[i].spec_from_version() == v
    &&& forall|j: int| 0 <= j < i ==> (#[trigger] migs[j]).spec_from_version() != v
}

/// Some migration starts from version `v`.
pub open spec fn has_from<T, M: TypedMigration<T, T>>(migs: Seq<M>, v: Version) -> bool {
    exists|i: int| 0 <= i < migs.len() && (#[trigger] migs[i]).spec_from_version() == v
}

/// The steps form a chain after `prev` (the end of what precedes them, if
/// anything does) and none goes past `latest`.
pub open spec fn chains_after<T, M: TypedMigration<T, T>>(
    prev: Option<Version>,
    ms: Seq<M>,
    latest: Version,
) -> bool {
    &&& forall|i: int| 0 <= i < ms.len() ==> !version_lt(latest, (#[trigger] ms[i]).spec_to_version())
    &&& forall|i: int|
        1 <= i < ms.len() ==> (#[trigger] ms[i]).spec_from_version() == ms[i - 1].spec_to_version()
    &&& (ms.len() > 0 && prev is Some) ==> ms[0].spec_from_version() == prev->0
}

/// The (from, to) pairs of a list of migrations.
pub open spec fn version_pairs<T, M: TypedMigration<T, T>>(ms: Seq<M>) -> Seq<(Version, Version)> {
    ms.map_values(|m: M| (m.spec_from_version(), m.spec_to_version()))
}

impl<T, M: TypedMigration<T, T>> MigrationRegistry<T, M> {
    /// The registered migrations, in order.
    pub closed spec fn chain(&self) -> Seq<M> {
        self.migrations@
    }

    /// The latest version of the registry.
    pub closed spec fn latest(&self) -> Version {
        self.latest_version
    }

    /// The chain is continuous and never passes the latest version.
    pub open spec fn is_continuous(&self) -> bool {
        chains_after(None, self.chain(), self.latest())
    }

    /// The end version of the last registered migration, if any.
    pub open spec fn chain_end(&self) -> Option<Version> {
        if self.chain().len() == 0 {
            None
        } else {
            Some(self.chain().last().spec_to_version())
        }
    }

    /// Creates an empty registry migrating to `latest_version`.
    pub fn new(latest_version: Version) -> (r: Self)
        ensures
            r.chain().len() == 0,
            r.latest() == latest_version,
            r.is_continuous(),
    {
        MigrationRegistry { migrations: Vec::new(), latest_version, data: PhantomData }
    }

    /// Registers one migration at the end of the chain.
    ///
    /// The migration must start where the chain ends and must not go past the
    /// latest version.
    pub fn register(&mut self, migration: M)
        requires
            old(self).chain().len() > 0 ==> migration.spec_from_version() == old(
                self,
            ).chain().last().spec_to_version(),
            !version_lt(old(self).latest(), migration.spec_to_version()),
        ensures
            final(self).chain() == old(self).chain().push(migration),
            final(self).latest() == old(self).latest(),
            old(self).is_continuous() ==> final(self).is_continuous(),
    {
        self.migrations.push(migration);
    }

    /// Registers several migrations, in order.
    pub fn register_all(&mut self, migrations: Vec<M>)
        requires
            chains_after(old(self).chain_end(), migrations@, old(self).latest()),
        ensures
            final(self).chain() == old(self).chain() + migrations@,
            final(self).latest() == old(self).latest(),
            old(self).is_continuous() ==> final(self).is_continuous(),
    {
        let total = migrations.len();
        let ghost start = self.migrations@;
        let ghost ms = migrations@;
        let mut migrations = migrations;
        let mut k: usize = 0;
        while migrations.len() > 0
            invariant
                k + migrations@.len() == ms.len(),
                ms.len() <= usize::MAX,
                migrations@ == ms.subrange(k as int, ms.len() as int),
                self.migrations@ == start + ms.subrange(0, k as int),
                self.latest_version == old(self).latest_version,
                start == old(self).migrations@,
                chains_after(old(self).chain_end(), ms, old(self).latest()),
                chains_after(None, start, old(self).latest()) ==> chains_after(
                    None,
                    self.migrations@,
                    self.latest_version,
                ),
            decreases migrations@.len(),
        {
            let m = migrations.remove(0);
            let ghost before = self.migrations@;
            self.migrations.push(m);
            proof {
                assert(m == ms[k as int]);
                assert(ms.subrange(0, k + 1) =~= ms.subrange(0, k as int).push(ms[k as int]));
                assert(self.migrations@ =~= start + ms.subrange(0, k + 1));
                assert(migrations@ =~= ms.subrange(k + 1, ms.len() as int));
                if chains_after(None, start, old(self).latest()) {
                    let cur = self.migrations@;
                    assert forall|i: int| 1 <= i < cur.len() implies (#[trigger] cur[i]).spec_from_version()
                        == cur[i - 1].spec_to_version() by {
                        if i == cur.len() - 1 {
                            if k == 0 {
                                assert(cur[i - 1] == start.last());
                            } else {
                                assert(cur[i - 1] == ms[k - 1]);
                            }
                        } else {
                            assert(cur[i] == before[i]);
                        }
                    }
                    assert forall|i: int| 0 <= i < cur.len() implies !version_lt(
                        self.latest_version,
                        (#[trigger] cur[i]).spec_to_version(),
                    ) by {
                        if i < before.len() {
                            assert(cur[i] == before[i]);
                        }
                    }
                }
            }
            k = k + 1;
        }
        proof {
            assert(ms.subrange(0, ms.len() as int) =~= ms);
        }
    }

    /// The starting version of the first migration, if any.
    pub fn start_version(&self) -> (r: Option<Version>)
        ensures
            self.chain().len() == 0 ==> r is None,
            self.chain().len() > 0 ==> r == Some(self.chain()[0].spec_from_version()),
    {
        if self.migrations.len() == 0 {
            None
        } else {
            Some(self.migrations[0].from_version())
        }
    }

    /// Whether no migration is registered.
    pub fn is_empty(&self) -> (r: bool)
        ensures
            r == (self.chain().len() == 0),
    {
        self.migrations.len() == 0
    }

    /// The number of registered migrations.
    pub fn len(&self) -> (r: usize)
        ensures
            r == self.chain().len(),
    {
        self.migrations.len()
    }

    /// The index of the first migration starting from `from_version`.
    fn find_start_index(&self, from_version: &Version) -> (r: Option<usize>)
        ensures
            match r {
                Some(i) => is_first_from(self.chain(), *from_version, i as int),
                None => !has_from(self.chain(), *from_version),
            },
    {
        let n = self.migrations.len();
        let mut i: usize = 0;
        while i < n
            invariant
                n == self.migrations@.len(),
                i <= n,
                forall|j: int| 0 <= j < i ==> (#[trigger] self.migrations@[j]).spec_from_version() != *from_version,
            decreases n - i,
        {
            let v = self.migrations[i].from_version();
            if v == *from_version {
                return Some(i);
            }
            i = i + 1;
        }
        None
    }

    /// Every migration as (from, to), in order.
    fn version_pair_list(&self) -> (r: Vec<(Version, Version)>)
        ensures
            r@ == version_pairs(self.chain()),
    {
        let n = self.migrations.len();
        let mut r: Vec<(Version, Version)> = Vec::new();
        let mut i: usize = 0;
        while i < n
            invariant
                n == self.migrations@.len(),
                i <= n,
                r@ == version_pairs(self.migrations@.subrange(0, i as int)),
            decreases n - i,
        {
            let from = self.migrations[i].from_version();
            let to = self.migrations[i].to_version();
            r.push((from, to));
            proof {
                assert(self.migrations@.subrange(0, i + 1) =~= self.migrations@.subrange(
                    0,
                    i as int,
                ).push(self.migrations@[i as int]));
                assert(r@ =~= version_pairs(self.migrations@.subrange(0, i + 1)));
            }
            i = i + 1;
        }
        proof {
            assert(self.migrations@.subrange(0, n as int) =~= self.migrations@);
        }
        r
    }

    /// Migrates data of version `current_version` to the latest version,
    /// through every step from that version on.
    ///
    /// Data already at the latest version is returned as it is; data newer
    /// than it, or of a version no step starts from, is refused; otherwise the
    /// steps run from the first one starting at `current_version` to the end
    /// of the chain, and the first failing step ends the run.
    pub fn migrate_to_latest(&self, data: T, current_version: &Version) -> (r: Result<T, MigrationError>)
        ensures
            *current_version == self.latest() ==> r == Ok::<T, MigrationError>(data),
            *current_version != self.latest() && version_lt(self.latest(), *current_version) ==> (
            r matches Err(MigrationError::NewerThanLatest { current, latest }) && current
                == *current_version && latest == self.latest()),
            *current_version != self.latest() && !version_lt(self.latest(), *current_version)
                && !has_from(self.chain(), *current_version) ==> (r matches Err(
                MigrationError::NoMigrationFrom { current, available },
            ) && current == *current_version && available@ == version_pairs(self.chain())),
            forall|s: int|
                #![trigger is_first_from(self.chain(), *current_version, s)]
                *current_version != self.latest() && !version_lt(self.latest(), *current_version)
                    && is_first_from(self.chain(), *current_version, s) ==> match r {
                    Ok(d) => exists|trace: Seq<T>|
                        #![trigger is_run(self.chain(), s, trace)]
                        is_run(self.chain(), s, trace) && trace.len() == self.chain().len() - s + 1
                            && trace[0] == data && trace.last() == d,
                    Err(MigrationError::StepFailed { step, from, to, message }) => {
                        &&& 1 <= step <= self.chain().len() - s
                        &&& from == self.chain()[s + step - 1].spec_from_version()
                        &&& to == self.chain()[s + step - 1].spec_to_version()
                        &&& exists|trace: Seq<T>|
                            #![trigger is_run(self.chain(), s, trace)]
                            is_run(self.chain(), s, trace) && trace.len() == step && trace[0]
                                == data && self.chain()[s + step - 1].migrates(
                                trace.last(),
                                Err(message),
                            )
                    },
                    Err(_) => false,
                },
    {
        if *current_version == self.latest_version {
            return Ok(data);
        }
        if self.latest_version.precedes(current_version) {
            return Err(
                MigrationError::NewerThanLatest {
                    current: *current_version,
                    latest: self.latest_version,
                },
            );
        }
        let start = match self.find_start_index(current_version) {
            Some(s) => s,
            None => {
                let available = self.version_pair_list();
                return Err(MigrationError::NoMigrationFrom { current: *current_version, available });
            },
        };
        let ghost migs = self.migrations@;
        let ghost data0 = data;
        proof {
            assert forall|s: int| is_first_from(migs, *current_version, s) implies s == start by {
                if s < start {
                    assert(migs[s].spec_from_version() != *current_version);
                } else if s > start {
                    assert(migs[start as int].spec_from_version() != *current_version);
                }
            }
        }
        let n = self.migrations.len();
        let mut cur = data;
        let mut i: usize = start;
        let ghost mut trace: Seq<T> = seq![data0];
        while i < n
            invariant
                n == migs.len(),
                migs == self.migrations@,
                *current_version != self.latest_version,
                !version_lt(self.latest_version, *current_version),
                is_first_from(migs, *current_version, start as int),
                forall|s: int| is_first_from(migs, *current_version, s) ==> s == start,
                start < n,
                start <= i <= n,
                trace.len() == i - start + 1,
                trace[0] == data0,
                data0 == data,
                trace.last() == cur,
                is_run(migs, start as int, trace),
            decreases n - i,
        {
            let m = &self.migrations[i];
            let ghost before = cur;
            match m.migrate(cur) {
                Ok(d) => {
                    proof {
                        let old_trace = trace;
                        trace = trace.push(d);
                        assert forall|k: int| 0 <= k < trace.len() - 1 implies #[trigger] step_ok(
                            migs,
                            start as int,
                            trace,
                            k,
                        ) by {
                            if k < old_trace.len() - 1 {
                                assert(step_ok(migs, start as int, old_trace, k));
                                assert(trace[k] == old_trace[k]);
                                assert(trace[k + 1] == old_trace[k + 1]);
                            } else {
                                assert(start + k == i);
                            }
                        }
                    }
                    cur = d;
                },
                Err(message) => {
                    let from = m.from_version();
                    let to = m.to_version();
                    proof {
                        assert(self.chain() == migs);
                        assert(is_run(self.chain(), start as int, trace));
                    }
                    let res: Result<T, MigrationError> = Err(
                        MigrationError::StepFailed { step: i - start + 1, from, to, message },
                    );
                    return res;
                },
            }
            i = i + 1;
        }
        Ok(cur)
    }

    /// The migration paths from `from`: for a linear chain, the one path
    /// `from`, then the end version of every step from the first one starting
    /// at `from`; none when no step starts there.
    pub fn available_paths(&self, from: &Version) -> (r: Vec<Vec<Version>>)
        ensures
            !has_from(self.chain(), *from) ==> r@.len() == 0,
            forall|s: int|
                #![trigger is_first_from(self.chain(), *from, s)]
                is_first_from(self.chain(), *from, s) ==> r@.len() == 1 && r@[0]@ == seq![*from]
                    + self.chain().subrange(s, self.chain().len() as int).map_values(
                    |m: M| m.spec_to_version(),
                ),
    {
        match self.find_start_index(from) {
            None => Vec::new(),
            Some(start) => {
                let ghost migs = self.migrations@;
                proof {
                    assert forall|s: int| is_first_from(migs, *from, s) implies s == start by {
                        if s < start {
                            assert(migs[s].spec_from_version() != *from);
                        } else if s > start {
                            assert(migs[start as int].spec_from_version() != *from);
                        }
                    }
                }
                let n = self.migrations.len();
                let mut path: Vec<Version> = Vec::new();
                path.push(*from);
                let mut i: usize = start;
                while i < n
                    invariant
                        n == migs.len(),
                        migs == self.migrations@,
                        start <= i <= n,
                        path@ == seq![*from] + migs.subrange(start as int, i as int).map_values(
                            |m: M| m.spec_to_version(),
                        ),
                    decreases n - i,
                {
                    let to = self.migrations[i].to_version();
                    path.push(to);
                    proof {
                        assert(migs.subrange(start as int, i + 1) =~= migs.subrange(
                            start as int,
                            i as int,
                        ).push(migs[i as int]));
                        assert(path@ =~= seq![*from] + migs.subrange(start as int, i + 1).map_values(
                            |m: M| m.spec_to_version(),
                        ));
                    }
                    i = i + 1;
                }
                let mut r: Vec<Vec<Version>> = Vec::new();
                r.push(path);
                r
            },
        }
    }
}

} // verus!
