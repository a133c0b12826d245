//! Session V0 (1.0.0) → V1 (1.1.0): `name` becomes `title`, `created_at` is
//! recorded, and persona references are resolved to persona UUIDs.
//!
//! Old sessions keyed their per-persona histories, and named their current
//! persona, by persona names ("mai", "Mai"). A key that already is a UUID is
//! kept; otherwise the first persona whose name matches it, exactly or after
//! lowercasing both, gives its id; any other key ("user") is kept as it is.

use vstd::prelude::*;
use std::sync::Arc;
use crate::legacy_dto::{SessionV0, SessionV1, SESSION_V1_VERSION};
use crate::persona::{Persona, PersonaRepository};
use crate::session::{ConversationMessage, entries_map, entries_view, insert_history, keys_distinct};
use crate::text::{ascii_lowercase_text, is_ascii_text, spec_to_lowercase, str_eq, to_lowercase};
use crate::uuid_text::{is_uuid_text, is_valid_uuid};
use crate::version::Version;
use super::traits::{Migration, TypedMigration};

verus! {

/// A persona answers to a key when its name equals the key, or when both
/// lowercased are equal.
pub open spec fn persona_matches(p: Persona, key: Seq<char>) -> bool {
    spec_to_lowercase(p.name@) == spec_to_lowercase(key) || p.name@ == key
}

/// A persona answers to any key that spells its name in other ASCII cases
/// ("Mai", "mai" and "MAI" alike).
pub proof fn lemma_ascii_case_insensitive_match(p: Persona, key: Seq<char>)
    requires
        is_ascii_text(p.name@),
        is_ascii_text(key),
        ascii_lowercase_text(p.name@) == ascii_lowercase_text(key),
    ensures
        persona_matches(p, key),
{
}

/// `i` is the first persona answering to `key`.
pub open spec fn is_first_match(ps: Seq<Persona>, key: Seq<char>, i: int) -> bool {
    &&& 0 <= i < ps.len()
    &&& persona_matches(ps[i], key)
    &&& forall|j: int| 0 <= j < i ==> !persona_matches(#[trigger] ps[j], key)
}

/// What a persona reference becomes: kept when it is a UUID, else the id of
/// the first persona answering to it, else kept.
pub open spec fn spec_resolve_key(key: Seq<char>, ps: Seq<Persona>) -> Seq<char> {
    if is_uuid_text(key) {
        key
    } else if exists|i: int| is_first_match(ps, key, i) {
        ps[choose|i: int| is_first_match(ps, key, i)].id@
    } else {
        key
    }
}

/// History entries with every key resolved.
pub open spec fn resolved_entries(
    s: Seq<(Seq<char>, Seq<ConversationMessage>)>,
    ps: Seq<Persona>,
) -> Seq<(Seq<char>, Seq<ConversationMessage>)> {
    s.map_values(|e: (Seq<char>, Seq<ConversationMessage>)| (spec_resolve_key(e.0, ps), e.1))
}

/// `out` holds the histories of `inp` under resolved keys, a later entry
/// winning over an earlier one that resolves to the same key.
pub open spec fn histories_resolved_by(
    out: Seq<(String, Vec<ConversationMessage>)>,
    inp: Seq<(String, Vec<ConversationMessage>)>,
    ps: Seq<Persona>,
) -> bool {
    &&& keys_distinct(out)
    &&& entries_map(entries_view(out)) == entries_map(resolved_entries(entries_view(inp), ps))
}

/// A first match is the only one.
proof fn lemma_first_match_unique(ps: Seq<Persona>, key: Seq<char>, i: int, j: int)
    requires
        is_first_match(ps, key, i),
        is_first_match(ps, key, j),
    ensures
        i == j,
{
    if i < j {
        assert(!persona_matches(ps[i], key));
    } else if j < i {
        assert(!persona_matches(ps[j], key));
    }
}

/// Resolves one persona reference against a list of personas.
pub fn resolve_persona_key(key: String, personas: &Vec<Persona>) -> (r: String)
    ensures
        r@ == spec_resolve_key(key@, personas@),
{
    if is_valid_uuid(key.as_str()) {
        return key;
    }
    let key_lower = to_lowercase(key.as_str());
    let n = personas.len();
    let mut i: usize = 0;
    while i < n
        invariant
            n == personas@.len(),
            i <= n,
            key_lower@ == spec_to_lowercase(key@),
            !is_uuid_text(key@),
            forall|j: int| 0 <= j < i ==> !persona_matches(#[trigger] personas@[j], key@),
        decreases n - i,
    {
        let p = &personas[i];
        let name_lower = to_lowercase(p.name.as_str());
        if str_eq(name_lower.as_str(), key_lower.as_str()) || str_eq(p.name.as_str(), key.as_str()) {
            proof {
                assert(is_first_match(personas@, key@, i as int));
                let c = choose|i: int| is_first_match(personas@, key@, i);
                lemma_first_match_unique(personas@, key@, i as int, c);
                assert(spec_resolve_key(key@, personas@) == personas@[i as int].id@);
            }
            return p.id.clone();
        }
        i = i + 1;
    }
    proof {
        assert forall|c: int| !is_first_match(personas@, key@, c) by {
            if 0 <= c < personas@.len() {
                assert(!persona_matches(personas@[c], key@));
            }
        }
    }
    key
}

/// Re-keys histories by resolved persona references, in order; where two
/// entries resolve to the same key the later one is kept.
pub fn migrate_history_keys(
    histories: Vec<(String, Vec<ConversationMessage>)>,
    personas: &Vec<Persona>,
) -> (r: Vec<(String, Vec<ConversationMessage>)>)
    ensures
        histories_resolved_by(r@, histories@, personas@),
{
    let total = histories.len();
    let ghost orig = histories@;
    let ghost ps = personas@;
    let mut rest = histories;
    let mut r: Vec<(String, Vec<ConversationMessage>)> = Vec::new();
    let mut k: usize = 0;
    while rest.len() > 0
        invariant
            k + rest@.len() == orig.len(),
            total == orig.len(),
            rest@ == orig.subrange(k as int, orig.len() as int),
            ps == personas@,
            keys_distinct(r@),
            entries_map(entries_view(r@)) == entries_map(
                resolved_entries(entries_view(orig.subrange(0, k as int)), ps),
            ),
        decreases rest@.len(),
    {
        let (key, messages) = rest.remove(0);
        let ghost e = (key@, messages@);
        let new_key = resolve_persona_key(key, personas);
        insert_history(&mut r, new_key, messages);
        proof {
            assert(orig[k as int].0@ == e.0);
            assert(orig[k as int].1@ == e.1);
            let pre = resolved_entries(entries_view(orig.subrange(0, k as int)), ps);
            let post = resolved_entries(entries_view(orig.subrange(0, k + 1)), ps);
            assert(post.drop_last() =~= pre);
            assert(post.last() == (spec_resolve_key(e.0, ps), e.1));
            assert(rest@ =~= orig.subrange(k + 1, orig.len() as int));
        }
        k = k + 1;
    }
    proof {
        assert(orig.subrange(0, k as int) =~= orig);
    }
    r
}

/// The relation between a V0 session and the V1 record migrated with the
/// persona list `ps`: renamed title, recorded creation time, schema 1.1.0,
/// and the histories and the current persona resolved against `ps`.
pub open spec fn spec_session_migrated_with(v0: SessionV0, v1: SessionV1, ps: Seq<Persona>) -> bool {
    &&& v1.schema_version@ == SESSION_V1_VERSION@
    &&& v1.id == v0.id
    &&& v1.title == v0.name
    &&& v1.created_at == Some(v0.created_at)
    &&& v1.updated_at == v0.updated_at
    &&& v1.app_mode == v0.app_mode
    &&& histories_resolved_by(v1.persona_histories@, v0.persona_histories@, ps)
    &&& v1.current_persona_id@ == spec_resolve_key(v0.current_persona_id@, ps)
}

/// The relation between a V0 session and its migrated V1 record: migrated
/// with one list of personas (the repository's answer) for both the
/// histories and the current persona.
pub open spec fn spec_session_migrated(v0: SessionV0, v1: SessionV1) -> bool {
    exists|ps: Seq<Persona>| #[trigger] spec_session_migrated_with(v0, v1, ps)
}

/// Migrates a V0 session with the personas `personas`: every persona
/// reference, history key and current persona alike, is resolved against
/// that list.
pub fn migrate_session_with_personas(v0: SessionV0, personas: &Vec<Persona>) -> (r: SessionV1)
    ensures
        spec_session_migrated_with(v0, r, personas@),
{
    let ghost v0_orig = v0;
    let histories = migrate_history_keys(v0.persona_histories, personas);
    let current_persona_id = resolve_persona_key(v0.current_persona_id, personas);
    let v1 = SessionV1 {
        schema_version: String::from_str(SESSION_V1_VERSION),
        id: v0.id,
        title: v0.name,
        created_at: Some(v0.created_at),
        updated_at: v0.updated_at,
        current_persona_id,
        persona_histories: histories,
        app_mode: v0.app_mode,
    };
    v1
}

/// A domain is the set of keys some entry has.
proof fn lemma_entries_map_keys(s: Seq<(Seq<char>, Seq<ConversationMessage>)>, k: Seq<char>)
    ensures
        entries_map(s).dom().contains(k) <==> exists|j: int| 0 <= j < s.len() && (#[trigger] s[j]).0 == k,
    decreases s.len(),
{
    if s.len() > 0 {
        lemma_entries_map_keys(s.drop_last(), k);
        if exists|j: int| 0 <= j < s.drop_last().len() && (#[trigger] s.drop_last()[j]).0 == k {
            let j = choose|j: int| 0 <= j < s.drop_last().len() && (#[trigger] s.drop_last()[j]).0 == k;
            assert(s[j].0 == k);
        }
        if exists|j: int| 0 <= j < s.len() && (#[trigger] s[j]).0 == k {
            let j = choose|j: int| 0 <= j < s.len() && (#[trigger] s[j]).0 == k;
            if j < s.len() - 1 {
                assert(s.drop_last()[j].0 == k);
            }
        }
    }
}

/// What a resolved reference is, when every persona's id is a UUID: a UUID,
/// or a reference no persona answers to.
pub proof fn lemma_resolved_key_names_no_persona(key: Seq<char>, ps: Seq<Persona>)
    requires
        forall|p: int| 0 <= p < ps.len() ==> is_uuid_text((#[trigger] ps[p]).id@),
    ensures
        is_uuid_text(spec_resolve_key(key, ps))
            || forall|p: int| 0 <= p < ps.len() ==> !persona_matches(#[trigger] ps[p], spec_resolve_key(key, ps)),
{
    if !is_uuid_text(key) && exists|i: int| is_first_match(ps, key, i) {
        let i = choose|i: int| is_first_match(ps, key, i);
        assert(is_uuid_text(ps[i].id@));
    } else if !is_uuid_text(key) {
        assert forall|p: int| 0 <= p < ps.len() implies !persona_matches(#[trigger] ps[p], key) by {
            if persona_matches(ps[p], key) {
                // the first persona answering to the key would be a first match
                assert(exists|i: int| is_first_match(ps, key, i)) by {
                    lemma_some_first_match(ps, key, p);
                }
            }
        }
    }
}

/// Where some persona answers to a key, a first one does.
proof fn lemma_some_first_match(ps: Seq<Persona>, key: Seq<char>, p: int)
    requires
        0 <= p < ps.len(),
        persona_matches(ps[p], key),
    ensures
        exists|i: int| is_first_match(ps, key, i),
    decreases p,
{
    if forall|j: int| 0 <= j < p ==> !persona_matches(#[trigger] ps[j], key) {
        assert(is_first_match(ps, key, p));
    } else {
        let j = choose|j: int| 0 <= j < p && persona_matches(#[trigger] ps[j], key);
        lemma_some_first_match(ps, key, j);
    }
}

/// Migrating re-keys the histories: each old key appears under its resolved
/// reference, every new key is the resolution of an old one, and when every
/// persona's id is a UUID no key (nor the current persona) is left naming a
/// persona that answers to it.
pub proof fn lemma_session_histories_rekeyed(v0: SessionV0, v1: SessionV1, ps: Seq<Persona>)
    requires
        spec_session_migrated_with(v0, v1, ps),
    ensures
        forall|j: int| 0 <= j < v0.persona_histories@.len() ==> exists|i: int|
            0 <= i < v1.persona_histories@.len() && (#[trigger] v1.persona_histories@[i]).0@
                == spec_resolve_key((#[trigger] v0.persona_histories@[j]).0@, ps),
        forall|i: int| 0 <= i < v1.persona_histories@.len() ==> exists|j: int|
            0 <= j < v0.persona_histories@.len() && (#[trigger] v1.persona_histories@[i]).0@
                == spec_resolve_key((#[trigger] v0.persona_histories@[j]).0@, ps),
        (forall|p: int| 0 <= p < ps.len() ==> is_uuid_text((#[trigger] ps[p]).id@)) ==> {
            &&& forall|i: int| 0 <= i < v1.persona_histories@.len() ==>
                is_uuid_text((#[trigger] v1.persona_histories@[i]).0@)
                    || forall|p: int| 0 <= p < ps.len() ==> !persona_matches(#[trigger] ps[p], v1.persona_histories@[i].0@)
            &&& is_uuid_text(v1.current_persona_id@)
                || forall|p: int| 0 <= p < ps.len() ==> !persona_matches(#[trigger] ps[p], v1.current_persona_id@)
        },
{
    let out = entries_view(v1.persona_histories@);
    let inp = entries_view(v0.persona_histories@);
    let res = resolved_entries(inp, ps);
    assert(entries_map(out) == entries_map(res));
    assert forall|j: int| 0 <= j < v0.persona_histories@.len() implies exists|i: int|
        0 <= i < v1.persona_histories@.len() && (#[trigger] v1.persona_histories@[i]).0@
            == spec_resolve_key((#[trigger] v0.persona_histories@[j]).0@, ps) by {
        let k = spec_resolve_key(v0.persona_histories@[j].0@, ps);
        assert(res[j].0 == k);
        lemma_entries_map_keys(res, k);
        lemma_entries_map_keys(out, k);
        let i = choose|i: int| 0 <= i < out.len() && (#[trigger] out[i]).0 == k;
        assert(v1.persona_histories@[i].0@ == out[i].0);
    }
    assert forall|i: int| 0 <= i < v1.persona_histories@.len() implies exists|j: int|
        0 <= j < v0.persona_histories@.len() && (#[trigger] v1.persona_histories@[i]).0@
            == spec_resolve_key((#[trigger] v0.persona_histories@[j]).0@, ps) by {
        let k = v1.persona_histories@[i].0@;
        assert(out[i].0 == k);
        lemma_entries_map_keys(out, k);
        lemma_entries_map_keys(res, k);
        let j = choose|j: int| 0 <= j < res.len() && (#[trigger] res[j]).0 == k;
        assert(res[j].0 == spec_resolve_key(inp[j].0, ps));
    }
    if forall|p: int| 0 <= p < ps.len() ==> is_uuid_text((#[trigger] ps[p]).id@) {
        assert forall|i: int| 0 <= i < v1.persona_histories@.len() implies
            is_uuid_text((#[trigger] v1.persona_histories@[i]).0@)
                || forall|p: int| 0 <= p < ps.len() ==> !persona_matches(#[trigger] ps[p], v1.persona_histories@[i].0@) by {
            let j = choose|j: int|
                0 <= j < v0.persona_histories@.len() && (#[trigger] v1.persona_histories@[i]).0@
                    == spec_resolve_key((#[trigger] v0.persona_histories@[j]).0@, ps);
            lemma_resolved_key_names_no_persona(v0.persona_histories@[j].0@, ps);
        }
        lemma_resolved_key_names_no_persona(v0.current_persona_id@, ps);
    }
}

/// Migration from SessionV0 (1.0.0) to SessionV1 (1.1.0), resolving persona
/// references with the personas of a repository.
pub struct SessionV0ToV1Migration<R: PersonaRepository> {
    persona_repository: Arc<R>,
}

impl<R: PersonaRepository> SessionV0ToV1Migration<R> {
    /// The repository whose personas the migration resolves references with.
    pub closed spec fn repository(&self) -> Arc<R> {
        self.persona_repository
    }

    /// Creates the migration; the repository resolves persona names to UUIDs.
    pub fn new(persona_repository: Arc<R>) -> (r: Self)
        ensures
            r.repository() == persona_repository,
    {
        SessionV0ToV1Migration { persona_repository }
    }

    /// Re-keys persona histories by persona UUIDs, with the personas the
    /// repository holds; fails when the repository cannot be read.
    pub fn migrate_persona_history_keys(
        &self,
        histories: Vec<(String, Vec<ConversationMessage>)>,
    ) -> (r: Result<Vec<(String, Vec<ConversationMessage>)>, String>)
        ensures
            match r {
                Ok(h) => exists|ps: Seq<Persona>| #[trigger] histories_resolved_by(h@, histories@, ps),
                Err(m) => m@.len() > 0,
            },
    {
        match self.persona_repository.get_all() {
            Err(e) => {
                let mut m = String::from_str("Failed to load personas for migration: ");
                m.append(e.as_str());
                proof {
                    reveal_strlit("Failed to load personas for migration: ");
                    assert(m@.len() > 0);
                }
                Err(m)
            },
            Ok(personas) => {
                let ghost inp = histories@;
                let h = migrate_history_keys(histories, &personas);
                proof {
                    assert(histories_resolved_by(h@, inp, personas@));
                    assert(inp == histories@);
                    assert(exists|ps: Seq<Persona>| #[trigger] histories_resolved_by(h@, histories@, ps));
                }
                let res: Result<Vec<(String, Vec<ConversationMessage>)>, String> = Ok(h);
                proof {
                    assert(res matches Ok(hh) && hh@ == h@);
                }
                res
            },
        }
    }
}

impl<R: PersonaRepository> Migration for SessionV0ToV1Migration<R> {
    open spec fn spec_from_version(&self) -> Version {
        Version { major: 1, minor: 0, patch: 0 }
    }

    open spec fn spec_to_version(&self) -> Version {
        Version { major: 1, minor: 1, patch: 0 }
    }

    fn from_version(&self) -> (r: Version) {
        Version::new(1, 0, 0)
    }

    fn to_version(&self) -> (r: Version) {
        Version::new(1, 1, 0)
    }

    fn description(&self) -> (r: &str)
        ensures
            r@ == "Rename 'name' to 'title', add 'created_at', migrate persona_histories keys to UUIDs"@,
    {
        proof {
            reveal_strlit("Rename 'name' to 'title', add 'created_at', migrate persona_histories keys to UUIDs");
        }
        "Rename 'name' to 'title', add 'created_at', migrate persona_histories keys to UUIDs"
    }
}

impl<R: PersonaRepository> TypedMigration<SessionV0, SessionV1> for SessionV0ToV1Migration<R> {
    /// Success gives the migrated record; a failure to read the repository is
    /// reported with a message.
    open spec fn migrates(&self, from: SessionV0, result: Result<SessionV1, String>) -> bool {
        match result {
            Ok(v1) => spec_session_migrated(from, v1),
            Err(m) => m@.len() > 0,
        }
    }

    fn migrate(&self, v0: SessionV0) -> (r: Result<SessionV1, String>) {
        match self.persona_repository.get_all() {
            Err(_) => {
                let mut m = String::from_str("Failed to migrate persona_histories for session ");
                m.append(v0.id.as_str());
                proof {
                    reveal_strlit("Failed to migrate persona_histories for session ");
                    assert(m@.len() > 0);
                }
                Err(m)
            },
            Ok(personas) => {
                let ghost v0_orig = v0;
                let v1 = migrate_session_with_personas(v0, &personas);
                proof {
                    assert(spec_session_migrated_with(v0_orig, v1, personas@));
                }
                Ok(v1)
            },
        }
    }
}

} // verus!
