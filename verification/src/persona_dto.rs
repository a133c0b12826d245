//! Persona configuration records, versions 1.0.0 to 1.3.0.
//!
//! 1.0.0 → 1.1.0 makes the identifier a UUID (kept when it already is one,
//! else derived from the name) and adds the backend (default: the CLI of the
//! first vendor); 1.2.0 adds the model name and 1.3.0 the icon, both absent
//! by default. Reading a 1.3.0 record applies the same identifier rule to
//! legacy data and leaves the base color unset.

use vstd::prelude::*;
use crate::legacy_dto::{PersonaSourceDTO, spec_source_from_domain, spec_source_into_domain};
use crate::persona::{Persona, PersonaBackend};
use crate::uuid_text::{is_uuid_text, spec_uuid_or_from_name, uuid_or_from_name};

verus! {

/// The backend a persona runs on, as stored.
#[derive(Debug, Clone, Copy, PartialEq, Eq, Structural)]
pub enum PersonaBackendDTO {
    ClaudeCli,
    ClaudeApi,
    GeminiCli,
    GeminiApi,
    OpenAiApi,
    CodexCli,
}

impl Default for PersonaBackendDTO {
    fn default() -> (r: Self)
        ensures
            r == PersonaBackendDTO::ClaudeCli,
    {
        PersonaBackendDTO::ClaudeCli
    }
}

/// The domain backend of a stored backend.
pub open spec fn spec_backend_into_domain(b: PersonaBackendDTO) -> PersonaBackend {
    match b {
        PersonaBackendDTO::ClaudeCli => PersonaBackend::ClaudeCli,
        PersonaBackendDTO::ClaudeApi => PersonaBackend::ClaudeApi,
        PersonaBackendDTO::GeminiCli => PersonaBackend::GeminiCli,
        PersonaBackendDTO::GeminiApi => PersonaBackend::GeminiApi,
        PersonaBackendDTO::OpenAiApi => PersonaBackend::OpenAiApi,
        PersonaBackendDTO::CodexCli => PersonaBackend::CodexCli,
    }
}

/// The stored backend of a domain backend.
pub open spec fn spec_backend_from_domain(b: PersonaBackend) -> PersonaBackendDTO {
    match b {
        PersonaBackend::ClaudeCli => PersonaBackendDTO::ClaudeCli,
        PersonaBackend::ClaudeApi => PersonaBackendDTO::ClaudeApi,
        PersonaBackend::GeminiCli => PersonaBackendDTO::GeminiCli,
        PersonaBackend::GeminiApi => PersonaBackendDTO::GeminiApi,
        PersonaBackend::OpenAiApi => PersonaBackendDTO::OpenAiApi,
        PersonaBackend::CodexCli => PersonaBackendDTO::CodexCli,
    }
}

impl PersonaBackendDTO {
    /// The domain backend.
    pub fn into_domain(self) -> (r: PersonaBackend)
        ensures
            r == spec_backend_into_domain(self),
    {
        match self {
            PersonaBackendDTO::ClaudeCli => PersonaBackend::ClaudeCli,
            PersonaBackendDTO::ClaudeApi => PersonaBackend::ClaudeApi,
            PersonaBackendDTO::GeminiCli => PersonaBackend::GeminiCli,
            PersonaBackendDTO::GeminiApi => PersonaBackend::GeminiApi,
            PersonaBackendDTO::OpenAiApi => PersonaBackend::OpenAiApi,
            PersonaBackendDTO::CodexCli => PersonaBackend::CodexCli,
        }
    }

    /// The stored form of a domain backend.
    pub fn from_domain(b: PersonaBackend) -> (r: Self)
        ensures
            r == spec_backend_from_domain(b),
    {
        match b {
            PersonaBackend::ClaudeCli => PersonaBackendDTO::ClaudeCli,
            PersonaBackend::ClaudeApi => PersonaBackendDTO::ClaudeApi,
            PersonaBackend::GeminiCli => PersonaBackendDTO::GeminiCli,
            PersonaBackend::GeminiApi => PersonaBackendDTO::GeminiApi,
            PersonaBackend::OpenAiApi => PersonaBackendDTO::OpenAiApi,
            PersonaBackend::CodexCli => PersonaBackendDTO::CodexCli,
        }
    }
}

/// Persona configuration record, schema 1.0.0.
#[derive(Debug, Clone)]
pub struct PersonaConfigV1_0_0 {
    /// Unique identifier.
    pub id: String,
    /// Display name.
    pub name: String,
    /// Role or title.
    pub role: String,
    /// Background description.
    pub background: String,
    /// Communication style.
    pub communication_style: String,
    /// Whether the persona joins new sessions by default.
    pub default_participant: bool,
    /// Where the persona comes from.
    pub source: PersonaSourceDTO,
}

/// Persona configuration record, schema 1.1.0.
#[derive(Debug, Clone)]
pub struct PersonaConfigV1_1_0 {
    /// Unique identifier.
    pub id: String,
    /// Display name.
    pub name: String,
    /// Role or title.
    pub role: String,
    /// Background description.
    pub background: String,
    /// Communication style.
    pub communication_style: String,
    /// Whether the persona joins new sessions by default.
    pub default_participant: bool,
    /// Where the persona comes from.
    pub source: PersonaSourceDTO,
    /// Backend the persona runs on.
    pub backend: PersonaBackendDTO,
}

/// Persona configuration record, schema 1.2.0.
#[derive(Debug, Clone)]
pub struct PersonaConfigV1_2_0 {
    /// Unique identifier.
    pub id: String,
    /// Display name.
    pub name: String,
    /// Role or title.
    pub role: String,
    /// Background description.
    pub background: String,
    /// Communication style.
    pub communication_style: String,
    /// Whether the persona joins new sessions by default.
    pub default_participant: bool,
    /// Where the persona comes from.
    pub source: PersonaSourceDTO,
    /// Backend the persona runs on.
    pub backend: PersonaBackendDTO,
    /// Model of the backend; None for its default model.
    pub model_name: Option<String>,
}

/// Persona configuration record, schema 1.3.0.
#[derive(Debug, Clone)]
pub struct PersonaConfigV1_3_0 {
    /// Unique identifier.
    pub id: String,
    /// Display name.
    pub name: String,
    /// Role or title.
    pub role: String,
    /// Background description.
    pub background: String,
    /// Communication style.
    pub communication_style: String,
    /// Whether the persona joins new sessions by default.
    pub default_participant: bool,
    /// Where the persona comes from.
    pub source: PersonaSourceDTO,
    /// Backend the persona runs on.
    pub backend: PersonaBackendDTO,
    /// Model of the backend; None for its default model.
    pub model_name: Option<String>,
    /// Icon or emoji of the persona.
    pub icon: Option<String>,
}

impl PersonaConfigV1_0_0 {
    /// Migrates to 1.1.0: the identifier is made a UUID and the default
    /// backend is recorded.
    pub fn migrate(self) -> (r: PersonaConfigV1_1_0)
        ensures
            r.id@ == spec_uuid_or_from_name(self.id@, self.name@),
            is_uuid_text(r.id@),
            r.name == self.name,
            r.role == self.role,
            r.background == self.background,
            r.communication_style == self.communication_style,
            r.default_participant == self.default_participant,
            r.source == self.source,
            r.backend == PersonaBackendDTO::ClaudeCli,
    {
        let id = uuid_or_from_name(self.id, self.name.as_str());
        PersonaConfigV1_1_0 {
            id,
            name: self.name,
            role: self.role,
            background: self.background,
            communication_style: self.communication_style,
            default_participant: self.default_participant,
            source: self.source,
            backend: PersonaBackendDTO::default(),
        }
    }
}

impl PersonaConfigV1_1_0 {
    /// Migrates to 1.2.0; the new field is absent.
    pub fn migrate(self) -> (r: PersonaConfigV1_2_0)
        ensures
            r == (PersonaConfigV1_2_0 {
                id: self.id,
                name: self.name,
                role: self.role,
                background: self.background,
                communication_style: self.communication_style,
                default_participant: self.default_participant,
                source: self.source,
                backend: self.backend,
                model_name: None,
            }),
    {
        PersonaConfigV1_2_0 {
            id: self.id,
            name: self.name,
            role: self.role,
            background: self.background,
            communication_style: self.communication_style,
            default_participant: self.default_participant,
            source: self.source,
            backend: self.backend,
            model_name: None,
        }
    }
}

impl PersonaConfigV1_2_0 {
    /// Migrates to 1.3.0; the new field is absent.
    pub fn migrate(self) -> (r: PersonaConfigV1_3_0)
        ensures
            r == (PersonaConfigV1_3_0 {
                id: self.id,
                name: self.name,
                role: self.role,
                background: self.background,
                communication_style: self.communication_style,
                default_participant: self.default_participant,
                source: self.source,
                backend: self.backend,
                model_name: self.model_name,
                icon: None,
            }),
    {
        PersonaConfigV1_3_0 {
            id: self.id,
            name: self.name,
            role: self.role,
            background: self.background,
            communication_style: self.communication_style,
            default_participant: self.default_participant,
            source: self.source,
            backend: self.backend,
            model_name: self.model_name,
            icon: None,
        }
    }
}

/// `d` is the 1.3.0 record of `p`: every field stored but the base color.
pub open spec fn is_persona_record_of(p: Persona, d: PersonaConfigV1_3_0) -> bool {
    &&& d.id == p.id
    &&& d.name == p.name
    &&& d.role == p.role
    &&& d.background == p.background
    &&& d.communication_style == p.communication_style
    &&& d.default_participant == p.default_participant
    &&& d.source == spec_source_from_domain(p.source)
    &&& d.backend == spec_backend_from_domain(p.backend)
    &&& d.model_name == p.model_name
    &&& d.icon == p.icon
}

/// Reading a 1.3.0 record into the domain.
pub open spec fn spec_persona_v1_3_into_domain(d: PersonaConfigV1_3_0, p: Persona) -> bool {
    &&& p.id@ == spec_uuid_or_from_name(d.id@, d.name@)
    &&& p.name == d.name
    &&& p.role == d.role
    &&& p.background == d.background
    &&& p.communication_style == d.communication_style
    &&& p.default_participant == d.default_participant
    &&& p.source == spec_source_into_domain(d.source)
    &&& p.backend == spec_backend_into_domain(d.backend)
    &&& p.model_name == d.model_name
    &&& p.icon == d.icon
    &&& p.base_color is None
}

impl PersonaConfigV1_3_0 {
    /// The domain persona; a non-UUID identifier (legacy data) is replaced
    /// by the name-based UUID, and the base color is left unset.
    pub fn into_domain(self) -> (r: Persona)
        ensures
            spec_persona_v1_3_into_domain(self, r),
            is_uuid_text(r.id@),
    {
        let id = uuid_or_from_name(self.id, self.name.as_str());
        Persona {
            id,
            name: self.name,
            role: self.role,
            background: self.background,
            communication_style: self.communication_style,
            default_participant: self.default_participant,
            source: self.source.into_domain(),
            backend: self.backend.into_domain(),
            model_name: self.model_name,
            icon: self.icon,
            base_color: None,
        }
    }

    /// The record of a domain persona (its base color is not stored).
    pub fn from_domain(persona: Persona) -> (r: Self)
        ensures
            is_persona_record_of(persona, r),
    {
        PersonaConfigV1_3_0 {
            id: persona.id,
            name: persona.name,
            role: persona.role,
            background: persona.background,
            communication_style: persona.communication_style,
            default_participant: persona.default_participant,
            source: PersonaSourceDTO::from_domain(persona.source),
            backend: PersonaBackendDTO::from_domain(persona.backend),
            model_name: persona.model_name,
            icon: persona.icon,
        }
    }
}

/// A 1.0.0 record read into the domain through every migration: UUID
/// identifier, default backend, no model, icon or base color.
pub fn persona_v1_0_to_domain(d: PersonaConfigV1_0_0) -> (r: Persona)
    ensures
        r.id@ == spec_uuid_or_from_name(d.id@, d.name@),
        r.name == d.name,
        r.role == d.role,
        r.background == d.background,
        r.communication_style == d.communication_style,
        r.default_participant == d.default_participant,
        r.source == spec_source_into_domain(d.source),
        r.backend == PersonaBackend::ClaudeCli,
        r.model_name is None && r.icon is None && r.base_color is None,
        is_uuid_text(r.id@),
{
    d.migrate().migrate().migrate().into_domain()
}

/// A 1.1.0 record read into the domain through the later migrations: its
/// backend is kept.
pub fn persona_v1_1_to_domain(d: PersonaConfigV1_1_0) -> (r: Persona)
    ensures
        r.id@ == spec_uuid_or_from_name(d.id@, d.name@),
        r.name == d.name,
        r.backend == spec_backend_into_domain(d.backend),
        r.model_name is None && r.icon is None,
{
    d.migrate().migrate().into_domain()
}

/// A stored persona record of any schema.
pub enum PersonaRecord {
    V1_0_0(PersonaConfigV1_0_0),
    V1_1_0(PersonaConfigV1_1_0),
    V1_2_0(PersonaConfigV1_2_0),
    V1_3_0(PersonaConfigV1_3_0),
}

/// `p` is the domain persona read from `rec` through the migrations: a 1.0.0
/// record gets its UUID and the default backend, later fields are absent
/// until their schema, and the base color is never stored.
pub open spec fn spec_persona_record_read(rec: PersonaRecord, p: Persona) -> bool {
    match rec {
        PersonaRecord::V1_0_0(d) => {
            &&& p.id@ == spec_uuid_or_from_name(d.id@, d.name@)
            &&& p.name == d.name
            &&& p.role == d.role
            &&& p.background == d.background
            &&& p.communication_style == d.communication_style
            &&& p.default_participant == d.default_participant
            &&& p.source == spec_source_into_domain(d.source)
            &&& p.backend == PersonaBackend::ClaudeCli
            &&& p.model_name is None
            &&& p.icon is None
            &&& p.base_color is None
        },
        PersonaRecord::V1_1_0(d) => spec_persona_v1_3_into_domain(
            PersonaConfigV1_3_0 {
                id: d.id,
                name: d.name,
                role: d.role,
                background: d.background,
                communication_style: d.communication_style,
                default_participant: d.default_participant,
                source: d.source,
                backend: d.backend,
                model_name: None,
                icon: None,
            },
            p,
        ),
        PersonaRecord::V1_2_0(d) => spec_persona_v1_3_into_domain(
            PersonaConfigV1_3_0 {
                id: d.id,
                name: d.name,
                role: d.role,
                background: d.background,
                communication_style: d.communication_style,
                default_participant: d.default_participant,
                source: d.source,
                backend: d.backend,
                model_name: d.model_name,
                icon: None,
            },
            p,
        ),
        PersonaRecord::V1_3_0(d) => spec_persona_v1_3_into_domain(d, p),
    }
}

/// Reads a stored persona of any schema into the domain, through every
/// migration from its schema on.
pub fn persona_record_to_domain(rec: PersonaRecord) -> (r: Persona)
    ensures
        spec_persona_record_read(rec, r),
        is_uuid_text(r.id@),
{
    match rec {
        PersonaRecord::V1_0_0(d) => {
            persona_v1_0_to_domain(d)
        },
        PersonaRecord::V1_1_0(d) => d.migrate().migrate().into_domain(),
        PersonaRecord::V1_2_0(d) => d.migrate().into_domain(),
        PersonaRecord::V1_3_0(d) => d.into_domain(),
    }
}

/// Storing a backend and reading it back gives it again, both ways round.
pub proof fn lemma_backend_round_trip(b: PersonaBackend, d: PersonaBackendDTO)
    ensures
        spec_backend_into_domain(spec_backend_from_domain(b)) == b,
        spec_backend_from_domain(spec_backend_into_domain(d)) == d,
{
}

/// Reading a record whose identifier is a UUID keeps it; a record read
/// twice through the identifier rule keeps the first result.
pub proof fn lemma_uuid_rule_idempotent(id: Seq<char>, name: Seq<char>)
    ensures
        is_uuid_text(id) ==> spec_uuid_or_from_name(id, name) == id,
        is_uuid_text(spec_uuid_or_from_name(id, name)) ==> spec_uuid_or_from_name(
            spec_uuid_or_from_name(id, name),
            name,
        ) == spec_uuid_or_from_name(id, name),
{
}

/// A persona saved and loaded again is the same persona, except that its
/// base color, which is not stored, reads back as unset. Its identifier is a
/// UUID, as every persona's is.
pub proof fn lemma_persona_save_then_load(p: Persona, d: PersonaConfigV1_3_0, q: Persona)
    requires
        is_uuid_text(p.id@),
        is_persona_record_of(p, d),
        spec_persona_v1_3_into_domain(d, q),
    ensures
        q.id@ == p.id@,
        q.name == p.name,
        q.role == p.role,
        q.background == p.background,
        q.communication_style == p.communication_style,
        q.default_participant == p.default_participant,
        q.source == p.source,
        q.backend == p.backend,
        q.model_name == p.model_name,
        q.icon == p.icon,
        q.base_color is None,
{
    lemma_backend_round_trip(p.backend, d.backend);
}

/// Saving a list of personas and loading the records back gives the same
/// personas, in order, each with its base color unset.
pub proof fn lemma_personas_save_then_load(ps: Seq<Persona>, ds: Seq<PersonaConfigV1_3_0>, qs: Seq<Persona>)
    requires
        ds.len() == ps.len(),
        qs.len() == ds.len(),
        forall|i: int| 0 <= i < ps.len() ==> is_uuid_text((#[trigger] ps[i]).id@),
        forall|i: int| 0 <= i < ps.len() ==> is_persona_record_of(#[trigger] ps[i], ds[i]),
        forall|i: int| 0 <= i < ds.len() ==> spec_persona_v1_3_into_domain(#[trigger] ds[i], qs[i]),
    ensures
        forall|i: int| 0 <= i < qs.len() ==> {
            &&& (#[trigger] qs[i]).id@ == ps[i].id@
            &&& qs[i].name == ps[i].name
            &&& qs[i].role == ps[i].role
            &&& qs[i].background == ps[i].background
            &&& qs[i].communication_style == ps[i].communication_style
            &&& qs[i].default_participant == ps[i].default_participant
            &&& qs[i].source == ps[i].source
            &&& qs[i].backend == ps[i].backend
            &&& qs[i].model_name == ps[i].model_name
            &&& qs[i].icon == ps[i].icon
            &&& qs[i].base_color is None
        },
{
    assert forall|i: int| 0 <= i < qs.len() implies {
        &&& (#[trigger] qs[i]).id@ == ps[i].id@
        &&& qs[i].name == ps[i].name
        &&& qs[i].role == ps[i].role
        &&& qs[i].background == ps[i].background
        &&& qs[i].communication_style == ps[i].communication_style
        &&& qs[i].default_participant == ps[i].default_participant
        &&& qs[i].source == ps[i].source
        &&& qs[i].backend == ps[i].backend
        &&& qs[i].model_name == ps[i].model_name
        &&& qs[i].icon == ps[i].icon
        &&& qs[i].base_color is None
    } by {
        lemma_persona_save_then_load(ps[i], ds[i], qs[i]);
    }
}

/// Each stored backend reads as the domain backend of the same name, and
/// each domain backend is stored under its own name: no two backends share a
/// stored form.
pub proof fn lemma_backend_names_kept(d: PersonaBackendDTO, b: PersonaBackend)
    ensures
        d == PersonaBackendDTO::ClaudeCli <==> spec_backend_into_domain(d) == PersonaBackend::ClaudeCli,
        d == PersonaBackendDTO::ClaudeApi <==> spec_backend_into_domain(d) == PersonaBackend::ClaudeApi,
        d == PersonaBackendDTO::GeminiCli <==> spec_backend_into_domain(d) == PersonaBackend::GeminiCli,
        d == PersonaBackendDTO::GeminiApi <==> spec_backend_into_domain(d) == PersonaBackend::GeminiApi,
        d == PersonaBackendDTO::OpenAiApi <==> spec_backend_into_domain(d) == PersonaBackend::OpenAiApi,
        d == PersonaBackendDTO::CodexCli <==> spec_backend_into_domain(d) == PersonaBackend::CodexCli,
        b == PersonaBackend::ClaudeCli <==> spec_backend_from_domain(b) == PersonaBackendDTO::ClaudeCli,
        b == PersonaBackend::ClaudeApi <==> spec_backend_from_domain(b) == PersonaBackendDTO::ClaudeApi,
        b == PersonaBackend::GeminiCli <==> spec_backend_from_domain(b) == PersonaBackendDTO::GeminiCli,
        b == PersonaBackend::GeminiApi <==> spec_backend_from_domain(b) == PersonaBackendDTO::GeminiApi,
        b == PersonaBackend::OpenAiApi <==> spec_backend_from_domain(b) == PersonaBackendDTO::OpenAiApi,
        b == PersonaBackend::CodexCli <==> spec_backend_from_domain(b) == PersonaBackendDTO::CodexCli,
{
}

/// Reading a persona record keeps every field in the field of the same name
/// (the identifier made a UUID where it is not one, the base color unset), and
/// storing a persona keeps every stored field likewise.
pub proof fn lemma_persona_fields_kept(d: PersonaConfigV1_3_0, p: Persona, q: Persona, e: PersonaConfigV1_3_0)
    ensures
        spec_persona_v1_3_into_domain(d, p) ==> {
            &&& p.name == d.name
            &&& p.role == d.role
            &&& p.background == d.background
            &&& p.communication_style == d.communication_style
            &&& p.default_participant == d.default_participant
            &&& p.model_name == d.model_name
            &&& p.icon == d.icon
            &&& (is_uuid_text(d.id@) ==> p.id@ == d.id@)
            &&& p.base_color is None
        },
        is_persona_record_of(q, e) ==> {
            &&& e.id == q.id
            &&& e.name == q.name
            &&& e.role == q.role
            &&& e.background == q.background
            &&& e.communication_style == q.communication_style
            &&& e.default_participant == q.default_participant
            &&& e.model_name == q.model_name
            &&& e.icon == q.icon
        },
{
}

} // verus!
