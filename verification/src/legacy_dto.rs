//! The first generation of persistence records: sessions V0/V1, persona
//! configurations V1/V2 and their configuration roots, with the migrations
//! between them and their conversions to and from the domain.
//!
//! Session V0 → V1 renames `name` to `title` and records `created_at`.
//! Persona V1 → V2 replaces non-UUID identifiers by the name-based UUID of the
//! persona's name; identifiers that already are UUIDs are kept.

use vstd::prelude::*;
use crate::persona::{Persona, PersonaBackend, PersonaSource};
use crate::session::{AppMode, ConversationMessage, Session};
use crate::user_profile_dto::UserProfileV1_1;
use crate::uuid_text::{spec_uuid_or_from_name, uuid_or_from_name, is_uuid_text};

verus! {

/// Current schema version for SessionV1.
pub const SESSION_V1_VERSION: &'static str = "1.1.0";

/// Current schema version for PersonaConfigV1.
pub const PERSONA_CONFIG_V1_VERSION: &'static str = "1.0.0";

/// Current schema version for PersonaConfigV2.
pub const PERSONA_CONFIG_V2_VERSION: &'static str = "2.0.0";

/// Schema version of UserProfile V1.0.
pub const USER_PROFILE_V1_0_VERSION: &'static str = "1.0.0";

/// Schema version of UserProfile V1.1.
pub const USER_PROFILE_V1_1_VERSION: &'static str = "1.1.0";

/// Schema version of UploadedFileV1.
pub const UPLOADED_FILE_V1_VERSION: &'static str = "1.0.0";

/// Schema version of GeneratedDocV1.
pub const GENERATED_DOC_V1_VERSION: &'static str = "1.0.0";

/// Session record V0 (schema 1.0.0): the legacy schema with the `name` field.
#[derive(Debug, Clone)]
pub struct SessionV0 {
    pub schema_version: String,
    pub id: String,
    /// Human-readable session name.
    pub name: String,
    /// ISO 8601 timestamp of creation.
    pub created_at: String,
    /// ISO 8601 timestamp of the last update.
    pub updated_at: String,
    pub current_persona_id: String,
    pub persona_histories: Vec<(String, Vec<ConversationMessage>)>,
    pub app_mode: AppMode,
}

/// Session record V1 (schema 1.1.0): `name` became `title`; `created_at` is
/// optional because 1.0.0 records of this shape lack it.
#[derive(Debug, Clone)]
pub struct SessionV1 {
    pub schema_version: String,
    pub id: String,
    /// Human-readable session title.
    pub title: String,
    /// ISO 8601 timestamp of creation; None in records written before 1.1.0.
    pub created_at: Option<String>,
    /// ISO 8601 timestamp of the last update.
    pub updated_at: String,
    pub current_persona_id: String,
    pub persona_histories: Vec<(String, Vec<ConversationMessage>)>,
    pub app_mode: AppMode,
}

/// Where a persona comes from, as stored.
#[derive(Debug, Clone, Copy, PartialEq, Eq, Structural)]
pub enum PersonaSourceDTO {
    System,
    User,
}

impl Default for PersonaSourceDTO {
    fn default() -> (r: Self)
        ensures
            r == PersonaSourceDTO::User,
    {
        PersonaSourceDTO::User
    }
}

/// Persona configuration record V1 (schema 1.0.0): string identifiers.
#[derive(Debug, Clone)]
pub struct PersonaConfigV1 {
    pub schema_version: String,
    pub id: String,
    pub name: String,
    pub role: String,
    pub background: String,
    pub communication_style: String,
    pub default_participant: bool,
    pub source: PersonaSourceDTO,
}

/// Persona configuration record V2 (schema 2.0.0): UUID identifiers.
#[derive(Debug, Clone)]
pub struct PersonaConfigV2 {
    pub schema_version: String,
    pub id: String,
    pub name: String,
    pub role: String,
    pub background: String,
    pub communication_style: String,
    pub default_participant: bool,
    pub source: PersonaSourceDTO,
}

/// A file uploaded to a workspace, as first stored.
#[derive(Debug, Clone)]
pub struct UploadedFileV1 {
    pub schema_version: String,
    pub id: String,
    /// Original filename.
    pub name: String,
    /// Path of the stored file.
    pub path: String,
    pub mime_type: String,
    /// Size in bytes.
    pub size: u64,
    /// UNIX timestamp of the upload.
    pub uploaded_at: i64,
}

/// A generated document or artifact, as first stored.
#[derive(Debug, Clone)]
pub struct GeneratedDocV1 {
    pub schema_version: String,
    pub id: String,
    pub title: String,
    /// Path of the stored document.
    pub path: String,
    /// Kind of document (e.g. "summary", "analysis", "diagram").
    pub doc_type: String,
    /// Session that generated the document.
    pub session_id: String,
    /// UNIX timestamp of generation.
    pub generated_at: i64,
}

/// Root of the persona configuration file, V2 records.
#[derive(Debug, Clone)]
pub struct ConfigRootV2 {
    pub personas: Vec<PersonaConfigV2>,
    /// User profile (absent in older files).
    pub user_profile: Option<UserProfileV1_1>,
}

/// Root of the persona configuration file, V1 records.
#[derive(Debug, Clone)]
pub struct ConfigRootV1 {
    pub personas: Vec<PersonaConfigV1>,
    /// Workspaces managed by the system.
    pub workspaces: Vec<crate::workspace_dto::WorkspaceV1>,
}

/// The domain source of a stored source.
pub open spec fn spec_source_into_domain(s: PersonaSourceDTO) -> PersonaSource {
    match s {
        PersonaSourceDTO::System => PersonaSource::System,
        PersonaSourceDTO::User => PersonaSource::User,
    }
}

/// The stored source of a domain source.
pub open spec fn spec_source_from_domain(s: PersonaSource) -> PersonaSourceDTO {
    match s {
        PersonaSource::System => PersonaSourceDTO::System,
        PersonaSource::User => PersonaSourceDTO::User,
    }
}

impl PersonaSourceDTO {
    /// The domain source.
    pub fn into_domain(self) -> (r: PersonaSource)
        ensures
            r == spec_source_into_domain(self),
    {
        match self {
            PersonaSourceDTO::System => PersonaSource::System,
            PersonaSourceDTO::User => PersonaSource::User,
        }
    }

    /// The stored form of a domain source.
    pub fn from_domain(source: PersonaSource) -> (r: Self)
        ensures
            r == spec_source_from_domain(source),
    {
        match source {
            PersonaSource::System => PersonaSourceDTO::System,
            PersonaSource::User => PersonaSourceDTO::User,
        }
    }
}

/// Migrating a V1 persona record: identifier made a UUID, schema 2.0.0, all
/// else kept.
pub open spec fn spec_persona_v1_to_v2(v1: PersonaConfigV1, r: PersonaConfigV2) -> bool {
    &&& r.schema_version@ == PERSONA_CONFIG_V2_VERSION@
    &&& r.id@ == spec_uuid_or_from_name(v1.id@, v1.name@)
    &&& r.name == v1.name
    &&& r.role == v1.role
    &&& r.background == v1.background
    &&& r.communication_style == v1.communication_style
    &&& r.default_participant == v1.default_participant
    &&& r.source == v1.source
}

impl PersonaConfigV1 {
    /// Migrates to V2: keeps a UUID identifier, else derives one from the name.
    pub fn migrate(self) -> (r: PersonaConfigV2)
        ensures
            spec_persona_v1_to_v2(self, r),
            is_uuid_text(r.id@),
    {
        let id = uuid_or_from_name(self.id, self.name.as_str());
        PersonaConfigV2 {
            schema_version: String::from_str(PERSONA_CONFIG_V2_VERSION),
            id,
            name: self.name,
            role: self.role,
            background: self.background,
            communication_style: self.communication_style,
            default_participant: self.default_participant,
            source: self.source,
        }
    }

    /// The V1 record of a persona (kept for backward compatibility).
    pub fn from_persona(persona: &Persona) -> (r: Self)
        ensures
            r.schema_version@ == PERSONA_CONFIG_V1_VERSION@,
            r.id == persona.id,
            r.name == persona.name,
            r.role == persona.role,
            r.background == persona.background,
            r.communication_style == persona.communication_style,
            r.default_participant == persona.default_participant,
            r.source == spec_source_from_domain(persona.source),
    {
        PersonaConfigV1 {
            schema_version: String::from_str(PERSONA_CONFIG_V1_VERSION),
            id: persona.id.clone(),
            name: persona.name.clone(),
            role: persona.role.clone(),
            background: persona.background.clone(),
            communication_style: persona.communication_style.clone(),
            default_participant: persona.default_participant,
            source: PersonaSourceDTO::from_domain(persona.source),
        }
    }
}

/// Reading a V2 persona record: a non-UUID identifier (legacy data) is
/// replaced as in the V1 → V2 migration; the fields this record lacks take
/// their defaults.
pub open spec fn spec_persona_v2_into_domain(v2: PersonaConfigV2, p: Persona) -> bool {
    &&& p.id@ == spec_uuid_or_from_name(v2.id@, v2.name@)
    &&& p.name == v2.name
    &&& p.role == v2.role
    &&& p.background == v2.background
    &&& p.communication_style == v2.communication_style
    &&& p.default_participant == v2.default_participant
    &&& p.source == spec_source_into_domain(v2.source)
    &&& p.backend == PersonaBackend::ClaudeCli
    &&& p.model_name is None
    &&& p.icon is None
    &&& p.base_color is None
}

impl PersonaConfigV2 {
    /// The domain persona of this record.
    pub fn into_domain(self) -> (r: Persona)
        ensures
            spec_persona_v2_into_domain(self, r),
            is_uuid_text(r.id@),
    {
        let id = uuid_or_from_name(self.id, self.name.as_str());
        Persona {
            id,
            name: self.name,
            role: self.role,
            background: self.background,
            communication_style: self.communication_style,
            default_participant: self.default_participant,
            source: self.source.into_domain(),
            backend: PersonaBackend::default(),
            model_name: None,
            icon: None,
            base_color: None,
        }
    }

    /// The V2 record of a persona, at the current schema version.
    pub fn from_persona(persona: &Persona) -> (r: Self)
        ensures
            r.schema_version@ == PERSONA_CONFIG_V2_VERSION@,
            r.id == persona.id,
            r.name == persona.name,
            r.role == persona.role,
            r.background == persona.background,
            r.communication_style == persona.communication_style,
            r.default_participant == persona.default_participant,
            r.source == spec_source_from_domain(persona.source),
    {
        PersonaConfigV2 {
            schema_version: String::from_str(PERSONA_CONFIG_V2_VERSION),
            id: persona.id.clone(),
            name: persona.name.clone(),
            role: persona.role.clone(),
            background: persona.background.clone(),
            communication_style: persona.communication_style.clone(),
            default_participant: persona.default_participant,
            source: PersonaSourceDTO::from_domain(persona.source),
        }
    }
}

/// A V1 record read into the domain goes through V2, so its identifier is
/// made a UUID as the migration does.
pub fn persona_from_v1(v1: PersonaConfigV1) -> (r: Persona)
    ensures
        r.id@ == spec_uuid_or_from_name(v1.id@, v1.name@),
        r.name == v1.name,
        r.role == v1.role,
        r.source == spec_source_into_domain(v1.source),
        is_uuid_text(r.id@),
{
    v1.migrate().into_domain()
}

impl SessionV0 {
    /// Migrates to V1: `name` becomes `title`, `created_at` is recorded,
    /// schema 1.1.0; the rest is kept.
    pub fn migrate(self) -> (r: SessionV1)
        ensures
            r.schema_version@ == SESSION_V1_VERSION@,
            r.id == self.id,
            r.title == self.name,
            r.created_at == Some(self.created_at),
            r.updated_at == self.updated_at,
            r.current_persona_id == self.current_persona_id,
            r.persona_histories == self.persona_histories,
            r.app_mode == self.app_mode,
    {
        SessionV1 {
            schema_version: String::from_str(SESSION_V1_VERSION),
            id: self.id,
            title: self.name,
            created_at: Some(self.created_at),
            updated_at: self.updated_at,
            current_persona_id: self.current_persona_id,
            persona_histories: self.persona_histories,
            app_mode: self.app_mode,
        }
    }
}

impl SessionV1 {
    /// The domain session. A record without `created_at` (schema 1.0.0) takes
    /// its `updated_at` as creation time.
    pub fn into_domain(self) -> (r: Session)
        ensures
            r.id == self.id,
            r.title == self.title,
            r.created_at == (match self.created_at {
                Some(c) => c,
                None => self.updated_at,
            }),
            r.updated_at == self.updated_at,
            r.current_persona_id == self.current_persona_id,
            r.persona_histories == self.persona_histories,
            r.app_mode == self.app_mode,
    {
        let created_at = match self.created_at {
            Some(c) => c,
            None => self.updated_at.clone(),
        };
        Session {
            id: self.id,
            title: self.title,
            created_at,
            updated_at: self.updated_at,
            current_persona_id: self.current_persona_id,
            persona_histories: self.persona_histories,
            app_mode: self.app_mode,
        }
    }

    /// The V1 record of a session, at the current schema version.
    pub fn from_session(session: Session) -> (r: Self)
        ensures
            r.schema_version@ == SESSION_V1_VERSION@,
            r.id == session.id,
            r.title == session.title,
            r.created_at == Some(session.created_at),
            r.updated_at == session.updated_at,
            r.current_persona_id == session.current_persona_id,
            r.persona_histories == session.persona_histories,
            r.app_mode == session.app_mode,
    {
        SessionV1 {
            schema_version: String::from_str(SESSION_V1_VERSION),
            id: session.id,
            title: session.title,
            created_at: Some(session.created_at),
            updated_at: session.updated_at,
            current_persona_id: session.current_persona_id,
            persona_histories: session.persona_histories,
            app_mode: session.app_mode,
        }
    }
}

/// Writing a session and reading it back gives the session again.
pub proof fn lemma_session_round_trip(s: Session, v: SessionV1, back: Session)
    requires
        v.id == s.id,
        v.title == s.title,
        v.created_at == Some(s.created_at),
        v.updated_at == s.updated_at,
        v.current_persona_id == s.current_persona_id,
        v.persona_histories == s.persona_histories,
        v.app_mode == s.app_mode,
        back.id == v.id,
        back.title == v.title,
        back.created_at == (match v.created_at {
            Some(c) => c,
            None => v.updated_at,
        }),
        back.updated_at == v.updated_at,
        back.current_persona_id == v.current_persona_id,
        back.persona_histories == v.persona_histories,
        back.app_mode == v.app_mode,
    ensures
        back == s,
{
}

/// Writing a persona with a UUID identifier as V2 and reading it back keeps
/// every field the V2 record has.
pub proof fn lemma_persona_v2_round_trip(p: Persona, v: PersonaConfigV2, back: Persona)
    requires
        is_uuid_text(p.id@),
        v.id == p.id,
        v.name == p.name,
        v.role == p.role,
        v.background == p.background,
        v.communication_style == p.communication_style,
        v.default_participant == p.default_participant,
        v.source == spec_source_from_domain(p.source),
        spec_persona_v2_into_domain(v, back),
    ensures
        back.id@ == p.id@,
        back.name == p.name,
        back.role == p.role,
        back.background == p.background,
        back.communication_style == p.communication_style,
        back.default_participant == p.default_participant,
        back.source == p.source,
{
}

/// Migrating a V1 persona record twice over (V1 → V2, then reading V2 into
/// the domain) leaves the identifier of the migration: the migrated
/// identifier already is a UUID, so reading keeps it.
pub proof fn lemma_persona_migration_idempotent(v1: PersonaConfigV1, v2: PersonaConfigV2, p: Persona)
    requires
        spec_persona_v1_to_v2(v1, v2),
        is_uuid_text(v2.id@),
        spec_persona_v2_into_domain(v2, p),
    ensures
        p.id@ == v2.id@,
{
}

/// A stored persona source reads as the source of the same name, and each
/// source is stored under its own name.
pub proof fn lemma_source_names_kept(a: PersonaSourceDTO, b: PersonaSource)
    ensures
        a == PersonaSourceDTO::System <==> spec_source_into_domain(a) == PersonaSource::System,
        a == PersonaSourceDTO::User <==> spec_source_into_domain(a) == PersonaSource::User,
        b == PersonaSource::System <==> spec_source_from_domain(b) == PersonaSourceDTO::System,
        b == PersonaSource::User <==> spec_source_from_domain(b) == PersonaSourceDTO::User,
{
}

} // verus!
