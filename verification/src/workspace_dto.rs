//! Workspace records, versions 1.0.0 to 1.3.0, with their parts (temporary
//! files, project context, resources) and the session view of a workspace.
//!
//! Migrations add last access and favorite flag (1.1.0, defaults 0 and false)
//! and the last active session (1.2.0, default none); 1.3.0 changes only the
//! uploaded-file records inside. The directory a workspace's data lives in is
//! computed from its id and not stored: reading a record leaves it empty for
//! the caller to set.

use vstd::prelude::*;
use std::collections::HashMap;
use crate::uploaded_file_dto::{UploadedFileV1_4_0, spec_uploaded_file_into_domain, spec_uploaded_file_from_domain};
use crate::workspace::{
    ProjectContext, SessionWorkspace, TempFile, UploadedFile, Workspace, WorkspaceMetadata,
    WorkspaceResources,
};

verus! {

/// A temporary file record.
#[derive(Debug, Clone)]
pub struct TempFileV1 {
    /// Unique identifier.
    pub id: String,
    /// Path of the temporary file.
    pub path: String,
    /// Purpose of the file.
    pub purpose: String,
    /// Creation timestamp.
    pub created_at: i64,
    /// Whether the file is deleted when the session ends.
    pub auto_delete: bool,
}

/// A project context record.
#[derive(Debug, Clone)]
pub struct ProjectContextV1 {
    /// Programming languages detected in the project.
    pub languages: Vec<String>,
    /// Build system or framework (e.g. "cargo", "npm", "maven").
    pub build_system: Option<String>,
    /// Description of the project.
    pub description: Option<String>,
    /// Git repository URL, if known.
    pub repository_url: Option<String>,
    /// Further metadata as key-value pairs.
    pub metadata: HashMap<String, String>,
}

/// A workspace resources record.
#[derive(Debug, Clone)]
pub struct WorkspaceResourcesV1 {
    /// Uploaded files.
    pub uploaded_files: Vec<UploadedFileV1_4_0>,
    /// Temporary files.
    pub temp_files: Vec<TempFileV1>,
}

/// A session's view of its workspace.
#[derive(Debug, Clone)]
pub struct SessionWorkspaceV1 {
    /// The parent workspace.
    pub workspace_id: String,
    /// The session.
    pub session_id: String,
    /// Temporary files of this session.
    pub session_temp_files: Vec<TempFileV1>,
}

/// Workspace record, schema 1.0.0.
#[derive(Debug, Clone)]
pub struct WorkspaceV1 {
    /// Unique identifier.
    pub id: String,
    /// Name (typically the project's).
    pub name: String,
    /// Root directory of the project.
    pub root_path: String,
    /// Resources of the workspace.
    pub resources: WorkspaceResourcesV1,
    /// Context and metadata of the project.
    pub project_context: ProjectContextV1,
}

/// Workspace record, schema 1.1.0.
#[derive(Debug, Clone)]
pub struct WorkspaceV1_1_0 {
    /// Unique identifier.
    pub id: String,
    /// Name (typically the project's).
    pub name: String,
    /// Root directory of the project.
    pub root_path: String,
    /// Resources of the workspace.
    pub resources: WorkspaceResourcesV1,
    /// Context and metadata of the project.
    pub project_context: ProjectContextV1,
    /// UNIX timestamp of the last access.
    pub last_accessed: i64,
    /// Whether the workspace is a favorite.
    pub is_favorite: bool,
}

/// Workspace record, schema 1.2.0.
#[derive(Debug, Clone)]
pub struct WorkspaceV1_2_0 {
    /// Unique identifier.
    pub id: String,
    /// Name (typically the project's).
    pub name: String,
    /// Root directory of the project.
    pub root_path: String,
    /// Resources of the workspace.
    pub resources: WorkspaceResourcesV1,
    /// Context and metadata of the project.
    pub project_context: ProjectContextV1,
    /// UNIX timestamp of the last access.
    pub last_accessed: i64,
    /// Whether the workspace is a favorite.
    pub is_favorite: bool,
    /// Last active session in this workspace.
    pub last_active_session_id: Option<String>,
}

/// Workspace record, schema 1.3.0.
#[derive(Debug, Clone)]
pub struct WorkspaceV1_3_0 {
    /// Unique identifier.
    pub id: String,
    /// Name (typically the project's).
    pub name: String,
    /// Root directory of the project.
    pub root_path: String,
    /// Resources of the workspace.
    pub resources: WorkspaceResourcesV1,
    /// Context and metadata of the project.
    pub project_context: ProjectContextV1,
    /// UNIX timestamp of the last access.
    pub last_accessed: i64,
    /// Whether the workspace is a favorite.
    pub is_favorite: bool,
    /// Last active session in this workspace.
    pub last_active_session_id: Option<String>,
}

/// The domain temporary file of a record.
pub open spec fn spec_temp_file_into_domain(t: TempFileV1) -> TempFile {
    TempFile { id: t.id, path: t.path, purpose: t.purpose, created_at: t.created_at, auto_delete: t.auto_delete }
}

/// The record of a domain temporary file.
pub open spec fn spec_temp_file_from_domain(t: TempFile) -> TempFileV1 {
    TempFileV1 { id: t.id, path: t.path, purpose: t.purpose, created_at: t.created_at, auto_delete: t.auto_delete }
}

impl TempFileV1 {
    /// The domain temporary file.
    pub fn into_domain(self) -> (r: TempFile)
        ensures
            r == spec_temp_file_into_domain(self),
    {
        TempFile { id: self.id, path: self.path, purpose: self.purpose, created_at: self.created_at, auto_delete: self.auto_delete }
    }

    /// The record of a domain temporary file.
    pub fn from_domain(t: TempFile) -> (r: Self)
        ensures
            r == spec_temp_file_from_domain(t),
    {
        TempFileV1 { id: t.id, path: t.path, purpose: t.purpose, created_at: t.created_at, auto_delete: t.auto_delete }
    }
}

/// The domain project context of a record.
pub open spec fn spec_project_context_into_domain(c: ProjectContextV1) -> ProjectContext {
    ProjectContext { languages: c.languages, build_system: c.build_system, description: c.description, repository_url: c.repository_url, metadata: c.metadata }
}

/// The record of a domain project context.
pub open spec fn spec_project_context_from_domain(c: ProjectContext) -> ProjectContextV1 {
    ProjectContextV1 { languages: c.languages, build_system: c.build_system, description: c.description, repository_url: c.repository_url, metadata: c.metadata }
}

impl ProjectContextV1 {
    /// The domain project context.
    pub fn into_domain(self) -> (r: ProjectContext)
        ensures
            r == spec_project_context_into_domain(self),
    {
        ProjectContext { languages: self.languages, build_system: self.build_system, description: self.description, repository_url: self.repository_url, metadata: self.metadata }
    }

    /// The record of a domain project context.
    pub fn from_domain(c: ProjectContext) -> (r: Self)
        ensures
            r == spec_project_context_from_domain(c),
    {
        ProjectContextV1 { languages: c.languages, build_system: c.build_system, description: c.description, repository_url: c.repository_url, metadata: c.metadata }
    }
}

/// Reads temporary file records, in order.
pub fn temp_files_into_domain(v: Vec<TempFileV1>) -> (r: Vec<TempFile>)
    ensures
        r@ == v@.map_values(|d: TempFileV1| spec_temp_file_into_domain(d)),
{
    let ghost orig = v@;
    let mut v = v;
    let mut r: Vec<TempFile> = Vec::new();
    while v.len() > 0
        invariant
            r@.len() + v@.len() == orig.len(),
            v@ == orig.subrange(r@.len() as int, orig.len() as int),
            r@ == orig.subrange(0, r@.len() as int).map_values(|d: TempFileV1| spec_temp_file_into_domain(d)),
        decreases v@.len(),
    {
        let ghost k: int = r@.len() as int;
        let d = v.remove(0);
        r.push(TempFileV1::into_domain(d));
        assert(orig.subrange(0, k + 1) =~= orig.subrange(0, k).push(orig[k]));
        assert(r@ =~= orig.subrange(0, r@.len() as int).map_values(|d: TempFileV1| spec_temp_file_into_domain(d)));
        assert(v@ =~= orig.subrange(r@.len() as int, orig.len() as int));
    }
    assert(orig.subrange(0, orig.len() as int) =~= orig);
    r
}

/// Stores temporary files, in order.
pub fn temp_files_from_domain(v: Vec<TempFile>) -> (r: Vec<TempFileV1>)
    ensures
        r@ == v@.map_values(|d: TempFile| spec_temp_file_from_domain(d)),
{
    let ghost orig = v@;
    let mut v = v;
    let mut r: Vec<TempFileV1> = Vec::new();
    while v.len() > 0
        invariant
            r@.len() + v@.len() == orig.len(),
            v@ == orig.subrange(r@.len() as int, orig.len() as int),
            r@ == orig.subrange(0, r@.len() as int).map_values(|d: TempFile| spec_temp_file_from_domain(d)),
        decreases v@.len(),
    {
        let ghost k: int = r@.len() as int;
        let d = v.remove(0);
        r.push(TempFileV1::from_domain(d));
        assert(orig.subrange(0, k + 1) =~= orig.subrange(0, k).push(orig[k]));
        assert(r@ =~= orig.subrange(0, r@.len() as int).map_values(|d: TempFile| spec_temp_file_from_domain(d)));
        assert(v@ =~= orig.subrange(r@.len() as int, orig.len() as int));
    }
    assert(orig.subrange(0, orig.len() as int) =~= orig);
    r
}

/// Reads uploaded-file records, in order.
pub fn uploaded_files_into_domain(v: Vec<UploadedFileV1_4_0>) -> (r: Vec<UploadedFile>)
    ensures
        r@ == v@.map_values(|d: UploadedFileV1_4_0| spec_uploaded_file_into_domain(d)),
{
    let ghost orig = v@;
    let mut v = v;
    let mut r: Vec<UploadedFile> = Vec::new();
    while v.len() > 0
        invariant
            r@.len() + v@.len() == orig.len(),
            v@ == orig.subrange(r@.len() as int, orig.len() as int),
            r@ == orig.subrange(0, r@.len() as int).map_values(|d: UploadedFileV1_4_0| spec_uploaded_file_into_domain(d)),
        decreases v@.len(),
    {
        let ghost k: int = r@.len() as int;
        let d = v.remove(0);
        r.push(UploadedFileV1_4_0::into_domain(d));
        assert(orig.subrange(0, k + 1) =~= orig.subrange(0, k).push(orig[k]));
        assert(r@ =~= orig.subrange(0, r@.len() as int).map_values(|d: UploadedFileV1_4_0| spec_uploaded_file_into_domain(d)));
        assert(v@ =~= orig.subrange(r@.len() as int, orig.len() as int));
    }
    assert(orig.subrange(0, orig.len() as int) =~= orig);
    r
}

/// Stores uploaded files, in order.
pub fn uploaded_files_from_domain(v: Vec<UploadedFile>) -> (r: Vec<UploadedFileV1_4_0>)
    ensures
        r@ == v@.map_values(|d: UploadedFile| spec_uploaded_file_from_domain(d)),
{
    let ghost orig = v@;
    let mut v = v;
    let mut r: Vec<UploadedFileV1_4_0> = Vec::new();
    while v.len() > 0
        invariant
            r@.len() + v@.len() == orig.len(),
            v@ == orig.subrange(r@.len() as int, orig.len() as int),
            r@ == orig.subrange(0, r@.len() as int).map_values(|d: UploadedFile| spec_uploaded_file_from_domain(d)),
        decreases v@.len(),
    {
        let ghost k: int = r@.len() as int;
        let d = v.remove(0);
        r.push(UploadedFileV1_4_0::from_domain(d));
        assert(orig.subrange(0, k + 1) =~= orig.subrange(0, k).push(orig[k]));
        assert(r@ =~= orig.subrange(0, r@.len() as int).map_values(|d: UploadedFile| spec_uploaded_file_from_domain(d)));
        assert(v@ =~= orig.subrange(r@.len() as int, orig.len() as int));
    }
    assert(orig.subrange(0, orig.len() as int) =~= orig);
    r
}

impl WorkspaceResourcesV1 {
    /// The domain resources: every file read, in order.
    pub fn into_domain(self) -> (r: WorkspaceResources)
        ensures
            r.uploaded_files@ == self.uploaded_files@.map_values(|d: UploadedFileV1_4_0| spec_uploaded_file_into_domain(d)),
            r.temp_files@ == self.temp_files@.map_values(|d: TempFileV1| spec_temp_file_into_domain(d)),
    {
        WorkspaceResources {
            uploaded_files: uploaded_files_into_domain(self.uploaded_files),
            temp_files: temp_files_into_domain(self.temp_files),
        }
    }

    /// The record of domain resources: every file stored, in order.
    pub fn from_domain(res: WorkspaceResources) -> (r: Self)
        ensures
            r.uploaded_files@ == res.uploaded_files@.map_values(|d: UploadedFile| spec_uploaded_file_from_domain(d)),
            r.temp_files@ == res.temp_files@.map_values(|d: TempFile| spec_temp_file_from_domain(d)),
    {
        WorkspaceResourcesV1 {
            uploaded_files: uploaded_files_from_domain(res.uploaded_files),
            temp_files: temp_files_from_domain(res.temp_files),
        }
    }
}

impl SessionWorkspaceV1 {
    /// The domain session workspace.
    pub fn into_domain(self) -> (r: SessionWorkspace)
        ensures
            r.workspace_id == self.workspace_id,
            r.session_id == self.session_id,
            r.session_temp_files@ == self.session_temp_files@.map_values(|d: TempFileV1| spec_temp_file_into_domain(d)),
    {
        SessionWorkspace {
            workspace_id: self.workspace_id,
            session_id: self.session_id,
            session_temp_files: temp_files_into_domain(self.session_temp_files),
        }
    }

    /// The record of a domain session workspace.
    pub fn from_domain(s: SessionWorkspace) -> (r: Self)
        ensures
            r.workspace_id == s.workspace_id,
            r.session_id == s.session_id,
            r.session_temp_files@ == s.session_temp_files@.map_values(|d: TempFile| spec_temp_file_from_domain(d)),
    {
        SessionWorkspaceV1 {
            workspace_id: s.workspace_id,
            session_id: s.session_id,
            session_temp_files: temp_files_from_domain(s.session_temp_files),
        }
    }
}

impl WorkspaceV1 {
    /// Migrates to schema 1.1.0.
    pub fn migrate(self) -> (r: WorkspaceV1_1_0)
        ensures
            r == (WorkspaceV1_1_0 {
                id: self.id,
                name: self.name,
                root_path: self.root_path,
                resources: self.resources,
                project_context: self.project_context,
                last_accessed: 0,
                is_favorite: false,
            }),
    {
        WorkspaceV1_1_0 {
            id: self.id,
            name: self.name,
            root_path: self.root_path,
            resources: self.resources,
            project_context: self.project_context,
            last_accessed: 0,
            is_favorite: false,
        }
    }
}

impl WorkspaceV1_1_0 {
    /// Migrates to schema 1.2.0.
    pub fn migrate(self) -> (r: WorkspaceV1_2_0)
        ensures
            r == (WorkspaceV1_2_0 {
                id: self.id,
                name: self.name,
                root_path: self.root_path,
                resources: self.resources,
                project_context: self.project_context,
                last_accessed: self.last_accessed,
                is_favorite: self.is_favorite,
                last_active_session_id: None,
            }),
    {
        WorkspaceV1_2_0 {
            id: self.id,
            name: self.name,
            root_path: self.root_path,
            resources: self.resources,
            project_context: self.project_context,
            last_accessed: self.last_accessed,
            is_favorite: self.is_favorite,
            last_active_session_id: None,
        }
    }
}

impl WorkspaceV1_2_0 {
    /// Migrates to schema 1.3.0.
    pub fn migrate(self) -> (r: WorkspaceV1_3_0)
        ensures
            r == (WorkspaceV1_3_0 {
                id: self.id,
                name: self.name,
                root_path: self.root_path,
                resources: self.resources,
                project_context: self.project_context,
                last_accessed: self.last_accessed,
                is_favorite: self.is_favorite,
                last_active_session_id: self.last_active_session_id,
            }),
    {
        WorkspaceV1_3_0 {
            id: self.id,
            name: self.name,
            root_path: self.root_path,
            resources: self.resources,
            project_context: self.project_context,
            last_accessed: self.last_accessed,
            is_favorite: self.is_favorite,
            last_active_session_id: self.last_active_session_id,
        }
    }
}

impl WorkspaceV1 {
    /// The domain workspace; fields this schema lacks take their defaults and
    /// the data directory is left empty.
    pub fn into_domain(self) -> (r: Workspace)
        ensures
            r.id == self.id,
            r.name == self.name,
            r.root_path == self.root_path,
            r.workspace_dir@ == Seq::<char>::empty(),
            r.resources.uploaded_files@ == self.resources.uploaded_files@.map_values(|d: UploadedFileV1_4_0| spec_uploaded_file_into_domain(d)),
            r.resources.temp_files@ == self.resources.temp_files@.map_values(|d: TempFileV1| spec_temp_file_into_domain(d)),
            r.project_context == spec_project_context_into_domain(self.project_context),
            r.last_accessed == 0,
            r.is_favorite == false,
            r.last_active_session_id is None,
    {
        Workspace {
            id: self.id,
            name: self.name,
            root_path: self.root_path,
            workspace_dir: String::new(),
            resources: self.resources.into_domain(),
            project_context: self.project_context.into_domain(),
            last_accessed: 0,
            is_favorite: false,
            last_active_session_id: None,
        }
    }

    /// The record of a domain workspace at this schema.
    pub fn from_domain(w: Workspace) -> (r: Self)
        ensures
            r.id == w.id,
            r.name == w.name,
            r.root_path == w.root_path,
            r.resources.uploaded_files@ == w.resources.uploaded_files@.map_values(|d: UploadedFile| spec_uploaded_file_from_domain(d)),
            r.resources.temp_files@ == w.resources.temp_files@.map_values(|d: TempFile| spec_temp_file_from_domain(d)),
            r.project_context == spec_project_context_from_domain(w.project_context),
    {
        WorkspaceV1 {
            id: w.id,
            name: w.name,
            root_path: w.root_path,
            resources: WorkspaceResourcesV1::from_domain(w.resources),
            project_context: ProjectContextV1::from_domain(w.project_context),
        }
    }
}

impl WorkspaceV1_1_0 {
    /// The domain workspace; fields this schema lacks take their defaults and
    /// the data directory is left empty.
    pub fn into_domain(self) -> (r: Workspace)
        ensures
            r.id == self.id,
            r.name == self.name,
            r.root_path == self.root_path,
            r.workspace_dir@ == Seq::<char>::empty(),
            r.resources.uploaded_files@ == self.resources.uploaded_files@.map_values(|d: UploadedFileV1_4_0| spec_uploaded_file_into_domain(d)),
            r.resources.temp_files@ == self.resources.temp_files@.map_values(|d: TempFileV1| spec_temp_file_into_domain(d)),
            r.project_context == spec_project_context_into_domain(self.project_context),
            r.last_accessed == self.last_accessed,
            r.is_favorite == self.is_favorite,
            r.last_active_session_id is None,
    {
        Workspace {
            id: self.id,
            name: self.name,
            root_path: self.root_path,
            workspace_dir: String::new(),
            resources: self.resources.into_domain(),
            project_context: self.project_context.into_domain(),
            last_accessed: self.last_accessed,
            is_favorite: self.is_favorite,
            last_active_session_id: None,
        }
    }

    /// The record of a domain workspace at this schema.
    pub fn from_domain(w: Workspace) -> (r: Self)
        ensures
            r.id == w.id,
            r.name == w.name,
            r.root_path == w.root_path,
            r.resources.uploaded_files@ == w.resources.uploaded_files@.map_values(|d: UploadedFile| spec_uploaded_file_from_domain(d)),
            r.resources.temp_files@ == w.resources.temp_files@.map_values(|d: TempFile| spec_temp_file_from_domain(d)),
            r.project_context == spec_project_context_from_domain(w.project_context),
            r.last_accessed == w.last_accessed,
            r.is_favorite == w.is_favorite,
    {
        WorkspaceV1_1_0 {
            id: w.id,
            name: w.name,
            root_path: w.root_path,
            resources: WorkspaceResourcesV1::from_domain(w.resources),
            project_context: ProjectContextV1::from_domain(w.project_context),
            last_accessed: w.last_accessed,
            is_favorite: w.is_favorite,
        }
    }
}

impl WorkspaceV1_2_0 {
    /// The domain workspace; fields this schema lacks take their defaults and
    /// the data directory is left empty.
    pub fn into_domain(self) -> (r: Workspace)
        ensures
            r.id == self.id,
            r.name == self.name,
            r.root_path == self.root_path,
            r.workspace_dir@ == Seq::<char>::empty(),
            r.resources.uploaded_files@ == self.resources.uploaded_files@.map_values(|d: UploadedFileV1_4_0| spec_uploaded_file_into_domain(d)),
            r.resources.temp_files@ == self.resources.temp_files@.map_values(|d: TempFileV1| spec_temp_file_into_domain(d)),
            r.project_context == spec_project_context_into_domain(self.project_context),
            r.last_accessed == self.last_accessed,
            r.is_favorite == self.is_favorite,
            r.last_active_session_id == self.last_active_session_id,
    {
        Workspace {
            id: self.id,
            name: self.name,
            root_path: self.root_path,
            workspace_dir: String::new(),
            resources: self.resources.into_domain(),
            project_context: self.project_context.into_domain(),
            last_accessed: self.last_accessed,
            is_favorite: self.is_favorite,
            last_active_session_id: self.last_active_session_id,
        }
    }

    /// The record of a domain workspace at this schema.
    pub fn from_domain(w: Workspace) -> (r: Self)
        ensures
            r.id == w.id,
            r.name == w.name,
            r.root_path == w.root_path,
            r.resources.uploaded_files@ == w.resources.uploaded_files@.map_values(|d: UploadedFile| spec_uploaded_file_from_domain(d)),
            r.resources.temp_files@ == w.resources.temp_files@.map_values(|d: TempFile| spec_temp_file_from_domain(d)),
            r.project_context == spec_project_context_from_domain(w.project_context),
            r.last_accessed == w.last_accessed,
            r.is_favorite == w.is_favorite,
            r.last_active_session_id == w.last_active_session_id,
    {
        WorkspaceV1_2_0 {
            id: w.id,
            name: w.name,
            root_path: w.root_path,
            resources: WorkspaceResourcesV1::from_domain(w.resources),
            project_context: ProjectContextV1::from_domain(w.project_context),
            last_accessed: w.last_accessed,
            is_favorite: w.is_favorite,
            last_active_session_id: w.last_active_session_id,
        }
    }
}

impl WorkspaceV1_3_0 {
    /// The domain workspace; fields this schema lacks take their defaults and
    /// the data directory is left empty.
    pub fn into_domain(self) -> (r: Workspace)
        ensures
            r.id == self.id,
            r.name == self.name,
            r.root_path == self.root_path,
            r.workspace_dir@ == Seq::<char>::empty(),
            r.resources.uploaded_files@ == self.resources.uploaded_files@.map_values(|d: UploadedFileV1_4_0| spec_uploaded_file_into_domain(d)),
            r.resources.temp_files@ == self.resources.temp_files@.map_values(|d: TempFileV1| spec_temp_file_into_domain(d)),
            r.project_context == spec_project_context_into_domain(self.project_context),
            r.last_accessed == self.last_accessed,
            r.is_favorite == self.is_favorite,
            r.last_active_session_id == self.last_active_session_id,
    {
        Workspace {
            id: self.id,
            name: self.name,
            root_path: self.root_path,
            workspace_dir: String::new(),
            resources: self.resources.into_domain(),
            project_context: self.project_context.into_domain(),
            last_accessed: self.last_accessed,
            is_favorite: self.is_favorite,
            last_active_session_id: self.last_active_session_id,
        }
    }

    /// The record of a domain workspace at this schema.
    pub fn from_domain(w: Workspace) -> (r: Self)
        ensures
            r.id == w.id,
            r.name == w.name,
            r.root_path == w.root_path,
            r.resources.uploaded_files@ == w.resources.uploaded_files@.map_values(|d: UploadedFile| spec_uploaded_file_from_domain(d)),
            r.resources.temp_files@ == w.resources.temp_files@.map_values(|d: TempFile| spec_temp_file_from_domain(d)),
            r.project_context == spec_project_context_from_domain(w.project_context),
            r.last_accessed == w.last_accessed,
            r.is_favorite == w.is_favorite,
            r.last_active_session_id == w.last_active_session_id,
    {
        WorkspaceV1_3_0 {
            id: w.id,
            name: w.name,
            root_path: w.root_path,
            resources: WorkspaceResourcesV1::from_domain(w.resources),
            project_context: ProjectContextV1::from_domain(w.project_context),
            last_accessed: w.last_accessed,
            is_favorite: w.is_favorite,
            last_active_session_id: w.last_active_session_id,
        }
    }
}

/// Storing a temporary file and reading it back gives it again.
pub proof fn lemma_temp_file_round_trip(t: TempFile)
    ensures
        spec_temp_file_into_domain(spec_temp_file_from_domain(t)) == t,
{
}

/// Storing a project context and reading it back gives it again.
pub proof fn lemma_project_context_round_trip(c: ProjectContext)
    ensures
        spec_project_context_into_domain(spec_project_context_from_domain(c)) == c,
{
}

/// A stored workspace record of any schema.
pub enum WorkspaceRecord {
    V1(WorkspaceV1),
    V1_1_0(WorkspaceV1_1_0),
    V1_2_0(WorkspaceV1_2_0),
    V1_3_0(WorkspaceV1_3_0),
}

/// A workspace record brought to schema 1.3.0: fields a schema lacks take
/// their defaults (never accessed, not a favorite, no last active session).
pub open spec fn spec_workspace_latest(rec: WorkspaceRecord) -> WorkspaceV1_3_0 {
    match rec {
        WorkspaceRecord::V1(w) => WorkspaceV1_3_0 {
            id: w.id,
            name: w.name,
            root_path: w.root_path,
            resources: w.resources,
            project_context: w.project_context,
            last_accessed: 0,
            is_favorite: false,
            last_active_session_id: None,
        },
        WorkspaceRecord::V1_1_0(w) => WorkspaceV1_3_0 {
            id: w.id,
            name: w.name,
            root_path: w.root_path,
            resources: w.resources,
            project_context: w.project_context,
            last_accessed: w.last_accessed,
            is_favorite: w.is_favorite,
            last_active_session_id: None,
        },
        WorkspaceRecord::V1_2_0(w) => WorkspaceV1_3_0 {
            id: w.id,
            name: w.name,
            root_path: w.root_path,
            resources: w.resources,
            project_context: w.project_context,
            last_accessed: w.last_accessed,
            is_favorite: w.is_favorite,
            last_active_session_id: w.last_active_session_id,
        },
        WorkspaceRecord::V1_3_0(w) => w,
    }
}

/// Migrates a stored workspace of any schema, step by step, to schema 1.3.0.
pub fn migrate_workspace_to_latest(rec: WorkspaceRecord) -> (r: WorkspaceV1_3_0)
    ensures
        r == spec_workspace_latest(rec),
{
    match rec {
        WorkspaceRecord::V1(w) => w.migrate().migrate().migrate(),
        WorkspaceRecord::V1_1_0(w) => w.migrate().migrate(),
        WorkspaceRecord::V1_2_0(w) => w.migrate(),
        WorkspaceRecord::V1_3_0(w) => w,
    }
}

/// Workspace metadata record, schema 1.0.0.
#[derive(Debug, Clone)]
pub struct WorkspaceMetadataV1_0 {
    /// Unique identifier for the workspace.
    pub id: String,
    /// Name of the workspace.
    pub name: String,
    /// Root directory path of the project.
    pub root_path: String,
    /// Last accessed timestamp (UNIX timestamp in seconds).
    pub last_accessed: i64,
    /// Whether this workspace is marked as favorite (false when absent).
    pub is_favorite: bool,
}

impl Default for WorkspaceMetadataV1_0 {
    /// Empty id, name and path, never accessed, not a favorite.
    fn default() -> (r: Self)
        ensures
            r.id@.len() == 0,
            r.name@.len() == 0,
            r.root_path@.len() == 0,
            r.last_accessed == 0,
            !r.is_favorite,
    {
        WorkspaceMetadataV1_0 {
            id: String::new(),
            name: String::new(),
            root_path: String::new(),
            last_accessed: 0,
            is_favorite: false,
        }
    }
}

/// The domain metadata of a record: every field carried over.
pub open spec fn spec_metadata_into_domain(d: WorkspaceMetadataV1_0) -> WorkspaceMetadata {
    WorkspaceMetadata {
        id: d.id,
        name: d.name,
        root_path: d.root_path,
        last_accessed: d.last_accessed,
        is_favorite: d.is_favorite,
    }
}

/// The record of domain metadata.
pub open spec fn spec_metadata_from_domain(m: WorkspaceMetadata) -> WorkspaceMetadataV1_0 {
    WorkspaceMetadataV1_0 {
        id: m.id,
        name: m.name,
        root_path: m.root_path,
        last_accessed: m.last_accessed,
        is_favorite: m.is_favorite,
    }
}

impl WorkspaceMetadataV1_0 {
    /// The domain metadata.
    pub fn into_domain(self) -> (r: WorkspaceMetadata)
        ensures
            r == spec_metadata_into_domain(self),
    {
        WorkspaceMetadata {
            id: self.id,
            name: self.name,
            root_path: self.root_path,
            last_accessed: self.last_accessed,
            is_favorite: self.is_favorite,
        }
    }

    /// The record of domain metadata.
    pub fn from_domain(metadata: WorkspaceMetadata) -> (r: Self)
        ensures
            r == spec_metadata_from_domain(metadata),
    {
        WorkspaceMetadataV1_0 {
            id: metadata.id,
            name: metadata.name,
            root_path: metadata.root_path,
            last_accessed: metadata.last_accessed,
            is_favorite: metadata.is_favorite,
        }
    }
}

/// Storing workspace metadata and reading it back gives it again.
pub proof fn lemma_metadata_round_trip(m: WorkspaceMetadata)
    ensures
        spec_metadata_into_domain(spec_metadata_from_domain(m)) == m,
{
}

/// Reading a project context keeps every field in the field of the same
/// name (languages, build system, description, repository URL, metadata),
/// and so does storing one.
pub proof fn lemma_project_context_fields_kept(c: ProjectContextV1, d: ProjectContext)
    ensures
        spec_project_context_into_domain(c).languages == c.languages,
        spec_project_context_into_domain(c).build_system == c.build_system,
        spec_project_context_into_domain(c).description == c.description,
        spec_project_context_into_domain(c).repository_url == c.repository_url,
        spec_project_context_into_domain(c).metadata == c.metadata,
        spec_project_context_from_domain(d).languages == d.languages,
        spec_project_context_from_domain(d).build_system == d.build_system,
        spec_project_context_from_domain(d).description == d.description,
        spec_project_context_from_domain(d).repository_url == d.repository_url,
        spec_project_context_from_domain(d).metadata == d.metadata,
{
}

/// Reading a temporary file record keeps every field in the field of the
/// same name, and so does storing one.
pub proof fn lemma_temp_file_fields_kept(t: TempFileV1, d: TempFile)
    ensures
        spec_temp_file_into_domain(t).id == t.id,
        spec_temp_file_into_domain(t).path == t.path,
        spec_temp_file_into_domain(t).purpose == t.purpose,
        spec_temp_file_into_domain(t).created_at == t.created_at,
        spec_temp_file_into_domain(t).auto_delete == t.auto_delete,
        spec_temp_file_from_domain(d).id == d.id,
        spec_temp_file_from_domain(d).path == d.path,
        spec_temp_file_from_domain(d).purpose == d.purpose,
        spec_temp_file_from_domain(d).created_at == d.created_at,
        spec_temp_file_from_domain(d).auto_delete == d.auto_delete,
{
}

/// Reading a workspace metadata record keeps every field in the field of the
/// same name, and so does storing one.
pub proof fn lemma_metadata_fields_kept(a: WorkspaceMetadataV1_0, b: WorkspaceMetadata)
    ensures
        spec_metadata_into_domain(a).id == a.id,
        spec_metadata_into_domain(a).name == a.name,
        spec_metadata_into_domain(a).root_path == a.root_path,
        spec_metadata_into_domain(a).last_accessed == a.last_accessed,
        spec_metadata_into_domain(a).is_favorite == a.is_favorite,
        spec_metadata_from_domain(b).id == b.id,
        spec_metadata_from_domain(b).name == b.name,
        spec_metadata_from_domain(b).root_path == b.root_path,
        spec_metadata_from_domain(b).last_accessed == b.last_accessed,
        spec_metadata_from_domain(b).is_favorite == b.is_favorite,
{
}

/// Migrating a workspace record of any schema keeps its identifier, name,
/// root path, resources and project context; the access time, favorite flag
/// and last active session are kept from the schema that has them, and are
/// otherwise never accessed, not a favorite and none.
pub proof fn lemma_workspace_migration_keeps(rec: WorkspaceRecord)
    ensures
        ({
            let r = spec_workspace_latest(rec);
            match rec {
                WorkspaceRecord::V1(w) => r.id == w.id && r.name == w.name && r.root_path == w.root_path
                    && r.resources == w.resources && r.project_context == w.project_context
                    && r.last_accessed == 0 && !r.is_favorite && r.last_active_session_id is None,
                WorkspaceRecord::V1_1_0(w) => r.id == w.id && r.name == w.name && r.root_path == w.root_path
                    && r.resources == w.resources && r.project_context == w.project_context
                    && r.last_accessed == w.last_accessed && r.is_favorite == w.is_favorite
                    && r.last_active_session_id is None,
                WorkspaceRecord::V1_2_0(w) => r.id == w.id && r.name == w.name && r.root_path == w.root_path
                    && r.resources == w.resources && r.project_context == w.project_context
                    && r.last_accessed == w.last_accessed && r.is_favorite == w.is_favorite
                    && r.last_active_session_id == w.last_active_session_id,
                WorkspaceRecord::V1_3_0(w) => r == w,
            }
        }),
{
}

} // verus!
