//! Workspaces: a project's resources and context, and the lightweight metadata
//! that is updated often (last access, favorite flag).
//!
//! Filesystem paths are held as strings.

use vstd::prelude::*;
use std::collections::HashMap;
use vstd::multiset::Multiset;

verus! {

/// A project-level workspace containing all resources and context of a project.
#[derive(Debug, Clone)]
pub struct Workspace {
    /// Unique identifier for the workspace
    pub id: String,
    /// Name of the workspace (typically derived from project name)
    pub name: String,
    /// Root directory path of the project
    pub root_path: String,
    /// Directory where workspace data is stored
    pub workspace_dir: String,
    /// Collection of all workspace resources
    pub resources: WorkspaceResources,
    /// Project-specific context and metadata
    pub project_context: ProjectContext,
    /// Last accessed timestamp (UNIX timestamp in seconds)
    pub last_accessed: i64,
    /// Whether this workspace is marked as favorite
    pub is_favorite: bool,
    /// ID of the last active session in this workspace
    pub last_active_session_id: Option<String>,
}

/// Collection of all resources managed within a workspace.
#[derive(Debug, Clone)]
pub struct WorkspaceResources {
    /// Files uploaded by the user or system
    pub uploaded_files: Vec<UploadedFile>,
    /// Temporary files created during session operations
    pub temp_files: Vec<TempFile>,
}

/// A file uploaded to the workspace.
#[derive(Debug, Clone)]
pub struct UploadedFile {
    /// Unique identifier for the uploaded file
    pub id: String,
    /// Original filename
    pub name: String,
    /// Path to the stored file
    pub path: String,
    /// MIME type of the file
    pub mime_type: String,
    /// File size in bytes
    pub size: u64,
    /// Timestamp when the file was uploaded
    pub uploaded_at: i64,
    /// Session ID if this file was saved from a chat message
    pub session_id: Option<String>,
    /// Message timestamp if this file was saved from a chat message (ISO 8601)
    pub message_timestamp: Option<String>,
    /// Author of the file (user ID, persona ID, or "system")
    pub author: Option<String>,
    /// Whether this file is archived (hidden by default)
    pub is_archived: bool,
    /// Whether this file is marked as favorite (pinned to top)
    pub is_favorite: bool,
    /// Manual sort order within favorites
    pub sort_order: Option<i32>,
}

/// Project-specific context and metadata.
#[derive(Debug, Clone)]
pub struct ProjectContext {
    /// Programming languages detected in the project
    pub languages: Vec<String>,
    /// Build system or framework (e.g., "cargo", "npm", "maven")
    pub build_system: Option<String>,
    /// Project description or purpose
    pub description: Option<String>,
    /// Git repository URL if available
    pub repository_url: Option<String>,
    /// Additional metadata as key-value pairs
    pub metadata: HashMap<String, String>,
}

/// Session-specific workspace view that references the parent workspace.
#[derive(Debug, Clone)]
pub struct SessionWorkspace {
    /// ID of the parent workspace
    pub workspace_id: String,
    /// ID of the current session
    pub session_id: String,
    /// Temporary files specific to this session
    pub session_temp_files: Vec<TempFile>,
}

/// A temporary file created during operations.
#[derive(Debug, Clone)]
pub struct TempFile {
    /// Unique identifier for the temp file
    pub id: String,
    /// Path to the temporary file
    pub path: String,
    /// Purpose or description of the temp file
    pub purpose: String,
    /// Timestamp when the file was created
    pub created_at: i64,
    /// Whether the file should be deleted after session ends
    pub auto_delete: bool,
}

/// Lightweight workspace metadata (frequently updated).
#[derive(Debug, Clone, PartialEq, Eq)]
pub struct WorkspaceMetadata {
    /// Unique identifier for the workspace
    pub id: String,
    /// Name of the workspace
    pub name: String,
    /// Root directory path of the project
    pub root_path: String,
    /// Last accessed timestamp (UNIX timestamp in seconds)
    pub last_accessed: i64,
    /// Whether this workspace is marked as favorite
    pub is_favorite: bool,
}

/// The metadata part of a workspace.
pub open spec fn spec_metadata_of(w: Workspace) -> WorkspaceMetadata {
    WorkspaceMetadata {
        id: w.id,
        name: w.name,
        root_path: w.root_path,
        last_accessed: w.last_accessed,
        is_favorite: w.is_favorite,
    }
}

/// A workspace with the metadata fields replaced and everything else kept.
pub open spec fn spec_apply_metadata(m: WorkspaceMetadata, w: Workspace) -> Workspace {
    Workspace {
        id: m.id,
        name: m.name,
        root_path: m.root_path,
        last_accessed: m.last_accessed,
        is_favorite: m.is_favorite,
        ..w
    }
}

impl WorkspaceMetadata {
    /// Creates metadata from a full workspace.
    pub fn from_workspace(workspace: &Workspace) -> (r: Self)
        ensures
            r == spec_metadata_of(*workspace),
    {
        WorkspaceMetadata {
            id: workspace.id.clone(),
            name: workspace.name.clone(),
            root_path: workspace.root_path.clone(),
            last_accessed: workspace.last_accessed,
            is_favorite: workspace.is_favorite,
        }
    }

    /// Applies these metadata to a workspace, leaving its other fields as they were.
    pub fn apply_to_workspace(&self, workspace: &mut Workspace)
        ensures
            *final(workspace) == spec_apply_metadata(*self, *old(workspace)),
    {
        workspace.id = self.id.clone();
        workspace.name = self.name.clone();
        workspace.root_path = self.root_path.clone();
        workspace.last_accessed = self.last_accessed;
        workspace.is_favorite = self.is_favorite;
    }
}

/// Applying metadata to any workspace and reading the metadata back gives the applied metadata.
pub proof fn lemma_apply_then_read(m: WorkspaceMetadata, w: Workspace)
    ensures
        spec_metadata_of(spec_apply_metadata(m, w)) == m,
{
}

/// Applying a workspace's own metadata leaves it unchanged.
pub proof fn lemma_apply_own_metadata(w: Workspace)
    ensures
        spec_apply_metadata(spec_metadata_of(w), w) == w,
{
}

/// Applying metadata twice is the same as applying the second one.
pub proof fn lemma_apply_last_wins(m1: WorkspaceMetadata, m2: WorkspaceMetadata, w: Workspace)
    ensures
        spec_apply_metadata(m2, spec_apply_metadata(m1, w)) == spec_apply_metadata(m2, w),
{
}

/// Metadata in the order it is listed: none was accessed before one listed
/// after it.
pub open spec fn most_recently_accessed_first(s: Seq<WorkspaceMetadata>) -> bool {
    forall|i: int, j: int| 0 <= i < j < s.len() ==> (#[trigger] s[i]).last_accessed >= (#[trigger] s[j]).last_accessed
}

/// `idx` arranges `orig` into `r`: each entry of `r` is the one at its index
/// in `orig`, and no input position is used twice.
pub open spec fn metadata_arranged(orig: Seq<WorkspaceMetadata>, r: Seq<WorkspaceMetadata>, idx: Seq<int>) -> bool {
    &&& idx.len() == r.len()
    &&& r.len() == orig.len()
    &&& forall|i: int| 0 <= i < r.len() ==> 0 <= #[trigger] idx[i] < orig.len() && r[i] == orig[idx[i]]
    &&& forall|i: int, j: int| 0 <= i < j < r.len() ==> #[trigger] idx[i] != #[trigger] idx[j]
}

/// Entries accessed at the same time keep the order they had.
pub open spec fn access_ties_keep_order(r: Seq<WorkspaceMetadata>, idx: Seq<int>) -> bool {
    forall|i: int, j: int|
        0 <= i < j < r.len() && (#[trigger] r[i]).last_accessed == (#[trigger] r[j]).last_accessed ==> idx[i] < idx[j]
}

/// Orders workspace metadata most recently accessed first, as a stable sort
/// does: entries accessed at the same time keep their relative order. The
/// result holds the same entries.
pub fn sort_metadata_most_recent_first(list: Vec<WorkspaceMetadata>) -> (r: Vec<WorkspaceMetadata>)
    ensures
        r@.to_multiset() == list@.to_multiset(),
        most_recently_accessed_first(r@),
        exists|idx: Seq<int>| metadata_arranged(list@, r@, idx) && access_ties_keep_order(r@, idx),
{
    broadcast use vstd::seq_lib::group_to_multiset_ensures;

    let ghost orig = list@;
    let mut rest = list;
    let n = rest.len();
    let mut r: Vec<WorkspaceMetadata> = Vec::new();
    let ghost mut idx: Seq<int> = Seq::empty();
    let mut k: usize = 0;
    proof {
        assert(r@.to_multiset() =~= Multiset::<WorkspaceMetadata>::empty());
        assert(r@.to_multiset().add(rest@.to_multiset()) =~= orig.to_multiset());
        assert(orig.skip(0) =~= orig);
    }
    while rest.len() > 0
        invariant
            orig.len() == n,
            k + rest@.len() == n,
            rest@ == orig.skip(k as int),
            r@.len() == k,
            idx.len() == k,
            forall|i: int| 0 <= i < k ==> 0 <= #[trigger] idx[i] < k && r@[i] == orig[idx[i]],
            forall|i: int, j: int| 0 <= i < j < k ==> #[trigger] idx[i] != #[trigger] idx[j],
            access_ties_keep_order(r@, idx),
            r@.to_multiset().add(rest@.to_multiset()) == orig.to_multiset(),
            most_recently_accessed_first(r@),
        decreases rest@.len(),
    {
        let ghost rest0 = rest@;
        let x = rest.remove(0);
        proof {
            vstd::seq_lib::to_multiset_remove(rest0, 0);
            vstd::seq_lib::to_multiset_contains(rest0, x);
            assert(rest0.contains(x)) by {
                assert(rest0[0] == x);
            }
            assert(rest0.to_multiset().count(x) > 0);
            assert(rest@.to_multiset() == rest0.to_multiset().remove(x));
            assert(x == orig[k as int]);
            assert(rest@ =~= orig.skip(k as int + 1));
        }
        let mut p: usize = 0;
        while p < r.len()
            invariant
                p <= r@.len(),
                forall|q: int| 0 <= q < p ==> (#[trigger] r@[q]).last_accessed >= x.last_accessed,
            ensures
                p <= r@.len(),
                forall|q: int| 0 <= q < p ==> (#[trigger] r@[q]).last_accessed >= x.last_accessed,
                p < r@.len() ==> r@[p as int].last_accessed < x.last_accessed,
            decreases r@.len() - p,
        {
            if r[p].last_accessed < x.last_accessed {
                break;
            }
            p = p + 1;
        }
        let ghost r0 = r@;
        let ghost idx0 = idx;
        r.insert(p, x);
        proof {
            idx = idx0.insert(p as int, k as int);
            assert forall|i: int| 0 <= i < r@.len() implies r@[i] == (if i < p {
                r0[i]
            } else if i == p {
                x
            } else {
                r0[i - 1]
            }) && idx[i] == (if i < p {
                idx0[i]
            } else if i == p {
                k as int
            } else {
                idx0[i - 1]
            }) by {}
            assert forall|i: int, j: int| 0 <= i < j < r@.len() implies
                (#[trigger] r@[i]).last_accessed >= (#[trigger] r@[j]).last_accessed by {
                if j < p {
                } else if j == p {
                } else if i < p {
                } else if i == p {
                    if j - 1 != p {
                        assert(r0[p as int].last_accessed >= r0[j - 1].last_accessed);
                    }
                } else {
                }
            }
            assert forall|i: int| 0 <= i < k + 1 implies 0 <= #[trigger] idx[i] < k + 1 && r@[i] == orig[idx[i]] by {}
            assert forall|i: int, j: int| 0 <= i < j < k + 1 implies #[trigger] idx[i] != #[trigger] idx[j] by {}
            assert forall|i: int, j: int|
                0 <= i < j < r@.len() && (#[trigger] r@[i]).last_accessed == (#[trigger] r@[j]).last_accessed
                implies idx[i] < idx[j] by {
                if i == p && j > p {
                    if j - 1 != p {
                        assert(r0[p as int].last_accessed >= r0[j - 1].last_accessed);
                    }
                } else if j == p {
                    assert(idx0[i] < k);
                } else if i < p && j > p {
                    assert(r0[i].last_accessed == r0[j - 1].last_accessed);
                } else if i > p {
                    assert(r0[i - 1].last_accessed == r0[j - 1].last_accessed);
                }
            }
            vstd::seq_lib::to_multiset_insert(r0, p as int, x);
            assert(r@.to_multiset() == r0.to_multiset().insert(x));
            assert(r@.to_multiset().add(rest@.to_multiset()) =~= orig.to_multiset());
        }
        k = k + 1;
    }
    proof {
        assert(rest@.to_multiset() =~= Multiset::<WorkspaceMetadata>::empty());
        assert(r@.to_multiset() =~= orig.to_multiset());
        assert(metadata_arranged(orig, r@, idx));
    }
    r
}

/// Workspaces in the order they are listed: none was accessed before one listed
/// after it.
pub open spec fn workspaces_most_recently_accessed_first(s: Seq<Workspace>) -> bool {
    forall|i: int, j: int| 0 <= i < j < s.len() ==> (#[trigger] s[i]).last_accessed >= (#[trigger] s[j]).last_accessed
}

/// `idx` arranges `orig` into `r`: each entry of `r` is the one at its index
/// in `orig`, and no input position is used twice.
pub open spec fn workspaces_arranged(orig: Seq<Workspace>, r: Seq<Workspace>, idx: Seq<int>) -> bool {
    &&& idx.len() == r.len()
    &&& r.len() == orig.len()
    &&& forall|i: int| 0 <= i < r.len() ==> 0 <= #[trigger] idx[i] < orig.len() && r[i] == orig[idx[i]]
    &&& forall|i: int, j: int| 0 <= i < j < r.len() ==> #[trigger] idx[i] != #[trigger] idx[j]
}

/// Entries accessed at the same time keep the order they had.
pub open spec fn workspace_access_ties_keep_order(r: Seq<Workspace>, idx: Seq<int>) -> bool {
    forall|i: int, j: int|
        0 <= i < j < r.len() && (#[trigger] r[i]).last_accessed == (#[trigger] r[j]).last_accessed ==> idx[i] < idx[j]
}

/// Orders workspaces most recently accessed first, as a stable sort
/// does: entries accessed at the same time keep their relative order. The
/// result holds the same entries.
pub fn sort_workspaces_most_recent_first(list: Vec<Workspace>) -> (r: Vec<Workspace>)
    ensures
        r@.to_multiset() == list@.to_multiset(),
        workspaces_most_recently_accessed_first(r@),
        exists|idx: Seq<int>| workspaces_arranged(list@, r@, idx) && workspace_access_ties_keep_order(r@, idx),
{
    broadcast use vstd::seq_lib::group_to_multiset_ensures;

    let ghost orig = list@;
    let mut rest = list;
    let n = rest.len();
    let mut r: Vec<Workspace> = Vec::new();
    let ghost mut idx: Seq<int> = Seq::empty();
    let mut k: usize = 0;
    proof {
        assert(r@.to_multiset() =~= Multiset::<Workspace>::empty());
        assert(r@.to_multiset().add(rest@.to_multiset()) =~= orig.to_multiset());
        assert(orig.skip(0) =~= orig);
    }
    while rest.len() > 0
        invariant
            orig.len() == n,
            k + rest@.len() == n,
            rest@ == orig.skip(k as int),
            r@.len() == k,
            idx.len() == k,
            forall|i: int| 0 <= i < k ==> 0 <= #[trigger] idx[i] < k && r@[i] == orig[idx[i]],
            forall|i: int, j: int| 0 <= i < j < k ==> #[trigger] idx[i] != #[trigger] idx[j],
            workspace_access_ties_keep_order(r@, idx),
            r@.to_multiset().add(rest@.to_multiset()) == orig.to_multiset(),
            workspaces_most_recently_accessed_first(r@),
        decreases rest@.len(),
    {
        let ghost rest0 = rest@;
        let x = rest.remove(0);
        proof {
            vstd::seq_lib::to_multiset_remove(rest0, 0);
            vstd::seq_lib::to_multiset_contains(rest0, x);
            assert(rest0.contains(x)) by {
                assert(rest0[0] == x);
            }
            assert(rest0.to_multiset().count(x) > 0);
            assert(rest@.to_multiset() == rest0.to_multiset().remove(x));
            assert(x == orig[k as int]);
            assert(rest@ =~= orig.skip(k as int + 1));
        }
        let mut p: usize = 0;
        while p < r.len()
            invariant
                p <= r@.len(),
                forall|q: int| 0 <= q < p ==> (#[trigger] r@[q]).last_accessed >= x.last_accessed,
            ensures
                p <= r@.len(),
                forall|q: int| 0 <= q < p ==> (#[trigger] r@[q]).last_accessed >= x.last_accessed,
                p < r@.len() ==> r@[p as int].last_accessed < x.last_accessed,
            decreases r@.len() - p,
        {
            if r[p].last_accessed < x.last_accessed {
                break;
            }
            p = p + 1;
        }
        let ghost r0 = r@;
        let ghost idx0 = idx;
        r.insert(p, x);
        proof {
            idx = idx0.insert(p as int, k as int);
            assert forall|i: int| 0 <= i < r@.len() implies r@[i] == (if i < p {
                r0[i]
            } else if i == p {
                x
            } else {
                r0[i - 1]
            }) && idx[i] == (if i < p {
                idx0[i]
            } else if i == p {
                k as int
            } else {
                idx0[i - 1]
            }) by {}
            assert forall|i: int, j: int| 0 <= i < j < r@.len() implies
                (#[trigger] r@[i]).last_accessed >= (#[trigger] r@[j]).last_accessed by {
                if j < p {
                } else if j == p {
                } else if i < p {
                } else if i == p {
                    if j - 1 != p {
                        assert(r0[p as int].last_accessed >= r0[j - 1].last_accessed);
                    }
                } else {
                }
            }
            assert forall|i: int| 0 <= i < k + 1 implies 0 <= #[trigger] idx[i] < k + 1 && r@[i] == orig[idx[i]] by {}
            assert forall|i: int, j: int| 0 <= i < j < k + 1 implies #[trigger] idx[i] != #[trigger] idx[j] by {}
            assert forall|i: int, j: int|
                0 <= i < j < r@.len() && (#[trigger] r@[i]).last_accessed == (#[trigger] r@[j]).last_accessed
                implies idx[i] < idx[j] by {
                if i == p && j > p {
                    if j - 1 != p {
                        assert(r0[p as int].last_accessed >= r0[j - 1].last_accessed);
                    }
                } else if j == p {
                    assert(idx0[i] < k);
                } else if i < p && j > p {
                    assert(r0[i].last_accessed == r0[j - 1].last_accessed);
                } else if i > p {
                    assert(r0[i - 1].last_accessed == r0[j - 1].last_accessed);
                }
            }
            vstd::seq_lib::to_multiset_insert(r0, p as int, x);
            assert(r@.to_multiset() == r0.to_multiset().insert(x));
            assert(r@.to_multiset().add(rest@.to_multiset()) =~= orig.to_multiset());
        }
        k = k + 1;
    }
    proof {
        assert(rest@.to_multiset() =~= Multiset::<Workspace>::empty());
        assert(r@.to_multiset() =~= orig.to_multiset());
        assert(workspaces_arranged(orig, r@, idx));
    }
    r
}

/// The metadata of a workspace is its identifier, name, root path, last
/// access and favorite flag, each from the field of the same name.
pub proof fn lemma_metadata_of_fields(w: Workspace)
    ensures
        spec_metadata_of(w).id == w.id,
        spec_metadata_of(w).name == w.name,
        spec_metadata_of(w).root_path == w.root_path,
        spec_metadata_of(w).last_accessed == w.last_accessed,
        spec_metadata_of(w).is_favorite == w.is_favorite,
{
}

} // verus!
