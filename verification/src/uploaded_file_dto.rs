//! Uploaded-file records, versions 1.0.0 to 1.4.0, and their migrations.
//!
//! Each migration keeps every field and gives the field it adds its default:
//! no session, message or author (1.1.0), not archived (1.2.0), not a
//! favorite (1.3.0), no manual sort order (1.4.0).

use vstd::prelude::*;
use crate::workspace::UploadedFile;

verus! {

/// Uploaded-file record, schema 1.0.0.
#[derive(Debug, Clone)]
pub struct UploadedFileV1_0_0 {
    /// Unique identifier.
    pub id: String,
    /// Original filename.
    pub name: String,
    /// Path of the stored file.
    pub path: String,
    /// MIME type.
    pub mime_type: String,
    /// Size in bytes.
    pub size: u64,
    /// UNIX timestamp of the upload.
    pub uploaded_at: i64,
}

/// Uploaded-file record, schema 1.1.0.
#[derive(Debug, Clone)]
pub struct UploadedFileV1_1_0 {
    /// Unique identifier.
    pub id: String,
    /// Original filename.
    pub name: String,
    /// Path of the stored file.
    pub path: String,
    /// MIME type.
    pub mime_type: String,
    /// Size in bytes.
    pub size: u64,
    /// UNIX timestamp of the upload.
    pub uploaded_at: i64,
    /// Session the file was saved from, if any.
    pub session_id: Option<String>,
    /// Timestamp (ISO 8601) of the message the file was saved from, if any.
    pub message_timestamp: Option<String>,
    /// Author: a user id, a persona id or "system".
    pub author: Option<String>,
}

/// Uploaded-file record, schema 1.2.0.
#[derive(Debug, Clone)]
pub struct UploadedFileV1_2_0 {
    /// Unique identifier.
    pub id: String,
    /// Original filename.
    pub name: String,
    /// Path of the stored file.
    pub path: String,
    /// MIME type.
    pub mime_type: String,
    /// Size in bytes.
    pub size: u64,
    /// UNIX timestamp of the upload.
    pub uploaded_at: i64,
    /// Session the file was saved from, if any.
    pub session_id: Option<String>,
    /// Timestamp (ISO 8601) of the message the file was saved from, if any.
    pub message_timestamp: Option<String>,
    /// Author: a user id, a persona id or "system".
    pub author: Option<String>,
    /// Archived files are hidden by default.
    pub is_archived: bool,
}

/// Uploaded-file record, schema 1.3.0.
#[derive(Debug, Clone)]
pub struct UploadedFileV1_3_0 {
    /// Unique identifier.
    pub id: String,
    /// Original filename.
    pub name: String,
    /// Path of the stored file.
    pub path: String,
    /// MIME type.
    pub mime_type: String,
    /// Size in bytes.
    pub size: u64,
    /// UNIX timestamp of the upload.
    pub uploaded_at: i64,
    /// Session the file was saved from, if any.
    pub session_id: Option<String>,
    /// Timestamp (ISO 8601) of the message the file was saved from, if any.
    pub message_timestamp: Option<String>,
    /// Author: a user id, a persona id or "system".
    pub author: Option<String>,
    /// Archived files are hidden by default.
    pub is_archived: bool,
    /// Favorites are pinned to the top.
    pub is_favorite: bool,
}

/// Uploaded-file record, schema 1.4.0.
#[derive(Debug, Clone)]
pub struct UploadedFileV1_4_0 {
    /// Unique identifier.
    pub id: String,
    /// Original filename.
    pub name: String,
    /// Path of the stored file.
    pub path: String,
    /// MIME type.
    pub mime_type: String,
    /// Size in bytes.
    pub size: u64,
    /// UNIX timestamp of the upload.
    pub uploaded_at: i64,
    /// Session the file was saved from, if any.
    pub session_id: Option<String>,
    /// Timestamp (ISO 8601) of the message the file was saved from, if any.
    pub message_timestamp: Option<String>,
    /// Author: a user id, a persona id or "system".
    pub author: Option<String>,
    /// Archived files are hidden by default.
    pub is_archived: bool,
    /// Favorites are pinned to the top.
    pub is_favorite: bool,
    /// Manual sort order within favorites.
    pub sort_order: Option<i32>,
}

impl UploadedFileV1_0_0 {
    /// Migrates to schema 1.1.0.
    pub fn migrate(self) -> (r: UploadedFileV1_1_0)
        ensures
            r == (UploadedFileV1_1_0 {
                id: self.id,
                name: self.name,
                path: self.path,
                mime_type: self.mime_type,
                size: self.size,
                uploaded_at: self.uploaded_at,
                session_id: None,
                message_timestamp: None,
                author: None,
            }),
    {
        UploadedFileV1_1_0 {
            id: self.id,
            name: self.name,
            path: self.path,
            mime_type: self.mime_type,
            size: self.size,
            uploaded_at: self.uploaded_at,
            session_id: None,
            message_timestamp: None,
            author: None,
        }
    }
}

impl UploadedFileV1_1_0 {
    /// Migrates to schema 1.2.0.
    pub fn migrate(self) -> (r: UploadedFileV1_2_0)
        ensures
            r == (UploadedFileV1_2_0 {
                id: self.id,
                name: self.name,
                path: self.path,
                mime_type: self.mime_type,
                size: self.size,
                uploaded_at: self.uploaded_at,
                session_id: self.session_id,
                message_timestamp: self.message_timestamp,
                author: self.author,
                is_archived: false,
            }),
    {
        UploadedFileV1_2_0 {
            id: self.id,
            name: self.name,
            path: self.path,
            mime_type: self.mime_type,
            size: self.size,
            uploaded_at: self.uploaded_at,
            session_id: self.session_id,
            message_timestamp: self.message_timestamp,
            author: self.author,
            is_archived: false,
        }
    }
}

impl UploadedFileV1_2_0 {
    /// Migrates to schema 1.3.0.
    pub fn migrate(self) -> (r: UploadedFileV1_3_0)
        ensures
            r == (UploadedFileV1_3_0 {
                id: self.id,
                name: self.name,
                path: self.path,
                mime_type: self.mime_type,
                size: self.size,
                uploaded_at: self.uploaded_at,
                session_id: self.session_id,
                message_timestamp: self.message_timestamp,
                author: self.author,
                is_archived: self.is_archived,
                is_favorite: false,
            }),
    {
        UploadedFileV1_3_0 {
            id: self.id,
            name: self.name,
            path: self.path,
            mime_type: self.mime_type,
            size: self.size,
            uploaded_at: self.uploaded_at,
            session_id: self.session_id,
            message_timestamp: self.message_timestamp,
            author: self.author,
            is_archived: self.is_archived,
            is_favorite: false,
        }
    }
}

impl UploadedFileV1_3_0 {
    /// Migrates to schema 1.4.0.
    pub fn migrate(self) -> (r: UploadedFileV1_4_0)
        ensures
            r == (UploadedFileV1_4_0 {
                id: self.id,
                name: self.name,
                path: self.path,
                mime_type: self.mime_type,
                size: self.size,
                uploaded_at: self.uploaded_at,
                session_id: self.session_id,
                message_timestamp: self.message_timestamp,
                author: self.author,
                is_archived: self.is_archived,
                is_favorite: self.is_favorite,
                sort_order: None,
            }),
    {
        UploadedFileV1_4_0 {
            id: self.id,
            name: self.name,
            path: self.path,
            mime_type: self.mime_type,
            size: self.size,
            uploaded_at: self.uploaded_at,
            session_id: self.session_id,
            message_timestamp: self.message_timestamp,
            author: self.author,
            is_archived: self.is_archived,
            is_favorite: self.is_favorite,
            sort_order: None,
        }
    }
}

/// The domain file of a 1.4.0 record: every field carried over.
pub open spec fn spec_uploaded_file_into_domain(f: UploadedFileV1_4_0) -> UploadedFile {
    UploadedFile {
        id: f.id,
        name: f.name,
        path: f.path,
        mime_type: f.mime_type,
        size: f.size,
        uploaded_at: f.uploaded_at,
        session_id: f.session_id,
        message_timestamp: f.message_timestamp,
        author: f.author,
        is_archived: f.is_archived,
        is_favorite: f.is_favorite,
        sort_order: f.sort_order,
    }
}

/// The 1.4.0 record of a domain file.
pub open spec fn spec_uploaded_file_from_domain(f: UploadedFile) -> UploadedFileV1_4_0 {
    UploadedFileV1_4_0 {
        id: f.id,
        name: f.name,
        path: f.path,
        mime_type: f.mime_type,
        size: f.size,
        uploaded_at: f.uploaded_at,
        session_id: f.session_id,
        message_timestamp: f.message_timestamp,
        author: f.author,
        is_archived: f.is_archived,
        is_favorite: f.is_favorite,
        sort_order: f.sort_order,
    }
}

impl UploadedFileV1_4_0 {
    /// The domain file.
    pub fn into_domain(self) -> (r: UploadedFile)
        ensures
            r == spec_uploaded_file_into_domain(self),
    {
        UploadedFile {
            id: self.id,
            name: self.name,
            path: self.path,
            mime_type: self.mime_type,
            size: self.size,
            uploaded_at: self.uploaded_at,
            session_id: self.session_id,
            message_timestamp: self.message_timestamp,
            author: self.author,
            is_archived: self.is_archived,
            is_favorite: self.is_favorite,
            sort_order: self.sort_order,
        }
    }

    /// The record of a domain file.
    pub fn from_domain(file: UploadedFile) -> (r: Self)
        ensures
            r == spec_uploaded_file_from_domain(file),
    {
        UploadedFileV1_4_0 {
            id: file.id,
            name: file.name,
            path: file.path,
            mime_type: file.mime_type,
            size: file.size,
            uploaded_at: file.uploaded_at,
            session_id: file.session_id,
            message_timestamp: file.message_timestamp,
            author: file.author,
            is_archived: file.is_archived,
            is_favorite: file.is_favorite,
            sort_order: file.sort_order,
        }
    }
}

/// Migrating a 1.0.0 record to the latest schema keeps its six fields and
/// gives every later field its default.
pub fn migrate_uploaded_file_to_latest(f: UploadedFileV1_0_0) -> (r: UploadedFileV1_4_0)
    ensures
        r == (UploadedFileV1_4_0 {
            id: f.id,
            name: f.name,
            path: f.path,
            mime_type: f.mime_type,
            size: f.size,
            uploaded_at: f.uploaded_at,
            session_id: None,
            message_timestamp: None,
            author: None,
            is_archived: false,
            is_favorite: false,
            sort_order: None,
        }),
{
    f.migrate().migrate().migrate().migrate()
}

/// Storing a domain file and reading it back gives the file again, and
/// reading a record and storing it gives the record again.
pub proof fn lemma_uploaded_file_round_trip(f: UploadedFile, r: UploadedFileV1_4_0)
    ensures
        spec_uploaded_file_into_domain(spec_uploaded_file_from_domain(f)) == f,
        spec_uploaded_file_from_domain(spec_uploaded_file_into_domain(r)) == r,
{
}

/// Reading an uploaded file record keeps every field in the field of the same
/// name (an archived file stays archived, a favorite stays a favorite), and
/// so does storing one.
pub proof fn lemma_uploaded_file_fields_kept(a: UploadedFileV1_4_0, b: UploadedFile)
    ensures
        spec_uploaded_file_into_domain(a).id == a.id,
        spec_uploaded_file_into_domain(a).name == a.name,
        spec_uploaded_file_into_domain(a).path == a.path,
        spec_uploaded_file_into_domain(a).mime_type == a.mime_type,
        spec_uploaded_file_into_domain(a).size == a.size,
        spec_uploaded_file_into_domain(a).uploaded_at == a.uploaded_at,
        spec_uploaded_file_into_domain(a).session_id == a.session_id,
        spec_uploaded_file_into_domain(a).message_timestamp == a.message_timestamp,
        spec_uploaded_file_into_domain(a).author == a.author,
        spec_uploaded_file_into_domain(a).is_archived == a.is_archived,
        spec_uploaded_file_into_domain(a).is_favorite == a.is_favorite,
        spec_uploaded_file_into_domain(a).sort_order == a.sort_order,
        spec_uploaded_file_from_domain(b).id == b.id,
        spec_uploaded_file_from_domain(b).name == b.name,
        spec_uploaded_file_from_domain(b).path == b.path,
        spec_uploaded_file_from_domain(b).mime_type == b.mime_type,
        spec_uploaded_file_from_domain(b).size == b.size,
        spec_uploaded_file_from_domain(b).uploaded_at == b.uploaded_at,
        spec_uploaded_file_from_domain(b).session_id == b.session_id,
        spec_uploaded_file_from_domain(b).message_timestamp == b.message_timestamp,
        spec_uploaded_file_from_domain(b).author == b.author,
        spec_uploaded_file_from_domain(b).is_archived == b.is_archived,
        spec_uploaded_file_from_domain(b).is_favorite == b.is_favorite,
        spec_uploaded_file_from_domain(b).sort_order == b.sort_order,
{
}

} // verus!
