//! Records of stored files and the messages exchanged with the transport
//! layer.

use crate::host::{fresh_uuid_text, is_uuid_text, now_millis, text_of};
use vstd::prelude::*;
use vstd::string::StringExecFns;

verus! {

/// One stored file. A record with `encrypted` set describes an envelope at
/// `path`, one without describes raw bytes. A record is never changed after
/// it is made: a transformation makes a new one.
#[derive(Debug, PartialEq, Eq)]
pub struct FileInfo {
    /// Unique identifier of the record.
    pub id: String,
    /// Name under which the file is shown.
    pub filename: String,
    /// Length of the stored bytes.
    pub size: u64,
    /// Media type that was declared for the file, if any.
    pub content_type: Option<String>,
    /// Whether the stored bytes are an envelope.
    pub encrypted: bool,
    /// When the record was made, in milliseconds since the Unix epoch.
    pub uploaded_at: i64,
    /// Where the bytes are stored. Not shown to clients.
    pub path: String,
}

/// The mathematical value of a record: its fields, with text as sequences
/// of characters.
pub struct FileInfoView {
    pub id: Seq<char>,
    pub filename: Seq<char>,
    pub size: u64,
    pub content_type: Option<Seq<char>>,
    pub encrypted: bool,
    pub uploaded_at: i64,
    pub path: Seq<char>,
}

impl View for FileInfo {
    type V = FileInfoView;

    open spec fn view(&self) -> FileInfoView {
        FileInfoView {
            id: self.id@,
            filename: self.filename@,
            size: self.size,
            content_type: text_of(self.content_type),
            encrypted: self.encrypted,
            uploaded_at: self.uploaded_at,
            path: self.path@,
        }
    }
}

/// The record of an upload: plaintext, under the given identity.
pub open spec fn uploaded_record(
    id: Seq<char>,
    uploaded_at: i64,
    filename: Seq<char>,
    size: u64,
    content_type: Option<Seq<char>>,
    path: Seq<char>,
) -> FileInfoView {
    FileInfoView { id, filename, size, content_type, encrypted: false, uploaded_at, path }
}

/// The record of the envelope made from `original`, under the given identity:
/// the name gains the suffix `.encrypted` and the media type becomes
/// `application/octet-stream`.
pub open spec fn encrypted_record(
    id: Seq<char>,
    uploaded_at: i64,
    original: FileInfoView,
    encrypted_path: Seq<char>,
    encrypted_size: u64,
) -> FileInfoView {
    FileInfoView {
        id,
        filename: original.filename + ".encrypted"@,
        size: encrypted_size,
        content_type: Some("application/octet-stream"@),
        encrypted: true,
        uploaded_at,
        path: encrypted_path,
    }
}

/// The value of an optional record.
pub open spec fn view_of(file: Option<FileInfo>) -> Option<FileInfoView> {
    match file {
        Some(file) => Some(file@),
        None => None,
    }
}

impl Clone for FileInfo {
    fn clone(&self) -> (copy: Self)
        ensures
            copy == *self,
    {
        FileInfo {
            id: self.id.clone(),
            filename: self.filename.clone(),
            size: self.size,
            content_type: match &self.content_type {
                Some(content_type) => Some(content_type.clone()),
                None => None,
            },
            encrypted: self.encrypted,
            uploaded_at: self.uploaded_at,
            path: self.path.clone(),
        }
    }
}

impl FileInfo {
    /// The record of an upload, with the identifier and the time given.
    pub fn uploaded(
        id: String,
        uploaded_at: i64,
        filename: String,
        size: u64,
        content_type: Option<String>,
        path: String,
    ) -> (record: Self)
        ensures
            record@ == uploaded_record(
                id@,
                uploaded_at,
                filename@,
                size,
                text_of(content_type),
                path@,
            ),
    {
        FileInfo { id, filename, size, content_type, encrypted: false, uploaded_at, path }
    }

    /// The record of the envelope made from `original`, with the identifier
    /// and the time given.
    pub fn encrypted_from(
        id: String,
        uploaded_at: i64,
        original: &FileInfo,
        encrypted_path: String,
        encrypted_size: u64,
    ) -> (record: Self)
        ensures
            record@ == encrypted_record(
                id@,
                uploaded_at,
                original@,
                encrypted_path@,
                encrypted_size,
            ),
    {
        let filename = original.filename.clone().concat(".encrypted");
        FileInfo {
            id,
            filename,
            size: encrypted_size,
            content_type: Some(String::from_str("application/octet-stream")),
            encrypted: true,
            uploaded_at,
            path: encrypted_path,
        }
    }

    /// The record of an upload, under a fresh identifier and the current
    /// time.
    pub fn new(
        filename: String,
        size: u64,
        content_type: Option<String>,
        path: String,
    ) -> (record: Self)
        ensures
            is_uuid_text(record@.id),
            record@ == uploaded_record(
                record@.id,
                record@.uploaded_at,
                filename@,
                size,
                text_of(content_type),
                path@,
            ),
    {
        FileInfo::uploaded(fresh_uuid_text(), now_millis(), filename, size, content_type, path)
    }

    /// The record of the envelope made from `original`, under a fresh
    /// identifier and the current time.
    pub fn new_encrypted(
        original: &FileInfo,
        encrypted_path: String,
        encrypted_size: u64,
    ) -> (record: Self)
        ensures
            is_uuid_text(record@.id),
            record@ == encrypted_record(
                record@.id,
                record@.uploaded_at,
                original@,
                encrypted_path@,
                encrypted_size,
            ),
    {
        FileInfo::encrypted_from(
            fresh_uuid_text(),
            now_millis(),
            original,
            encrypted_path,
            encrypted_size,
        )
    }
}

/// A request to encrypt a stored file.
#[derive(Debug)]
pub struct EncryptRequest {
    /// Identifier of the record to encrypt.
    pub file_id: String,
    /// Passphrase that the key is derived from.
    pub passphrase: String,
}

/// A request to decrypt a stored file.
#[derive(Debug)]
pub struct DecryptRequest {
    /// Identifier of the record to decrypt.
    pub file_id: String,
    /// Passphrase that the key is derived from.
    pub passphrase: String,
}

/// A request to upload a file and store it encrypted.
#[derive(Debug)]
pub struct UploadEncryptRequest {
    /// Passphrase that the key is derived from.
    pub passphrase: String,
}

/// The answer to an operation on one file.
#[derive(Debug, PartialEq, Eq)]
pub struct FileResponse {
    /// Whether the operation succeeded.
    pub success: bool,
    /// What happened, in words.
    pub message: String,
    /// The record that the operation made, if it made one.
    pub file: Option<FileInfo>,
}

/// The answer to a request for all records.
#[derive(Debug)]
pub struct ListFilesResponse {
    /// The records, in the order in which they were added.
    pub files: Vec<FileInfo>,
}

} // verus!
