//! The file operations as state machines.
//!
//! An operation alternates between deciding and storage work. The deciding
//! is here: each operation is a function from the stage it is in and the
//! storage's last answer to the next stage and the next storage request, or
//! to its end. The caller does the storage work between two calls and holds
//! the ledger. Any answer but the one a stage waits for counts as a storage
//! failure; a stage that only cleans up ends the operation on every answer.

use crate::encryption::{
    decrypted, derived_key, is_cipher_refusal, is_sealing_of, EncryptionError,
};
use crate::host::{is_uuid_text, text_of};
use crate::models::{
    encrypted_record, uploaded_record, DecryptRequest, EncryptRequest, FileInfo, FileInfoView,
    FileResponse, ListFilesResponse, UploadEncryptRequest,
};
use crate::primitives::MAX_PLAINTEXT_LEN;
use crate::store::{lookup, records_of, without, FileStore};
use crate::text::{remove_all, without_text};
use crate::utils::{
    get_encrypted_path, get_upload_path, is_denied_type, is_storage_path, validate_content_type,
    validate_file_size, MAX_FILE_SIZE,
};
use vstd::prelude::*;
use vstd::string::StringExecFns;

verus! {

/// Storage work that the caller does for a running operation.
#[derive(Debug, PartialEq, Eq)]
pub enum StorageAction {
    /// Read all bytes at `path`; answer with `Loaded`.
    Read { path: String },
    /// Write `data` at `path`, replacing what is there; answer with `Stored`.
    Write { path: String, data: Vec<u8> },
    /// Delete what is at `path`; answer with `Removed`.
    Delete { path: String },
}

/// What the storage answered to the last request.
#[derive(Debug, PartialEq, Eq)]
pub enum StorageEvent {
    /// No request was made yet: the operation starts.
    Started,
    /// The bytes that were read.
    Loaded(Vec<u8>),
    /// The bytes were written.
    Stored,
    /// The bytes were deleted.
    Removed,
    /// The request failed; the text says how.
    Failed(String),
}

/// Why an operation ended without its result.
#[derive(Debug, PartialEq, Eq)]
pub enum TransferError {
    /// The request held no file.
    NoFile,
    /// The uploaded file came without a name.
    MissingFilename,
    /// The declared media type is denied.
    InvalidContentType,
    /// The file is larger than the upload limit.
    FileTooLarge,
    /// No record has the requested identifier.
    NotFound,
    /// The record is not in the representation that the operation needs.
    InvalidState,
    /// Storage or the encryption engine failed.
    Engine(EncryptionError),
}

/// Where a step leads: to a next stage and the storage request to make
/// before it, or to the end of the operation.
#[derive(Debug)]
pub enum Step<S, T> {
    /// Do the storage work, then call again with this stage and the answer.
    Continue(S, StorageAction),
    /// The operation has ended with this result.
    Finish(Result<T, TransferError>),
}

/// An uploaded file as the transport layer received it.
#[derive(Debug, PartialEq, Eq)]
pub struct Upload {
    /// The name the client gave, if any.
    pub filename: Option<String>,
    /// The media type the client declared, if any.
    pub content_type: Option<String>,
    /// The bytes of the file.
    pub data: Vec<u8>,
}

/// Bytes handed out to a client.
#[derive(Debug, PartialEq, Eq)]
pub struct Download {
    /// The bytes.
    pub data: Vec<u8>,
    /// The media type to declare.
    pub content_type: String,
    /// The name to offer for saving.
    pub filename: String,
}

/// A file on its way into storage: all of its record but the identity.
#[derive(Debug, PartialEq, Eq)]
pub struct Draft {
    /// Name under which the file will be shown.
    pub filename: String,
    /// Length of the bytes.
    pub size: u64,
    /// Media type that was declared, if any.
    pub content_type: Option<String>,
    /// Where the bytes are being written.
    pub path: String,
}

/// The text of the failure that a storage answer other than the awaited one
/// stands for: a failure's own text, and a fixed one for an answer to a
/// request that was not made.
pub open spec fn failure_text(event: StorageEvent) -> Seq<char> {
    match event {
        StorageEvent::Failed(reason) => reason@,
        _ => "storage did not answer the request"@,
    }
}

/// `error` is the storage failure that `event` stands for.
pub open spec fn is_io_failure(error: EncryptionError, event: StorageEvent) -> bool {
    error matches EncryptionError::Io(text) && text@ == failure_text(event)
}

/// `error` is the failed operation that `event` stands for.
pub open spec fn is_storage_failure(error: TransferError, event: StorageEvent) -> bool {
    error matches TransferError::Engine(cause) && is_io_failure(cause, event)
}

fn io_failure(event: StorageEvent) -> (error: EncryptionError)
    ensures
        is_io_failure(error, event),
{
    match event {
        StorageEvent::Failed(reason) => EncryptionError::Io(reason),
        _ => EncryptionError::Io(String::from_str("storage did not answer the request")),
    }
}

fn storage_failure(event: StorageEvent) -> (error: TransferError)
    ensures
        is_storage_failure(error, event),
{
    TransferError::Engine(io_failure(event))
}

/// Why an upload is refused, if it is: checked in this order, it holds no
/// file, the file has no name, its declared media type is denied, or it is
/// larger than the limit.
pub open spec fn upload_rejection(upload: Option<Upload>) -> Option<TransferError> {
    match upload {
        None => Some(TransferError::NoFile),
        Some(upload) => if upload.filename is None {
            Some(TransferError::MissingFilename)
        } else if upload.content_type matches Some(content_type) && is_denied_type(content_type@) {
            Some(TransferError::InvalidContentType)
        } else if upload.data@.len() > MAX_FILE_SIZE {
            Some(TransferError::FileTooLarge)
        } else {
            None
        },
    }
}

/// An upload that passed the checks of `upload_rejection`.
#[derive(Debug, PartialEq, Eq)]
pub struct Accepted {
    /// The name the client gave.
    pub filename: String,
    /// The media type the client declared, if any.
    pub content_type: Option<String>,
    /// The bytes of the file.
    pub data: Vec<u8>,
}

/// Checks an upload as `upload_rejection` says.
pub fn check_upload(upload: Option<Upload>) -> (checked: Result<Accepted, TransferError>)
    ensures
        match upload_rejection(upload) {
            Some(error) => checked == Err::<Accepted, TransferError>(error),
            None => checked matches Ok(accepted) && upload matches Some(given) && Some(
                accepted.filename,
            ) == given.filename && accepted.content_type == given.content_type && accepted.data
                == given.data,
        },
{
    let upload = match upload {
        Some(upload) => upload,
        None => return Err(TransferError::NoFile),
    };
    let filename = match upload.filename {
        Some(filename) => filename,
        None => return Err(TransferError::MissingFilename),
    };
    match &upload.content_type {
        Some(content_type) => {
            if !validate_content_type(content_type.as_str()) {
                return Err(TransferError::InvalidContentType);
            }
        },
        None => {},
    }
    if !validate_file_size(upload.data.len() as u64) {
        return Err(TransferError::FileTooLarge);
    }
    Ok(Accepted { filename, content_type: upload.content_type, data: upload.data })
}

/// The stages of an upload.
#[derive(Debug)]
pub enum UploadStage {
    /// The request arrived.
    Received(Option<Upload>),
    /// The bytes are being written.
    Saving(Draft),
}

/// What a step of an upload may do.
pub open spec fn upload_transition(
    before: Seq<FileInfoView>,
    stage: UploadStage,
    event: StorageEvent,
    step: Step<UploadStage, FileResponse>,
    after: Seq<FileInfoView>,
) -> bool {
    match stage {
        UploadStage::Received(upload) => {
            &&& after == before
            &&& match upload_rejection(upload) {
                Some(error) => step == Step::<UploadStage, FileResponse>::Finish(Err(error)),
                None => {
                    &&& upload matches Some(given)
                    &&& step matches Step::Continue(
                        UploadStage::Saving(draft),
                        StorageAction::Write { path, data },
                    )
                    &&& data == given.data
                    &&& path == draft.path
                    &&& is_storage_path(path@, "./data/uploads"@, given.filename->0@)
                    &&& Some(draft.filename) == given.filename
                    &&& draft.size == given.data@.len()
                    &&& draft.content_type == given.content_type
                },
            }
        },
        UploadStage::Saving(draft) => {
            if event is Stored {
                &&& step matches Step::Finish(Ok(response))
                &&& response.success
                &&& response.message@ == "File uploaded successfully"@
                &&& response.file matches Some(record)
                &&& is_uuid_text(record@.id)
                &&& record@ == uploaded_record(
                    record@.id,
                    record@.uploaded_at,
                    draft.filename@,
                    draft.size,
                    text_of(draft.content_type),
                    draft.path@,
                )
                &&& after == before.push(record@)
            } else {
                &&& step matches Step::Finish(Err(error))
                &&& is_storage_failure(error, event)
                &&& after == before
            }
        },
    }
}

/// Takes an upload into storage and into the ledger.
pub fn upload_file(store: &mut FileStore, stage: UploadStage, event: StorageEvent) -> (step: Step<
    UploadStage,
    FileResponse,
>)
    ensures
        upload_transition(old(store)@, stage, event, step, final(store)@),
{
    match stage {
        UploadStage::Received(upload) => {
            let accepted = match check_upload(upload) {
                Ok(accepted) => accepted,
                Err(error) => return Step::Finish(Err(error)),
            };
            let path = get_upload_path(accepted.filename.as_str());
            let draft = Draft {
                filename: accepted.filename,
                size: accepted.data.len() as u64,
                content_type: accepted.content_type,
                path: path.clone(),
            };
            Step::Continue(
                UploadStage::Saving(draft),
                StorageAction::Write { path, data: accepted.data },
            )
        },
        UploadStage::Saving(draft) => {
            match event {
                StorageEvent::Stored => {
                    let record = FileInfo::new(
                        draft.filename,
                        draft.size,
                        draft.content_type,
                        draft.path,
                    );
                    store.add_file(record.clone());
                    Step::Finish(
                        Ok(
                            FileResponse {
                                success: true,
                                message: String::from_str("File uploaded successfully"),
                                file: Some(record),
                            },
                        ),
                    )
                },
                other => Step::Finish(Err(storage_failure(other))),
            }
        },
    }
}

/// All records, in the order in which they were added.
pub fn list_files(store: &FileStore) -> (response: ListFilesResponse)
    ensures
        records_of(response.files@) == store@,
{
    ListFilesResponse { files: store.list_files() }
}

/// The stages of encrypting a stored file.
#[derive(Debug)]
pub enum EncryptStage {
    /// The request arrived.
    Requested(EncryptRequest),
    /// The plaintext of `source` is being read; the envelope will go to
    /// `target`.
    Loading { source: FileInfo, passphrase: String, target: String },
    /// The envelope, `size` bytes long, is being written at `target`.
    Writing { source: FileInfo, target: String, size: u64 },
    /// The record `sealed` is in the ledger and the plaintext of `source` is
    /// being deleted.
    Cleaning { source: FileInfo, sealed: FileInfo },
}

/// The name of the envelope made from a file called `filename`.
pub open spec fn encrypted_name(filename: Seq<char>) -> Seq<char> {
    filename + ".encrypted"@
}

/// What a step of encrypting may do. The ledger gains the new record once
/// the envelope is written, and loses the old one only once its plaintext is
/// deleted: if that fails, both stay.
pub open spec fn encrypt_transition(
    before: Seq<FileInfoView>,
    stage: EncryptStage,
    event: StorageEvent,
    step: Step<EncryptStage, FileResponse>,
    after: Seq<FileInfoView>,
) -> bool {
    match stage {
        EncryptStage::Requested(request) => {
            &&& after == before
            &&& match lookup(before, request.file_id@) {
                None => step == Step::<EncryptStage, FileResponse>::Finish(
                    Err(TransferError::NotFound),
                ),
                Some(record) => if record.encrypted {
                    step == Step::<EncryptStage, FileResponse>::Finish(
                        Err(TransferError::InvalidState),
                    )
                } else {
                    &&& step matches Step::Continue(
                        EncryptStage::Loading { source, passphrase, target },
                        StorageAction::Read { path },
                    )
                    &&& source@ == record
                    &&& passphrase == request.passphrase
                    &&& path@ == record.path
                    &&& is_storage_path(
                        target@,
                        "./data/encrypted"@,
                        encrypted_name(record.filename),
                    )
                },
            }
        },
        EncryptStage::Loading { source, passphrase, target } => {
            &&& after == before
            &&& match event {
                StorageEvent::Loaded(plaintext) => if plaintext@.len() <= MAX_PLAINTEXT_LEN {
                    &&& step matches Step::Continue(
                        EncryptStage::Writing { source: kept, target: place, size },
                        StorageAction::Write { path, data },
                    )
                    &&& kept == source
                    &&& place == target
                    &&& path@ == target@
                    &&& size == data@.len()
                    &&& is_sealing_of(data@, plaintext@, derived_key(passphrase@))
                } else {
                    step matches Step::Finish(Err(TransferError::Engine(error)))
                        && is_cipher_refusal(error)
                },
                _ => step matches Step::Finish(Err(error)) && is_storage_failure(error, event),
            }
        },
        EncryptStage::Writing { source, target, size } => {
            if event is Stored {
                &&& step matches Step::Continue(
                    EncryptStage::Cleaning { source: kept, sealed },
                    StorageAction::Delete { path },
                )
                &&& kept == source
                &&& path@ == source@.path
                &&& is_uuid_text(sealed@.id)
                &&& sealed@ == encrypted_record(
                    sealed@.id,
                    sealed@.uploaded_at,
                    source@,
                    target@,
                    size,
                )
                &&& after == before.push(sealed@)
            } else {
                &&& step matches Step::Finish(Err(error))
                &&& is_storage_failure(error, event)
                &&& after == before
            }
        },
        EncryptStage::Cleaning { source, sealed } => {
            &&& step matches Step::Finish(Ok(response))
            &&& response.success
            &&& response.message@ == "File encrypted successfully and original file deleted"@
            &&& response.file == Some(sealed)
            &&& after == if event is Removed {
                without(before, source@.id)
            } else {
                before
            }
        },
    }
}

/// Replaces the plaintext of a stored file by its envelope.
pub fn encrypt_file(store: &mut FileStore, stage: EncryptStage, event: StorageEvent) -> (step: Step<
    EncryptStage,
    FileResponse,
>)
    ensures
        encrypt_transition(old(store)@, stage, event, step, final(store)@),
        stage matches EncryptStage::Requested(request) && lookup(old(store)@, request.file_id@)
            matches Some(record) && record.encrypted ==> step == Step::<
            EncryptStage,
            FileResponse,
        >::Finish(Err(TransferError::InvalidState)),
{
    match stage {
        EncryptStage::Requested(request) => {
            let source = match store.get_file(request.file_id.as_str()) {
                Some(source) => source,
                None => return Step::Finish(Err(TransferError::NotFound)),
            };
            if source.encrypted {
                return Step::Finish(Err(TransferError::InvalidState));
            }
            let name = source.filename.clone().concat(".encrypted");
            let target = get_encrypted_path(name.as_str());
            let path = source.path.clone();
            Step::Continue(
                EncryptStage::Loading { source, passphrase: request.passphrase, target },
                StorageAction::Read { path },
            )
        },
        EncryptStage::Loading { source, passphrase, target } => {
            match event {
                StorageEvent::Loaded(plaintext) => {
                    match crate::encryption::encrypt_file(
                        plaintext.as_slice(),
                        passphrase.as_str(),
                    ) {
                        Ok(envelope) => {
                            let size = envelope.len() as u64;
                            let path = target.clone();
                            Step::Continue(
                                EncryptStage::Writing { source, target, size },
                                StorageAction::Write { path, data: envelope },
                            )
                        },
                        Err(error) => Step::Finish(Err(TransferError::Engine(error))),
                    }
                },
                other => Step::Finish(Err(storage_failure(other))),
            }
        },
        EncryptStage::Writing { source, target, size } => {
            match event {
                StorageEvent::Stored => {
                    let sealed = FileInfo::new_encrypted(&source, target, size);
                    store.add_file(sealed.clone());
                    let path = source.path.clone();
                    Step::Continue(
                        EncryptStage::Cleaning { source, sealed },
                        StorageAction::Delete { path },
                    )
                },
                other => Step::Finish(Err(storage_failure(other))),
            }
        },
        EncryptStage::Cleaning { source, sealed } => {
            match event {
                StorageEvent::Removed => {
                    store.remove_file(source.id.as_str());
                },
                _ => {},
            }
            Step::Finish(
                Ok(
                    FileResponse {
                        success: true,
                        message: String::from_str(
                            "File encrypted successfully and original file deleted",
                        ),
                        file: Some(sealed),
                    },
                ),
            )
        },
    }
}

/// The stages of decrypting a stored file.
#[derive(Debug)]
pub enum DecryptStage {
    /// The request arrived.
    Requested(DecryptRequest),
    /// The envelope is being read. The plaintext will be offered as
    /// `filename` and pass through the scratch file `scratch`.
    Loading { passphrase: String, filename: String, scratch: String },
    /// The plaintext is being written to the scratch file.
    Staging { filename: String, scratch: String },
    /// The scratch file is being read back.
    Fetching { filename: String, scratch: String },
    /// The scratch file is being deleted; `data` is what it held.
    Clearing { filename: String, data: Vec<u8> },
}

/// The name under which the plaintext of an envelope called `filename` is
/// offered: the name without `.encrypted`, wherever it stands.
pub open spec fn decrypted_name(filename: Seq<char>) -> Seq<char> {
    without_text(filename, ".encrypted"@)
}

/// What a step of decrypting may do.
pub open spec fn decrypt_transition(
    records: Seq<FileInfoView>,
    stage: DecryptStage,
    event: StorageEvent,
    step: Step<DecryptStage, Download>,
) -> bool {
    match stage {
        DecryptStage::Requested(request) => match lookup(records, request.file_id@) {
            None => step == Step::<DecryptStage, Download>::Finish(Err(TransferError::NotFound)),
            Some(record) => if !record.encrypted {
                step == Step::<DecryptStage, Download>::Finish(Err(TransferError::InvalidState))
            } else {
                &&& step matches Step::Continue(
                    DecryptStage::Loading { passphrase, filename, scratch },
                    StorageAction::Read { path },
                )
                &&& passphrase == request.passphrase
                &&& path@ == record.path
                &&& filename@ == decrypted_name(record.filename)
                &&& is_storage_path(
                    scratch@,
                    "./data/uploads"@,
                    "temp_decrypted_"@ + filename@,
                )
            },
        },
        DecryptStage::Loading { passphrase, filename, scratch } => match event {
            StorageEvent::Loaded(envelope) => match decrypted(envelope@, passphrase@) {
                Ok(plaintext) => {
                    &&& step matches Step::Continue(
                        DecryptStage::Staging { filename: name, scratch: place },
                        StorageAction::Write { path, data },
                    )
                    &&& name == filename
                    &&& place == scratch
                    &&& path@ == scratch@
                    &&& data@ == plaintext
                },
                Err(failure) => step == Step::<DecryptStage, Download>::Finish(
                    Err(TransferError::Engine(EncryptionError::Decryption(failure))),
                ),
            },
            _ => step matches Step::Finish(Err(error)) && is_storage_failure(error, event),
        },
        DecryptStage::Staging { filename, scratch } => if event is Stored {
            &&& step matches Step::Continue(
                DecryptStage::Fetching { filename: name, scratch: place },
                StorageAction::Read { path },
            )
            &&& name == filename
            &&& place == scratch
            &&& path@ == scratch@
        } else {
            step matches Step::Finish(Err(error)) && is_storage_failure(error, event)
        },
        DecryptStage::Fetching { filename, scratch } => match event {
            StorageEvent::Loaded(bytes) => {
                &&& step matches Step::Continue(
                    DecryptStage::Clearing { filename: name, data },
                    StorageAction::Delete { path },
                )
                &&& name == filename
                &&& data == bytes
                &&& path == scratch
            },
            _ => step matches Step::Finish(Err(error)) && is_storage_failure(error, event),
        },
        DecryptStage::Clearing { filename, data } => {
            &&& step matches Step::Finish(Ok(download))
            &&& download.data == data
            &&& download.filename == filename
            &&& download.content_type@ == "application/octet-stream"@
        },
    }
}

/// Hands out the plaintext of a stored envelope. The ledger is only read:
/// the envelope stays the stored representation, and decrypting can be
/// repeated.
pub fn decrypt_file(store: &FileStore, stage: DecryptStage, event: StorageEvent) -> (step: Step<
    DecryptStage,
    Download,
>)
    ensures
        decrypt_transition(store@, stage, event, step),
        stage matches DecryptStage::Requested(request) && lookup(store@, request.file_id@)
            matches Some(record) && !record.encrypted ==> step == Step::<
            DecryptStage,
            Download,
        >::Finish(Err(TransferError::InvalidState)),
{
    match stage {
        DecryptStage::Requested(request) => {
            let source = match store.get_file(request.file_id.as_str()) {
                Some(source) => source,
                None => return Step::Finish(Err(TransferError::NotFound)),
            };
            if !source.encrypted {
                return Step::Finish(Err(TransferError::InvalidState));
            }
            let filename = remove_all(source.filename.as_str(), ".encrypted");
            let scratch_name = String::from_str("temp_decrypted_").concat(filename.as_str());
            let scratch = get_upload_path(scratch_name.as_str());
            Step::Continue(
                DecryptStage::Loading { passphrase: request.passphrase, filename, scratch },
                StorageAction::Read { path: source.path },
            )
        },
        DecryptStage::Loading { passphrase, filename, scratch } => {
            match event {
                StorageEvent::Loaded(envelope) => {
                    match crate::encryption::decrypt_file(
                        envelope.as_slice(),
                        passphrase.as_str(),
                    ) {
                        Ok(plaintext) => {
                            let path = scratch.clone();
                            Step::Continue(
                                DecryptStage::Staging { filename, scratch },
                                StorageAction::Write { path, data: plaintext },
                            )
                        },
                        Err(error) => Step::Finish(Err(TransferError::Engine(error))),
                    }
                },
                other => Step::Finish(Err(storage_failure(other))),
            }
        },
        DecryptStage::Staging { filename, scratch } => {
            match event {
                StorageEvent::Stored => {
                    let path = scratch.clone();
                    Step::Continue(
                        DecryptStage::Fetching { filename, scratch },
                        StorageAction::Read { path },
                    )
                },
                other => Step::Finish(Err(storage_failure(other))),
            }
        },
        DecryptStage::Fetching { filename, scratch } => {
            match event {
                StorageEvent::Loaded(data) => Step::Continue(
                    DecryptStage::Clearing { filename, data },
                    StorageAction::Delete { path: scratch },
                ),
                other => Step::Finish(Err(storage_failure(other))),
            }
        },
        DecryptStage::Clearing { filename, data } => Step::Finish(
            Ok(
                Download {
                    data,
                    content_type: String::from_str("application/octet-stream"),
                    filename,
                },
            ),
        ),
    }
}

/// The stages of an upload that is stored encrypted.
#[derive(Debug)]
pub enum UploadEncryptStage {
    /// The request arrived.
    Received(Option<Upload>, UploadEncryptRequest),
    /// The plaintext is being written to the scratch file `draft.path`.
    Staging { draft: Draft, passphrase: String },
    /// The scratch file, described by `plain`, is being read back; the
    /// envelope will go to `target`.
    Loading { plain: FileInfo, target: String, passphrase: String },
    /// The envelope, `size` bytes long, is being written at `target`.
    Writing { plain: FileInfo, target: String, size: u64 },
    /// The record `sealed` is in the ledger and the scratch file is being
    /// deleted.
    Clearing { sealed: FileInfo },
    /// The operation failed with `error` and the scratch file is being
    /// deleted.
    Failing { error: EncryptionError },
}

/// What a step of an encrypted upload may do. The plaintext is never put
/// into the ledger, and its scratch file is deleted on every path that wrote
/// it.
pub open spec fn upload_encrypt_transition(
    before: Seq<FileInfoView>,
    stage: UploadEncryptStage,
    event: StorageEvent,
    step: Step<UploadEncryptStage, FileResponse>,
    after: Seq<FileInfoView>,
) -> bool {
    match stage {
        UploadEncryptStage::Received(upload, request) => {
            &&& after == before
            &&& match upload_rejection(upload) {
                Some(error) => step == Step::<UploadEncryptStage, FileResponse>::Finish(
                    Err(error),
                ),
                None => {
                    &&& upload matches Some(given)
                    &&& step matches Step::Continue(
                        UploadEncryptStage::Staging { draft, passphrase },
                        StorageAction::Write { path, data },
                    )
                    &&& passphrase == request.passphrase
                    &&& data == given.data
                    &&& path@ == draft.path@
                    &&& is_storage_path(
                        path@,
                        "./data/uploads"@,
                        "temp_"@ + given.filename->0@,
                    )
                    &&& Some(draft.filename) == given.filename
                    &&& draft.size == given.data@.len()
                    &&& draft.content_type == given.content_type
                },
            }
        },
        UploadEncryptStage::Staging { draft, passphrase } => {
            &&& after == before
            &&& if event is Stored {
                &&& step matches Step::Continue(
                    UploadEncryptStage::Loading { plain, target, passphrase: secret },
                    StorageAction::Read { path },
                )
                &&& secret == passphrase
                &&& path@ == draft.path@
                &&& is_uuid_text(plain@.id)
                &&& plain@ == uploaded_record(
                    plain@.id,
                    plain@.uploaded_at,
                    draft.filename@,
                    draft.size,
                    text_of(draft.content_type),
                    draft.path@,
                )
                &&& is_storage_path(target@, "./data/encrypted"@, encrypted_name(draft.filename@))
            } else {
                step matches Step::Finish(Err(error)) && is_storage_failure(error, event)
            }
        },
        UploadEncryptStage::Loading { plain, target, passphrase } => {
            &&& after == before
            &&& match event {
                StorageEvent::Loaded(plaintext) => if plaintext@.len() <= MAX_PLAINTEXT_LEN {
                    &&& step matches Step::Continue(
                        UploadEncryptStage::Writing { plain: kept, target: place, size },
                        StorageAction::Write { path, data },
                    )
                    &&& kept == plain
                    &&& place == target
                    &&& path@ == target@
                    &&& size == data@.len()
                    &&& is_sealing_of(data@, plaintext@, derived_key(passphrase@))
                } else {
                    &&& step matches Step::Continue(
                        UploadEncryptStage::Failing { error },
                        StorageAction::Delete { path },
                    )
                    &&& is_cipher_refusal(error)
                    &&& path@ == plain@.path
                },
                _ => {
                    &&& step matches Step::Continue(
                        UploadEncryptStage::Failing { error },
                        StorageAction::Delete { path },
                    )
                    &&& is_io_failure(error, event)
                    &&& path@ == plain@.path
                },
            }
        },
        UploadEncryptStage::Writing { plain, target, size } => {
            if event is Stored {
                &&& step matches Step::Continue(
                    UploadEncryptStage::Clearing { sealed },
                    StorageAction::Delete { path },
                )
                &&& path@ == plain@.path
                &&& is_uuid_text(sealed@.id)
                &&& sealed@ == encrypted_record(
                    sealed@.id,
                    sealed@.uploaded_at,
                    plain@,
                    target@,
                    size,
                )
                &&& after == before.push(sealed@)
            } else {
                &&& step matches Step::Continue(
                    UploadEncryptStage::Failing { error },
                    StorageAction::Delete { path },
                )
                &&& is_io_failure(error, event)
                &&& path@ == plain@.path
                &&& after == before
            }
        },
        UploadEncryptStage::Clearing { sealed } => {
            &&& after == before
            &&& step matches Step::Finish(Ok(response))
            &&& response.success
            &&& response.message@ == "File uploaded and encrypted successfully"@
            &&& response.file == Some(sealed)
        },
        UploadEncryptStage::Failing { error } => {
            &&& after == before
            &&& step == Step::<UploadEncryptStage, FileResponse>::Finish(
                Err(TransferError::Engine(error)),
            )
        },
    }
}

/// Takes an upload into storage as an envelope, and the envelope into the
/// ledger.
pub fn upload_encrypt_file(
    store: &mut FileStore,
    stage: UploadEncryptStage,
    event: StorageEvent,
) -> (step: Step<UploadEncryptStage, FileResponse>)
    ensures
        upload_encrypt_transition(old(store)@, stage, event, step, final(store)@),
{
    match stage {
        UploadEncryptStage::Received(upload, request) => {
            let accepted = match check_upload(upload) {
                Ok(accepted) => accepted,
                Err(error) => return Step::Finish(Err(error)),
            };
            let scratch_name = String::from_str("temp_").concat(accepted.filename.as_str());
            let path = get_upload_path(scratch_name.as_str());
            let draft = Draft {
                filename: accepted.filename,
                size: accepted.data.len() as u64,
                content_type: accepted.content_type,
                path: path.clone(),
            };
            Step::Continue(
                UploadEncryptStage::Staging { draft, passphrase: request.passphrase },
                StorageAction::Write { path, data: accepted.data },
            )
        },
        UploadEncryptStage::Staging { draft, passphrase } => {
            match event {
                StorageEvent::Stored => {
                    let path = draft.path.clone();
                    let name = draft.filename.clone().concat(".encrypted");
                    let plain = FileInfo::new(
                        draft.filename,
                        draft.size,
                        draft.content_type,
                        draft.path,
                    );
                    let target = get_encrypted_path(name.as_str());
                    Step::Continue(
                        UploadEncryptStage::Loading { plain, target, passphrase },
                        StorageAction::Read { path },
                    )
                },
                other => Step::Finish(Err(storage_failure(other))),
            }
        },
        UploadEncryptStage::Loading { plain, target, passphrase } => {
            match event {
                StorageEvent::Loaded(plaintext) => {
                    match crate::encryption::encrypt_file(
                        plaintext.as_slice(),
                        passphrase.as_str(),
                    ) {
                        Ok(envelope) => {
                            let size = envelope.len() as u64;
                            let path = target.clone();
                            Step::Continue(
                                UploadEncryptStage::Writing { plain, target, size },
                                StorageAction::Write { path, data: envelope },
                            )
                        },
                        Err(error) => Step::Continue(
                            UploadEncryptStage::Failing { error },
                            StorageAction::Delete { path: plain.path },
                        ),
                    }
                },
                other => Step::Continue(
                    UploadEncryptStage::Failing { error: io_failure(other) },
                    StorageAction::Delete { path: plain.path },
                ),
            }
        },
        UploadEncryptStage::Writing { plain, target, size } => {
            match event {
                StorageEvent::Stored => {
                    let sealed = FileInfo::new_encrypted(&plain, target, size);
                    store.add_file(sealed.clone());
                    Step::Continue(
                        UploadEncryptStage::Clearing { sealed },
                        StorageAction::Delete { path: plain.path },
                    )
                },
                other => Step::Continue(
                    UploadEncryptStage::Failing { error: io_failure(other) },
                    StorageAction::Delete { path: plain.path },
                ),
            }
        },
        UploadEncryptStage::Clearing { sealed } => Step::Finish(
            Ok(
                FileResponse {
                    success: true,
                    message: String::from_str("File uploaded and encrypted successfully"),
                    file: Some(sealed),
                },
            ),
        ),
        UploadEncryptStage::Failing { error } => Step::Finish(Err(TransferError::Engine(error))),
    }
}

/// The stages of a download.
#[derive(Debug)]
pub enum DownloadStage {
    /// The request for the record with this identifier arrived.
    Requested(String),
    /// The bytes of the record are being read.
    Loading(FileInfo),
}

/// The media type under which the bytes of a record are handed out: the one
/// that was declared, or `application/octet-stream`.
pub open spec fn download_type(content_type: Option<Seq<char>>) -> Seq<char> {
    match content_type {
        Some(declared) => declared,
        None => "application/octet-stream"@,
    }
}

/// What a step of a download may do.
pub open spec fn download_transition(
    records: Seq<FileInfoView>,
    stage: DownloadStage,
    event: StorageEvent,
    step: Step<DownloadStage, Download>,
) -> bool {
    match stage {
        DownloadStage::Requested(file_id) => match lookup(records, file_id@) {
            None => step == Step::<DownloadStage, Download>::Finish(Err(TransferError::NotFound)),
            Some(record) => {
                &&& step matches Step::Continue(
                    DownloadStage::Loading(source),
                    StorageAction::Read { path },
                )
                &&& source@ == record
                &&& path@ == record.path
            },
        },
        DownloadStage::Loading(source) => match event {
            StorageEvent::Loaded(bytes) => {
                &&& step matches Step::Finish(Ok(download))
                &&& download.data == bytes
                &&& download.filename@ == source@.filename
                &&& download.content_type@ == download_type(source@.content_type)
            },
            _ => step matches Step::Finish(Err(error)) && is_storage_failure(error, event),
        },
    }
}

/// Hands out the stored bytes of a record as they are, encrypted or not.
pub fn download_file(store: &FileStore, stage: DownloadStage, event: StorageEvent) -> (step: Step<
    DownloadStage,
    Download,
>)
    ensures
        download_transition(store@, stage, event, step),
{
    match stage {
        DownloadStage::Requested(file_id) => {
            match store.get_file(file_id.as_str()) {
                Some(source) => {
                    let path = source.path.clone();
                    Step::Continue(DownloadStage::Loading(source), StorageAction::Read { path })
                },
                None => Step::Finish(Err(TransferError::NotFound)),
            }
        },
        DownloadStage::Loading(source) => {
            match event {
                StorageEvent::Loaded(data) => {
                    let content_type = match source.content_type {
                        Some(declared) => declared,
                        None => String::from_str("application/octet-stream"),
                    };
                    Step::Finish(Ok(Download { data, content_type, filename: source.filename }))
                },
                other => Step::Finish(Err(storage_failure(other))),
            }
        },
    }
}

} // verus!
