use secure_file_transfer::encryption::{DecryptionFailure, EncryptionError};
use secure_file_transfer::handlers::files::{
    check_upload, decrypt_file, download_file, encrypt_file, list_files, upload_encrypt_file,
    upload_file, DecryptStage, Download, DownloadStage, EncryptStage, Step, StorageAction,
    StorageEvent, TransferError, Upload, UploadEncryptStage, UploadStage,
};
use secure_file_transfer::models::{
    DecryptRequest, EncryptRequest, FileInfo, FileResponse, UploadEncryptRequest,
};
use secure_file_transfer::utils::FileStore;
use std::collections::HashMap;

struct Disk {
    blobs: HashMap<String, Vec<u8>>,
    log: Vec<String>,
    refuse_delete: bool,
    refuse_write_under: Option<String>,
}

fn empty_disk() -> Disk {
    Disk { blobs: HashMap::new(), log: Vec::new(), refuse_delete: false, refuse_write_under: None }
}

fn perform(disk: &mut Disk, action: StorageAction) -> StorageEvent {
    match action {
        StorageAction::Read { path } => {
            disk.log.push(format!("read {path}"));
            match disk.blobs.get(&path) {
                Some(bytes) => StorageEvent::Loaded(bytes.clone()),
                None => StorageEvent::Failed(format!("cannot read {path}")),
            }
        }
        StorageAction::Write { path, data } => {
            disk.log.push(format!("write {path}"));
            if disk.refuse_write_under.as_ref().is_some_and(|dir| path.starts_with(dir.as_str())) {
                return StorageEvent::Failed(format!("cannot write {path}"));
            }
            disk.blobs.insert(path, data);
            StorageEvent::Stored
        }
        StorageAction::Delete { path } => {
            disk.log.push(format!("delete {path}"));
            if disk.refuse_delete || disk.blobs.remove(&path).is_none() {
                StorageEvent::Failed(format!("cannot delete {path}"))
            } else {
                StorageEvent::Removed
            }
        }
    }
}

fn io_error(text: &str) -> TransferError {
    TransferError::Engine(EncryptionError::Io(text.to_string()))
}

fn some_upload(filename: &str, content_type: Option<&str>, data: &[u8]) -> Option<Upload> {
    Some(Upload {
        filename: Some(filename.to_string()),
        content_type: content_type.map(|text| text.to_string()),
        data: data.to_vec(),
    })
}

fn run_upload(
    store: &mut FileStore,
    disk: &mut Disk,
    upload: Option<Upload>,
) -> Result<FileResponse, TransferError> {
    let mut stage = UploadStage::Received(upload);
    let mut event = StorageEvent::Started;
    loop {
        match upload_file(store, stage, event) {
            Step::Continue(next, action) => {
                event = perform(disk, action);
                stage = next;
            }
            Step::Finish(result) => return result,
        }
    }
}

fn run_encrypt(
    store: &mut FileStore,
    disk: &mut Disk,
    file_id: &str,
    passphrase: &str,
) -> Result<FileResponse, TransferError> {
    let request =
        EncryptRequest { file_id: file_id.to_string(), passphrase: passphrase.to_string() };
    let mut stage = EncryptStage::Requested(request);
    let mut event = StorageEvent::Started;
    loop {
        match encrypt_file(store, stage, event) {
            Step::Continue(next, action) => {
                event = perform(disk, action);
                stage = next;
            }
            Step::Finish(result) => return result,
        }
    }
}

fn run_decrypt(
    store: &FileStore,
    disk: &mut Disk,
    file_id: &str,
    passphrase: &str,
) -> Result<Download, TransferError> {
    let request =
        DecryptRequest { file_id: file_id.to_string(), passphrase: passphrase.to_string() };
    let mut stage = DecryptStage::Requested(request);
    let mut event = StorageEvent::Started;
    loop {
        match decrypt_file(store, stage, event) {
            Step::Continue(next, action) => {
                event = perform(disk, action);
                stage = next;
            }
            Step::Finish(result) => return result,
        }
    }
}

fn run_upload_encrypt(
    store: &mut FileStore,
    disk: &mut Disk,
    upload: Option<Upload>,
    passphrase: &str,
) -> Result<FileResponse, TransferError> {
    let request = UploadEncryptRequest { passphrase: passphrase.to_string() };
    let mut stage = UploadEncryptStage::Received(upload, request);
    let mut event = StorageEvent::Started;
    loop {
        match upload_encrypt_file(store, stage, event) {
            Step::Continue(next, action) => {
                event = perform(disk, action);
                stage = next;
            }
            Step::Finish(result) => return result,
        }
    }
}

fn run_download(
    store: &FileStore,
    disk: &mut Disk,
    file_id: &str,
) -> Result<Download, TransferError> {
    let mut stage = DownloadStage::Requested(file_id.to_string());
    let mut event = StorageEvent::Started;
    loop {
        match download_file(store, stage, event) {
            Step::Continue(next, action) => {
                event = perform(disk, action);
                stage = next;
            }
            Step::Finish(result) => return result,
        }
    }
}

fn uploaded_report(store: &mut FileStore, disk: &mut Disk) -> FileInfo {
    let upload = some_upload("report.txt", Some("text/plain"), b"hello world");
    run_upload(store, disk, upload).unwrap().file.unwrap()
}

fn encrypted_report(store: &mut FileStore, disk: &mut Disk) -> (FileInfo, FileInfo) {
    let plain = uploaded_report(store, disk);
    let sealed = run_encrypt(store, disk, &plain.id, "secret").unwrap().file.unwrap();
    (plain, sealed)
}

#[test]
fn scenario_upload_then_encrypt() {
    let mut store = FileStore::new();
    let mut disk = empty_disk();
    let upload = some_upload("report.txt", Some("text/plain"), b"hello world");
    let response = run_upload(&mut store, &mut disk, upload).unwrap();
    assert!(response.success);
    assert_eq!(response.message, "File uploaded successfully");
    let first = response.file.unwrap();
    assert!(!first.encrypted);
    assert_eq!(first.size, 11);
    assert_eq!(first.filename, "report.txt");
    assert_eq!(first.content_type.as_deref(), Some("text/plain"));
    assert!(first.path.starts_with("./data/uploads/"));
    assert!(first.path.ends_with(".txt"));
    assert_eq!(disk.blobs.get(&first.path).unwrap(), b"hello world");
    assert_eq!(store.get_file(&first.id), Some(first.clone()));

    let response = run_encrypt(&mut store, &mut disk, &first.id, "secret").unwrap();
    assert!(response.success);
    assert_eq!(response.message, "File encrypted successfully and original file deleted");
    let second = response.file.unwrap();
    assert!(second.encrypted);
    assert_eq!(second.filename, "report.txt.encrypted");
    assert_eq!(second.size, 11 + 28);
    assert_eq!(second.content_type.as_deref(), Some("application/octet-stream"));
    assert!(second.path.starts_with("./data/encrypted/"));
    assert!(second.path.ends_with(".encrypted"));
    assert_ne!(second.id, first.id);
    assert_eq!(store.get_file(&first.id), None);
    assert_eq!(store.get_file(&second.id), Some(second.clone()));
    assert_eq!(store.list_files(), vec![second.clone()]);
    assert_eq!(disk.blobs.len(), 1);
    let envelope = disk.blobs.get(&second.path).unwrap();
    assert_eq!(envelope.len(), 39);
    assert_eq!(
        secure_file_transfer::encryption::decrypt_file(envelope, "secret").unwrap(),
        b"hello world".to_vec()
    );
}

#[test]
fn scenario_decrypt_with_right_passphrase() {
    let mut store = FileStore::new();
    let mut disk = empty_disk();
    let (_, second) = encrypted_report(&mut store, &mut disk);
    let blobs_before = disk.blobs.clone();
    let download = run_decrypt(&store, &mut disk, &second.id, "secret").unwrap();
    assert_eq!(download.data, b"hello world".to_vec());
    assert_eq!(download.filename, "report.txt");
    assert_eq!(download.content_type, "application/octet-stream");
    assert_eq!(store.get_file(&second.id), Some(second.clone()));
    assert_eq!(store.list_files(), vec![second.clone()]);
    assert_eq!(disk.blobs, blobs_before);
    let again = run_decrypt(&store, &mut disk, &second.id, "secret").unwrap();
    assert_eq!(again.data, b"hello world".to_vec());
}

#[test]
fn scenario_decrypt_with_wrong_passphrase() {
    let mut store = FileStore::new();
    let mut disk = empty_disk();
    let (_, second) = encrypted_report(&mut store, &mut disk);
    let blobs_before = disk.blobs.clone();
    assert_eq!(
        run_decrypt(&store, &mut disk, &second.id, "wrong"),
        Err(TransferError::Engine(EncryptionError::Decryption(
            DecryptionFailure::AuthenticationFailed
        )))
    );
    assert_eq!(store.get_file(&second.id), Some(second.clone()));
    assert_eq!(store.list_files(), vec![second.clone()]);
    assert_eq!(disk.blobs, blobs_before);
    let download = run_decrypt(&store, &mut disk, &second.id, "secret").unwrap();
    assert_eq!(download.data, b"hello world".to_vec());
}

#[test]
fn encrypting_an_encrypted_record_is_invalid() {
    let mut store = FileStore::new();
    let mut disk = empty_disk();
    let (_, second) = encrypted_report(&mut store, &mut disk);
    let log_before = disk.log.len();
    assert_eq!(
        run_encrypt(&mut store, &mut disk, &second.id, "secret"),
        Err(TransferError::InvalidState)
    );
    assert_eq!(store.list_files(), vec![second]);
    assert_eq!(disk.log.len(), log_before);
}

#[test]
fn decrypting_a_plaintext_record_is_invalid() {
    let mut store = FileStore::new();
    let mut disk = empty_disk();
    let first = uploaded_report(&mut store, &mut disk);
    let log_before = disk.log.len();
    assert_eq!(
        run_decrypt(&store, &mut disk, &first.id, "secret"),
        Err(TransferError::InvalidState)
    );
    assert_eq!(store.list_files(), vec![first]);
    assert_eq!(disk.log.len(), log_before);
}

#[test]
fn unknown_identifier_is_not_found() {
    let mut store = FileStore::new();
    let mut disk = empty_disk();
    let first = uploaded_report(&mut store, &mut disk);
    assert_eq!(
        run_encrypt(&mut store, &mut disk, "missing", "secret"),
        Err(TransferError::NotFound)
    );
    assert_eq!(run_decrypt(&store, &mut disk, "missing", "secret"), Err(TransferError::NotFound));
    assert_eq!(run_download(&store, &mut disk, "missing"), Err(TransferError::NotFound));
    assert_eq!(store.list_files(), vec![first]);
}

#[test]
fn uploads_are_checked_in_order() {
    assert_eq!(check_upload(None), Err(TransferError::NoFile));
    let nameless = Upload {
        filename: None,
        content_type: Some("application/x-msdownload".to_string()),
        data: vec![0u8; 8],
    };
    assert_eq!(check_upload(Some(nameless)), Err(TransferError::MissingFilename));
    let denied = some_upload("setup.exe", Some("application/x-msdownload"), b"MZ");
    assert_eq!(check_upload(denied), Err(TransferError::InvalidContentType));
    let untyped = some_upload("notes", None, b"text");
    let accepted = check_upload(untyped).unwrap();
    assert_eq!(accepted.filename, "notes");
    assert_eq!(accepted.content_type, None);
    assert_eq!(accepted.data, b"text".to_vec());
}

#[test]
fn uploads_over_the_limit_are_refused() {
    let at_limit = Some(Upload {
        filename: Some("big".to_string()),
        content_type: None,
        data: vec![0u8; 104_857_600],
    });
    assert!(check_upload(at_limit).is_ok());
    let over = Some(Upload {
        filename: Some("big".to_string()),
        content_type: None,
        data: vec![0u8; 104_857_601],
    });
    assert_eq!(check_upload(over), Err(TransferError::FileTooLarge));
    let denied_and_over = Some(Upload {
        filename: Some("big".to_string()),
        content_type: Some("application/x-download".to_string()),
        data: vec![0u8; 104_857_601],
    });
    assert_eq!(check_upload(denied_and_over), Err(TransferError::InvalidContentType));
}

#[test]
fn refused_uploads_touch_nothing() {
    let mut store = FileStore::new();
    let mut disk = empty_disk();
    assert_eq!(run_upload(&mut store, &mut disk, None), Err(TransferError::NoFile));
    let denied = some_upload("setup.exe", Some("application/x-msdos-program"), b"MZ");
    assert_eq!(run_upload(&mut store, &mut disk, denied), Err(TransferError::InvalidContentType));
    let denied = some_upload("setup.exe", Some("application/x-msdos-program"), b"MZ");
    assert_eq!(
        run_upload_encrypt(&mut store, &mut disk, denied, "secret"),
        Err(TransferError::InvalidContentType)
    );
    assert_eq!(
        run_upload_encrypt(&mut store, &mut disk, None, "secret"),
        Err(TransferError::NoFile)
    );
    assert!(store.list_files().is_empty());
    assert!(disk.blobs.is_empty());
    assert!(disk.log.is_empty());
}

#[test]
fn upload_that_cannot_be_saved_leaves_no_record() {
    let mut store = FileStore::new();
    let mut disk = empty_disk();
    disk.refuse_write_under = Some("./data/uploads/".to_string());
    let upload = some_upload("report.txt", None, b"hello world");
    let result = run_upload(&mut store, &mut disk, upload);
    let path = disk.log[0].strip_prefix("write ").unwrap().to_string();
    assert_eq!(result, Err(io_error(&format!("cannot write {path}"))));
    assert!(store.list_files().is_empty());
}

#[test]
fn encrypt_steps_follow_the_protocol() {
    let mut store = FileStore::new();
    let mut disk = empty_disk();
    let first = uploaded_report(&mut store, &mut disk);
    disk.log.clear();
    let sealed = run_encrypt(&mut store, &mut disk, &first.id, "secret").unwrap().file.unwrap();
    assert_eq!(
        disk.log,
        vec![
            format!("read {}", first.path),
            format!("write {}", sealed.path),
            format!("delete {}", first.path),
        ]
    );
}

#[test]
fn failed_cleanup_after_encrypt_keeps_both_records() {
    let mut store = FileStore::new();
    let mut disk = empty_disk();
    let first = uploaded_report(&mut store, &mut disk);
    disk.refuse_delete = true;
    let response = run_encrypt(&mut store, &mut disk, &first.id, "secret").unwrap();
    let second = response.file.unwrap();
    assert!(second.encrypted);
    assert_eq!(store.list_files(), vec![first.clone(), second.clone()]);
    assert_eq!(disk.blobs.get(&first.path).unwrap(), b"hello world");
    assert_eq!(disk.blobs.get(&second.path).unwrap().len(), 39);
}

#[test]
fn failed_read_or_write_during_encrypt_changes_no_record() {
    let mut store = FileStore::new();
    let mut disk = empty_disk();
    let first = uploaded_report(&mut store, &mut disk);
    disk.refuse_write_under = Some("./data/encrypted/".to_string());
    let result = run_encrypt(&mut store, &mut disk, &first.id, "secret");
    assert!(matches!(result, Err(TransferError::Engine(EncryptionError::Io(_)))));
    assert_eq!(store.list_files(), vec![first.clone()]);
    assert_eq!(disk.blobs.get(&first.path).unwrap(), b"hello world");
    disk.refuse_write_under = None;
    disk.blobs.clear();
    assert_eq!(
        run_encrypt(&mut store, &mut disk, &first.id, "secret"),
        Err(io_error(&format!("cannot read {}", first.path)))
    );
    assert_eq!(store.list_files(), vec![first]);
}

#[test]
fn unexpected_answer_counts_as_storage_failure() {
    let mut store = FileStore::new();
    let mut disk = empty_disk();
    let first = uploaded_report(&mut store, &mut disk);
    let request = EncryptRequest { file_id: first.id.clone(), passphrase: "secret".to_string() };
    let step = encrypt_file(&mut store, EncryptStage::Requested(request), StorageEvent::Started);
    let Step::Continue(stage, action) = step else { panic!("expected a storage request") };
    assert_eq!(action, StorageAction::Read { path: first.path.clone() });
    let step = encrypt_file(&mut store, stage, StorageEvent::Stored);
    let Step::Finish(result) = step else { panic!("expected the end") };
    assert_eq!(result, Err(io_error("storage did not answer the request")));
    assert_eq!(store.list_files(), vec![first]);
}

#[test]
fn decrypt_steps_pass_through_a_scratch_file() {
    let mut store = FileStore::new();
    let mut disk = empty_disk();
    let (_, second) = encrypted_report(&mut store, &mut disk);
    disk.log.clear();
    run_decrypt(&store, &mut disk, &second.id, "secret").unwrap();
    assert_eq!(disk.log.len(), 4);
    assert_eq!(disk.log[0], format!("read {}", second.path));
    let scratch = disk.log[1].strip_prefix("write ").unwrap().to_string();
    assert!(scratch.starts_with("./data/uploads/"));
    assert!(scratch.ends_with(".txt"));
    assert_eq!(disk.log[2], format!("read {scratch}"));
    assert_eq!(disk.log[3], format!("delete {scratch}"));
    assert!(!disk.blobs.contains_key(&scratch));
}

#[test]
fn decrypt_hands_out_bytes_even_if_scratch_cannot_be_deleted() {
    let mut store = FileStore::new();
    let mut disk = empty_disk();
    let (_, second) = encrypted_report(&mut store, &mut disk);
    disk.refuse_delete = true;
    let download = run_decrypt(&store, &mut disk, &second.id, "secret").unwrap();
    assert_eq!(download.data, b"hello world".to_vec());
    assert_eq!(store.list_files(), vec![second]);
}

#[test]
fn decrypt_of_short_blob_is_malformed() {
    let mut store = FileStore::new();
    let mut disk = empty_disk();
    let (_, second) = encrypted_report(&mut store, &mut disk);
    disk.blobs.insert(second.path.clone(), vec![1u8; 11]);
    assert_eq!(
        run_decrypt(&store, &mut disk, &second.id, "secret"),
        Err(TransferError::Engine(EncryptionError::Decryption(DecryptionFailure::Malformed)))
    );
    disk.blobs.remove(&second.path);
    assert_eq!(
        run_decrypt(&store, &mut disk, &second.id, "secret"),
        Err(io_error(&format!("cannot read {}", second.path)))
    );
}

#[test]
fn decrypt_name_drops_every_encrypted_suffix() {
    let mut store = FileStore::new();
    let mut disk = empty_disk();
    let upload = some_upload("a.encrypted.txt", None, b"x");
    let plain = run_upload(&mut store, &mut disk, upload).unwrap().file.unwrap();
    let sealed = run_encrypt(&mut store, &mut disk, &plain.id, "k").unwrap().file.unwrap();
    assert_eq!(sealed.filename, "a.encrypted.txt.encrypted");
    let download = run_decrypt(&store, &mut disk, &sealed.id, "k").unwrap();
    assert_eq!(download.filename, "a.txt");
    assert_eq!(download.data, b"x".to_vec());
}

#[test]
fn upload_encrypt_stores_only_the_envelope() {
    let mut store = FileStore::new();
    let mut disk = empty_disk();
    let upload = some_upload("report.txt", Some("text/plain"), b"hello world");
    let response = run_upload_encrypt(&mut store, &mut disk, upload, "secret").unwrap();
    assert!(response.success);
    assert_eq!(response.message, "File uploaded and encrypted successfully");
    let sealed = response.file.unwrap();
    assert!(sealed.encrypted);
    assert_eq!(sealed.filename, "report.txt.encrypted");
    assert_eq!(sealed.size, 39);
    assert_eq!(sealed.content_type.as_deref(), Some("application/octet-stream"));
    assert_eq!(store.list_files(), vec![sealed.clone()]);
    assert_eq!(disk.blobs.len(), 1);
    assert_eq!(disk.blobs.get(&sealed.path).unwrap().len(), 39);
    assert_eq!(disk.log.len(), 4);
    let scratch = disk.log[0].strip_prefix("write ").unwrap().to_string();
    assert!(scratch.starts_with("./data/uploads/"));
    assert_eq!(disk.log[1], format!("read {scratch}"));
    assert_eq!(disk.log[2], format!("write {}", sealed.path));
    assert_eq!(disk.log[3], format!("delete {scratch}"));
    let download = run_decrypt(&store, &mut disk, &sealed.id, "secret").unwrap();
    assert_eq!(download.data, b"hello world".to_vec());
    assert_eq!(download.filename, "report.txt");
}

#[test]
fn upload_encrypt_cleans_up_when_the_envelope_cannot_be_written() {
    let mut store = FileStore::new();
    let mut disk = empty_disk();
    disk.refuse_write_under = Some("./data/encrypted/".to_string());
    let upload = some_upload("report.txt", None, b"hello world");
    let result = run_upload_encrypt(&mut store, &mut disk, upload, "secret");
    assert!(matches!(result, Err(TransferError::Engine(EncryptionError::Io(_)))));
    assert!(store.list_files().is_empty());
    assert!(disk.blobs.is_empty());
    assert!(disk.log[3].starts_with("delete ./data/uploads/"));
}

#[test]
fn download_hands_out_stored_bytes_as_they_are() {
    let mut store = FileStore::new();
    let mut disk = empty_disk();
    let plain = uploaded_report(&mut store, &mut disk);
    let download = run_download(&store, &mut disk, &plain.id).unwrap();
    assert_eq!(download.data, b"hello world".to_vec());
    assert_eq!(download.filename, "report.txt");
    assert_eq!(download.content_type, "text/plain");
    let sealed = run_encrypt(&mut store, &mut disk, &plain.id, "secret").unwrap().file.unwrap();
    let download = run_download(&store, &mut disk, &sealed.id).unwrap();
    assert_eq!(&download.data, disk.blobs.get(&sealed.path).unwrap());
    assert_eq!(download.data.len(), 39);
    assert_eq!(download.filename, "report.txt.encrypted");
    assert_eq!(download.content_type, "application/octet-stream");
    let untyped = some_upload("notes", None, b"n");
    let untyped = run_upload(&mut store, &mut disk, untyped).unwrap().file.unwrap();
    let download = run_download(&store, &mut disk, &untyped.id).unwrap();
    assert_eq!(download.content_type, "application/octet-stream");
    disk.blobs.clear();
    assert_eq!(
        run_download(&store, &mut disk, &untyped.id),
        Err(io_error(&format!("cannot read {}", untyped.path)))
    );
}

#[test]
fn list_gives_all_records_in_order() {
    let mut store = FileStore::new();
    let mut disk = empty_disk();
    assert!(list_files(&store).files.is_empty());
    let first = uploaded_report(&mut store, &mut disk);
    let upload = some_upload("notes", None, b"n");
    let second = run_upload(&mut store, &mut disk, upload).unwrap().file.unwrap();
    assert_eq!(list_files(&store).files, vec![first.clone(), second.clone()]);
    let sealed = run_encrypt(&mut store, &mut disk, &first.id, "secret").unwrap().file.unwrap();
    assert_eq!(list_files(&store).files, vec![second, sealed]);
}
