use secure_file_transfer::models::FileInfo;
use secure_file_transfer::text::{chars_of, contains_text, remove_all};
use secure_file_transfer::utils::{
    generate_unique_filename, get_encrypted_path, get_upload_path, replace_reserved,
    sanitize_filename, unique_filename_with_id, validate_content_type, validate_file_size,
    FileStore, MAX_FILE_SIZE,
};

fn record(id: &str, filename: &str) -> FileInfo {
    FileInfo::uploaded(
        id.to_string(),
        1_700_000_000_000,
        filename.to_string(),
        11,
        Some("text/plain".to_string()),
        format!("./data/uploads/{id}"),
    )
}

fn assert_uuid_v4(text: &str) {
    assert_eq!(text.len(), 36);
    let parsed = uuid::Uuid::parse_str(text).unwrap();
    assert_eq!(parsed.get_version_num(), 4);
    assert_eq!(parsed.to_string(), text);
    for (index, c) in text.chars().enumerate() {
        if [8, 13, 18, 23].contains(&index) {
            assert_eq!(c, '-');
        } else {
            assert!(c.is_ascii_digit() || ('a'..='f').contains(&c));
        }
    }
    assert_eq!(text.as_bytes()[14], b'4');
    assert!(b"89ab".contains(&text.as_bytes()[19]));
}

#[test]
fn size_limit_is_100_mib_inclusive() {
    assert_eq!(MAX_FILE_SIZE, 100 * 1024 * 1024);
    assert!(validate_file_size(0));
    assert!(validate_file_size(11));
    assert!(validate_file_size(104_857_600));
    assert!(!validate_file_size(104_857_601));
    assert!(!validate_file_size(u64::MAX));
}

#[test]
fn plain_names_pass_through_sanitizing() {
    assert_eq!(sanitize_filename("report.txt"), "report.txt");
    assert_eq!(sanitize_filename("README"), "README");
    assert_eq!(sanitize_filename(".bashrc"), ".bashrc");
    assert_eq!(sanitize_filename("archive.tar.gz"), "archive.tar.gz");
    assert_eq!(sanitize_filename("r\u{e9}sum\u{e9} 2024.pdf"), "r\u{e9}sum\u{e9} 2024.pdf");
    assert_eq!(sanitize_filename("..."), "...");
}

#[test]
fn sanitizing_keeps_only_the_final_component() {
    assert_eq!(sanitize_filename("../../etc/passwd"), "passwd");
    assert_eq!(sanitize_filename("/var/log/syslog"), "syslog");
    assert_eq!(sanitize_filename("dir/sub/"), "sub");
    assert_eq!(sanitize_filename("dir/name.txt/."), "name.txt");
    assert_eq!(sanitize_filename("./a"), "a");
}

#[test]
fn sanitizing_passes_over_separators_and_dots_at_the_end() {
    assert_eq!(sanitize_filename("dir/sub/.//"), "sub");
    assert_eq!(sanitize_filename("a//b"), "b");
    assert_eq!(sanitize_filename("a/./b/./."), "b");
    assert_eq!(sanitize_filename("/a"), "a");
    assert_eq!(sanitize_filename("a/.b"), ".b");
    assert_eq!(sanitize_filename("a/..."), "...");
    assert_eq!(sanitize_filename("a/b*c?.txt"), "b_c_.txt");
    assert_eq!(sanitize_filename("a/../."), "unknown_file");
    assert_eq!(sanitize_filename("./."), "unknown_file");
    assert_eq!(sanitize_filename("//"), "unknown_file");
}

#[test]
fn sanitizing_falls_back_where_there_is_no_final_component() {
    assert_eq!(sanitize_filename(""), "unknown_file");
    assert_eq!(sanitize_filename("."), "unknown_file");
    assert_eq!(sanitize_filename(".."), "unknown_file");
    assert_eq!(sanitize_filename("/"), "unknown_file");
    assert_eq!(sanitize_filename("dir/.."), "unknown_file");
}

#[test]
fn sanitizing_replaces_every_reserved_character() {
    assert_eq!(replace_reserved("a/b\\c:d*e?f\"g<h>i|j"), "a_b_c_d_e_f_g_h_i_j");
    assert_eq!(replace_reserved("::"), "__");
    assert_eq!(replace_reserved(""), "");
    assert_eq!(replace_reserved("plain name.txt"), "plain name.txt");
    assert_eq!(replace_reserved("\u{e9}|\u{e9}"), "\u{e9}_\u{e9}");
    let clean = sanitize_filename("x/a\\b:c*d?e\"f<g>h|i");
    assert!(!clean.contains(['/', '\\', ':', '*', '?', '"', '<', '>', '|']));
    assert!(clean.ends_with("b_c_d_e_f_g_h_i"));
}

#[test]
fn stored_name_is_identifier_and_extension() {
    assert_eq!(unique_filename_with_id("id", "photo.JPG"), "id.JPG");
    assert_eq!(unique_filename_with_id("id", "archive.tar.gz"), "id.gz");
    assert_eq!(unique_filename_with_id("id", "dir/report.txt"), "id.txt");
    assert_eq!(unique_filename_with_id("id", "README"), "id");
    assert_eq!(unique_filename_with_id("id", ".bashrc"), "id");
    assert_eq!(unique_filename_with_id("id", "trailing."), "id");
    assert_eq!(unique_filename_with_id("id", "..hidden"), "id.hidden");
    assert_eq!(unique_filename_with_id("id", ".."), "id");
    assert_eq!(unique_filename_with_id("id", ""), "id");
    assert_eq!(unique_filename_with_id("id", "a.t?t"), "id.t_t");
    assert_eq!(unique_filename_with_id("", "a.txt"), ".txt");
}

#[test]
fn unique_names_are_fresh_uuids_with_the_extension() {
    let first = generate_unique_filename("../photo.JPG");
    let second = generate_unique_filename("../photo.JPG");
    assert_ne!(first, second);
    for name in [&first, &second] {
        assert_eq!(name.len(), 40);
        assert_uuid_v4(&name[..36]);
        assert_eq!(&name[36..], ".JPG");
    }
    let bare = generate_unique_filename("README");
    assert_uuid_v4(&bare);
}

#[test]
fn storage_paths_lie_in_their_directories() {
    let upload = get_upload_path("dir/report.txt");
    let name = upload.strip_prefix("./data/uploads/").unwrap();
    assert_uuid_v4(&name[..36]);
    assert_eq!(&name[36..], ".txt");
    let encrypted = get_encrypted_path("report.txt.encrypted");
    let name = encrypted.strip_prefix("./data/encrypted/").unwrap();
    assert_uuid_v4(&name[..36]);
    assert_eq!(&name[36..], ".encrypted");
    let hostile = get_upload_path("../../../etc/cron.d/job");
    let name = hostile.strip_prefix("./data/uploads/").unwrap();
    assert_uuid_v4(name);
    assert_ne!(get_upload_path("a"), get_upload_path("a"));
}

#[test]
fn denied_media_types_are_refused_wherever_they_stand() {
    assert!(validate_content_type("text/plain"));
    assert!(validate_content_type(""));
    assert!(validate_content_type("application/octet-stream"));
    assert!(validate_content_type("application/x-downloa"));
    assert!(validate_content_type("APPLICATION/X-MSDOWNLOAD"));
    assert!(!validate_content_type("application/x-msdownload"));
    assert!(!validate_content_type("application/x-msdos-program"));
    assert!(!validate_content_type("application/x-msdos-windows"));
    assert!(!validate_content_type("application/x-download"));
    assert!(!validate_content_type("text/plain, application/x-msdownload; q=1"));
    assert!(!validate_content_type("xapplication/x-downloadx"));
}

#[test]
fn contains_text_agrees_with_std() {
    let texts = ["", "a", "abc", "aab", "abab", "application/x-download", "\u{e9}t\u{e9}"];
    let needles = ["", "a", "b", "ab", "abc", "abcd", "ba", "x-down", "t\u{e9}", "\u{e9}"];
    for text in texts {
        for needle in needles {
            assert_eq!(contains_text(text, needle), text.contains(needle), "{text:?} {needle:?}");
        }
    }
}

#[test]
fn remove_all_agrees_with_std() {
    assert_eq!(remove_all("report.txt.encrypted", ".encrypted"), "report.txt");
    assert_eq!(remove_all("a.encrypted.encrypted", ".encrypted"), "a");
    assert_eq!(remove_all("a.encryptedb", ".encrypted"), "ab");
    assert_eq!(remove_all(".encrypted", ".encrypted"), "");
    assert_eq!(remove_all("report.txt", ".encrypted"), "report.txt");
    assert_eq!(remove_all("aaa", "aa"), "a");
    assert_eq!(remove_all("abc", ""), "abc");
    let texts =
        ["", "a", "aaa", "aaaa", "abab", "xabay", ".enc.encrypted", "\u{e9}.encrypted\u{e9}"];
    let patterns = ["a", "aa", "ab", "ba", ".encrypted", "\u{e9}"];
    for text in texts {
        for pattern in patterns {
            let expected = text.replace(pattern, "");
            assert_eq!(remove_all(text, pattern), expected, "{text:?} {pattern:?}");
        }
    }
}

#[test]
fn chars_of_lists_the_characters() {
    assert_eq!(chars_of(""), Vec::<char>::new());
    assert_eq!(chars_of("a\u{e9}z"), vec!['a', '\u{e9}', 'z']);
}

#[test]
fn new_store_is_empty() {
    let store = FileStore::new();
    assert!(store.list_files().is_empty());
    assert_eq!(store.get_file("a"), None);
    assert!(FileStore::default().list_files().is_empty());
}

#[test]
fn store_lists_in_insertion_order() {
    let mut store = FileStore::new();
    for id in ["c", "a", "b"] {
        store.add_file(record(id, id));
    }
    let ids: Vec<String> = store.list_files().into_iter().map(|file| file.id).collect();
    assert_eq!(ids, vec!["c", "a", "b"]);
    store.remove_file("a");
    store.add_file(record("a", "again"));
    let ids: Vec<String> = store.list_files().into_iter().map(|file| file.id).collect();
    assert_eq!(ids, vec!["c", "b", "a"]);
}

#[test]
fn store_gets_copies_by_identifier() {
    let mut store = FileStore::new();
    store.add_file(record("a", "first"));
    store.add_file(record("b", "second"));
    assert_eq!(store.get_file("a"), Some(record("a", "first")));
    assert_eq!(store.get_file("b"), Some(record("b", "second")));
    assert_eq!(store.get_file("c"), None);
    assert_eq!(store.get_file(""), None);
    let mut copy = store.get_file("a").unwrap();
    copy.filename.push_str(" changed");
    assert_eq!(store.get_file("a").unwrap().filename, "first");
}

#[test]
fn store_removes_first_match_only_and_ignores_absent() {
    let mut store = FileStore::new();
    store.add_file(record("a", "first"));
    store.add_file(record("b", "second"));
    store.add_file(record("a", "third"));
    assert_eq!(store.get_file("a").unwrap().filename, "first");
    store.remove_file("missing");
    assert_eq!(store.list_files().len(), 3);
    store.remove_file("a");
    assert_eq!(store.list_files(), vec![record("b", "second"), record("a", "third")]);
    assert_eq!(store.get_file("a").unwrap().filename, "third");
    store.remove_file("a");
    store.remove_file("a");
    assert_eq!(store.list_files(), vec![record("b", "second")]);
}

#[test]
fn new_record_is_plaintext_with_fresh_identity() {
    let before = chrono::Utc::now().timestamp_millis();
    let first = FileInfo::new(
        "report.txt".to_string(),
        11,
        Some("text/plain".to_string()),
        "./data/uploads/x.txt".to_string(),
    );
    let after = chrono::Utc::now().timestamp_millis();
    assert_uuid_v4(&first.id);
    assert_eq!(first.filename, "report.txt");
    assert_eq!(first.size, 11);
    assert_eq!(first.content_type.as_deref(), Some("text/plain"));
    assert!(!first.encrypted);
    assert!(before <= first.uploaded_at && first.uploaded_at <= after);
    assert!(first.uploaded_at > 1_600_000_000_000);
    assert_eq!(first.path, "./data/uploads/x.txt");
    let second = FileInfo::new("report.txt".to_string(), 11, None, "p".to_string());
    assert_ne!(first.id, second.id);
    assert_eq!(second.content_type, None);
}

#[test]
fn encrypted_record_renames_and_retypes() {
    let original = record("a", "report.txt");
    let sealed = FileInfo::new_encrypted(&original, "./data/encrypted/y".to_string(), 39);
    assert_uuid_v4(&sealed.id);
    assert_ne!(sealed.id, original.id);
    assert_eq!(sealed.filename, "report.txt.encrypted");
    assert_eq!(sealed.size, 39);
    assert_eq!(sealed.content_type.as_deref(), Some("application/octet-stream"));
    assert!(sealed.encrypted);
    assert_eq!(sealed.path, "./data/encrypted/y");
    let fixed = FileInfo::encrypted_from("id".to_string(), 5, &original, "q".to_string(), 40);
    assert_eq!(fixed.id, "id");
    assert_eq!(fixed.uploaded_at, 5);
    assert_eq!(fixed.filename, "report.txt.encrypted");
    assert_eq!(fixed.size, 40);
    assert_eq!(original, record("a", "report.txt"));
    assert_eq!(original.clone(), original);
}
