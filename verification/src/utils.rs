//! File names, storage paths and the limits on uploads.

use crate::host::{
    extension_of, final_component, fresh_uuid_text, is_clean, is_component_of, is_dots,
    is_plain_name, is_portable, is_reserved, is_uuid_text, last_slash, path_extension,
    path_file_name,
};
pub use crate::store::FileStore;
use crate::text::{contains_text, occurs_in};
use vstd::prelude::*;
use vstd::string::StringExecFns;

verus! {

/// Largest upload that is accepted, in bytes (100 MiB).
pub const MAX_FILE_SIZE: u64 = 104857600;

/// Whether a file of `size` bytes is within the upload limit.
pub fn validate_file_size(size: u64) -> (ok: bool)
    ensures
        ok == (size <= MAX_FILE_SIZE),
{
    size <= MAX_FILE_SIZE
}

/// What sanitising makes of one character.
pub open spec fn sanitized_char(c: char) -> char {
    if is_reserved(c) {
        '_'
    } else {
        c
    }
}

/// What sanitising makes of a name: every reserved character becomes `_`.
pub open spec fn sanitized_text(name: Seq<char>) -> Seq<char> {
    Seq::new(name.len(), |i: int| sanitized_char(name[i]))
}

/// What sanitising makes of a portable path: the sanitised form of its final
/// component, or of the stand-in name where it has none.
pub open spec fn sanitized_name(path: Seq<char>) -> Seq<char> {
    match final_component(path) {
        Some(component) => sanitized_text(component),
        None => sanitized_text("unknown_file"@),
    }
}

/// `clean` is what sanitising makes of `path`. Of a portable path it is the
/// sanitised name. Of every path it is the sanitised form of a part that can
/// be its final component, or of the stand-in name.
pub open spec fn is_sanitized_from(clean: Seq<char>, path: Seq<char>) -> bool {
    &&& is_portable(path) ==> clean == sanitized_name(path)
    &&& {
        ||| clean == sanitized_text("unknown_file"@)
        ||| exists|name: Seq<char>|
            is_component_of(name, path) && #[trigger] sanitized_text(name) == clean
    }
}

/// The name under which a file is stored: the identifier, and the extension
/// of the sanitised name where it has one that is not empty.
pub open spec fn stored_name(id: Seq<char>, name: Seq<char>) -> Seq<char> {
    match extension_of(name) {
        Some(extension) => if extension.len() == 0 {
            id
        } else {
            id + seq!['.'] + extension
        },
        None => id,
    }
}

/// `stored` is a name under which `original` can be stored with identifier
/// `id`.
pub open spec fn is_unique_name_for(stored: Seq<char>, id: Seq<char>, original: Seq<char>) -> bool {
    exists|clean: Seq<char>|
        #![trigger stored_name(id, clean)]
        is_plain_name(clean) && is_sanitized_from(clean, original) && stored_name(id, clean)
            == stored
}

/// A directory and a name, joined by `/`.
pub open spec fn join_path(dir: Seq<char>, name: Seq<char>) -> Seq<char> {
    dir + seq!['/'] + name
}

/// `stored` is a fresh name for a file that came as `original`: a plain name
/// made of a version 4 UUID and the extension of the sanitised name. For a
/// portable `original` that is the extension of its sanitised final
/// component.
pub open spec fn is_fresh_name_for(stored: Seq<char>, original: Seq<char>) -> bool {
    &&& is_plain_name(stored)
    &&& exists|id: Seq<char>|
        #![trigger is_unique_name_for(stored, id, original)]
        {
            &&& is_uuid_text(id)
            &&& is_unique_name_for(stored, id, original)
            &&& is_portable(original) ==> stored == stored_name(id, sanitized_name(original))
        }
}

/// `stored` is the stored name of `name` under some version 4 UUID.
pub open spec fn is_fresh_name_with(stored: Seq<char>, name: Seq<char>) -> bool {
    exists|id: Seq<char>| is_uuid_text(id) && #[trigger] stored_name(id, name) == stored
}

/// `path` lies in directory `dir` and ends in the stored name of `name` under
/// some version 4 UUID.
pub open spec fn is_fresh_path_with(path: Seq<char>, dir: Seq<char>, name: Seq<char>) -> bool {
    exists|id: Seq<char>|
        is_uuid_text(id) && join_path(dir, #[trigger] stored_name(id, name)) == path
}

/// `path` is a place in directory `dir` for a file that came as `original`:
/// the directory, a `/`, and a fresh name.
pub open spec fn is_storage_path(path: Seq<char>, dir: Seq<char>, original: Seq<char>) -> bool {
    exists|stored: Seq<char>|
        #![trigger join_path(dir, stored)]
        is_fresh_name_for(stored, original) && join_path(dir, stored) == path
}

/// Whether a declared media type names a Windows executable.
pub open spec fn is_denied_type(content_type: Seq<char>) -> bool {
    ||| occurs_in("application/x-msdownload"@, content_type)
    ||| occurs_in("application/x-msdos-program"@, content_type)
    ||| occurs_in("application/x-msdos-windows"@, content_type)
    ||| occurs_in("application/x-download"@, content_type)
}

fn is_reserved_char(c: char) -> (reserved: bool)
    ensures
        reserved == is_reserved(c),
{
    c == '/' || c == '\\' || c == ':' || c == '*' || c == '?' || c == '"' || c == '<' || c == '>'
        || c == '|'
}

/// Replaces every reserved character of `name` by `_`.
pub fn replace_reserved(name: &str) -> (clean: String)
    ensures
        clean@ == sanitized_text(name@),
{
    let mut clean = String::new();
    for c in it: name.chars()
        invariant
            it.seq() == name@,
            clean@ == sanitized_text(name@.take(it.index())),
    {
        if is_reserved_char(c) {
            clean.push('_');
        } else {
            clean.push(c);
        }
        assert(clean@ =~= sanitized_text(name@.take(it.index() + 1)));
    }
    assert(name@.take(name@.len() as int) =~= name@);
    clean
}

/// Sanitising keeps a name that is not a dot name from becoming one.
proof fn lemma_sanitized_is_plain(name: Seq<char>)
    requires
        name.len() > 0,
        !is_dots(name),
    ensures
        is_plain_name(sanitized_text(name)),
{
    let clean = sanitized_text(name);
    if clean =~= seq!['.'] {
        assert(sanitized_char(name[0]) == '.');
        assert(name =~= seq!['.']);
    }
    if clean =~= seq!['.', '.'] {
        assert(sanitized_char(name[0]) == '.');
        assert(sanitized_char(name[1]) == '.');
        assert(name =~= seq!['.', '.']);
    }
}

/// Sanitising leaves a clean name as it is.
proof fn lemma_sanitized_clean(name: Seq<char>)
    requires
        is_clean(name),
    ensures
        sanitized_text(name) == name,
{
    assert(sanitized_text(name) =~= name);
}

/// The stand-in name is a plain name.
proof fn lemma_stand_in_is_plain()
    ensures
        is_plain_name("unknown_file"@),
{
    reveal_strlit("unknown_file");
    let name = "unknown_file"@;
    assert(name.len() == 12);
    assert forall|i: int| 0 <= i < name.len() implies !is_reserved(#[trigger] name[i]) by {
        assert(name[i] == 'u' || name[i] == 'n' || name[i] == 'k' || name[i] == 'o' || name[i]
            == 'w' || name[i] == '_' || name[i] == 'f' || name[i] == 'i' || name[i] == 'l'
            || name[i] == 'e');
    }
}

/// A sequence without a slash has no last slash.
proof fn lemma_no_slash(s: Seq<char>)
    requires
        forall|i: int| 0 <= i < s.len() ==> s[i] != '/',
    ensures
        last_slash(s) == -1,
    decreases s.len(),
{
    if s.len() > 0 {
        lemma_no_slash(s.drop_last());
    }
}

/// A plain name is a portable path, is its own final component, and is left
/// as it is by sanitising.
pub proof fn lemma_plain_name_is_kept(name: Seq<char>)
    requires
        is_plain_name(name),
    ensures
        is_portable(name),
        final_component(name) == Some(name),
        sanitized_name(name) == name,
{
    assert forall|i: int| 0 <= i < name.len() implies name[i] != '/' by {
        assert(!is_reserved(name[i]));
    }
    assert(is_portable(name)) by {
        assert forall|i: int| 0 <= i < name.len() implies #[trigger] name[i] != '\\' && name[i]
            != ':' by {
            assert(!is_reserved(name[i]));
        }
        if name.len() >= 2 {
            assert(!is_reserved(name[0]));
        }
    }
    lemma_no_slash(name);
    assert(name.last() == name[name.len() - 1]);
    assert(name.skip(0) =~= name);
    lemma_sanitized_clean(name);
}

/// Reduces a client's file name to a single safe name: the final component
/// of the path it may hold, with every reserved character replaced by `_`.
pub fn sanitize_filename(filename: &str) -> (clean: String)
    ensures
        is_plain_name(clean@),
        is_sanitized_from(clean@, filename@),
        is_portable(filename@) ==> clean@ == sanitized_name(filename@),
        is_plain_name(filename@) ==> clean@ == filename@,
{
    proof {
        if is_plain_name(filename@) {
            lemma_plain_name_is_kept(filename@);
        }
    }
    match path_file_name(filename) {
        Some(name) => {
            let clean = replace_reserved(name.as_str());
            proof {
                lemma_sanitized_is_plain(name@);
            }
            clean
        },
        None => {
            let clean = replace_reserved("unknown_file");
            proof {
                lemma_stand_in_is_plain();
                lemma_sanitized_clean("unknown_file"@);
            }
            clean
        },
    }
}

/// The last dot of a sequence lies inside it.
proof fn lemma_last_dot_bounds(s: Seq<char>)
    ensures
        -1 <= crate::host::last_dot(s) < s.len(),
    decreases s.len(),
{
    if s.len() > 0 && s.last() != '.' {
        lemma_last_dot_bounds(s.drop_last());
    }
}

/// A stored name made from clean parts is clean.
proof fn lemma_stored_name_clean(id: Seq<char>, name: Seq<char>)
    requires
        is_clean(id),
        is_clean(name),
    ensures
        is_clean(stored_name(id, name)),
{
    lemma_last_dot_bounds(name);
    let stored = stored_name(id, name);
    assert forall|i: int| 0 <= i < stored.len() implies !is_reserved(#[trigger] stored[i]) by {
        if i < id.len() {
            assert(stored[i] == id[i]);
        } else if i == id.len() {
            assert(stored[i] == '.');
        } else {
            let extension = extension_of(name)->0;
            let k = i - id.len() - 1;
            assert(stored[i] == extension[k]);
            assert(extension[k] == name[crate::host::last_dot(name) + 1 + k]);
        }
    }
}

/// The text of a version 4 UUID is clean.
proof fn lemma_uuid_text_clean(id: Seq<char>)
    requires
        is_uuid_text(id),
    ensures
        is_clean(id),
{
    assert forall|i: int| 0 <= i < id.len() implies !is_reserved(#[trigger] id[i]) by {
        if i == 8 || i == 13 || i == 18 || i == 23 {
            assert(id[i] == '-');
        } else {
            assert(crate::host::is_lower_hex(id[i]));
        }
    }
}

/// The name under which `original_filename` is stored with identifier `id`.
pub fn unique_filename_with_id(id: &str, original_filename: &str) -> (stored: String)
    ensures
        is_unique_name_for(stored@, id@, original_filename@),
        is_portable(original_filename@) ==> stored@ == stored_name(
            id@,
            sanitized_name(original_filename@),
        ),
        is_plain_name(original_filename@) ==> stored@ == stored_name(id@, original_filename@),
        is_clean(id@) ==> is_clean(stored@),
        stored@.len() >= id@.len(),
{
    let sanitized = sanitize_filename(original_filename);
    let stored = match path_extension(sanitized.as_str()) {
        Some(extension) => {
            if extension.as_str().is_empty() {
                String::from_str(id)
            } else {
                proof {
                    reveal_strlit(".");
                    assert("."@ =~= seq!['.']);
                }
                String::from_str(id).concat(".").concat(extension.as_str())
            }
        },
        None => String::from_str(id),
    };
    proof {
        assert(stored@ == stored_name(id@, sanitized@));
        if is_clean(id@) {
            lemma_stored_name_clean(id@, sanitized@);
        }
    }
    stored
}

/// A fresh name under which `original_filename` can be stored: a new
/// identifier, and the extension of the sanitised name where it has one.
pub fn generate_unique_filename(original_filename: &str) -> (stored: String)
    ensures
        is_fresh_name_for(stored@, original_filename@),
        is_portable(original_filename@) ==> is_fresh_name_with(
            stored@,
            sanitized_name(original_filename@),
        ),
        is_plain_name(original_filename@) ==> is_fresh_name_with(stored@, original_filename@),
{
    let id = fresh_uuid_text();
    let stored = unique_filename_with_id(id.as_str(), original_filename);
    proof {
        lemma_uuid_text_clean(id@);
        assert(is_unique_name_for(stored@, id@, original_filename@));
        if is_portable(original_filename@) {
            assert(stored_name(id@, sanitized_name(original_filename@)) == stored@);
        }
        if is_plain_name(original_filename@) {
            assert(stored_name(id@, original_filename@) == stored@);
        }
    }
    stored
}

/// A fresh storage path for `filename` in directory `dir`.
fn storage_path(dir: &str, filename: &str) -> (path: String)
    ensures
        is_storage_path(path@, dir@, filename@),
        is_portable(filename@) ==> is_fresh_path_with(path@, dir@, sanitized_name(filename@)),
        is_plain_name(filename@) ==> is_fresh_path_with(path@, dir@, filename@),
{
    let stored = generate_unique_filename(filename);
    let path = String::from_str(dir).concat("/").concat(stored.as_str());
    proof {
        reveal_strlit("/");
        assert("/"@ =~= seq!['/']);
        assert(join_path(dir@, stored@) == path@);
        if is_portable(filename@) {
            let id = choose|id: Seq<char>|
                is_uuid_text(id) && #[trigger] stored_name(id, sanitized_name(filename@))
                    == stored@;
            assert(join_path(dir@, stored_name(id, sanitized_name(filename@))) == path@);
        }
        if is_plain_name(filename@) {
            let id = choose|id: Seq<char>|
                is_uuid_text(id) && #[trigger] stored_name(id, filename@) == stored@;
            assert(join_path(dir@, stored_name(id, filename@)) == path@);
        }
    }
    path
}

/// A fresh path in the upload directory for a file that came as `filename`.
pub fn get_upload_path(filename: &str) -> (path: String)
    ensures
        is_storage_path(path@, "./data/uploads"@, filename@),
        is_portable(filename@) ==> is_fresh_path_with(
            path@,
            "./data/uploads"@,
            sanitized_name(filename@),
        ),
        is_plain_name(filename@) ==> is_fresh_path_with(path@, "./data/uploads"@, filename@),
{
    storage_path("./data/uploads", filename)
}

/// A fresh path in the directory of encrypted files for a file that came as
/// `filename`.
pub fn get_encrypted_path(filename: &str) -> (path: String)
    ensures
        is_storage_path(path@, "./data/encrypted"@, filename@),
        is_portable(filename@) ==> is_fresh_path_with(
            path@,
            "./data/encrypted"@,
            sanitized_name(filename@),
        ),
        is_plain_name(filename@) ==> is_fresh_path_with(path@, "./data/encrypted"@, filename@),
{
    storage_path("./data/encrypted", filename)
}

/// Whether a declared media type is accepted: none of the denied types may
/// stand anywhere in it.
pub fn validate_content_type(content_type: &str) -> (ok: bool)
    ensures
        ok == !is_denied_type(content_type@),
{
    !contains_text(content_type, "application/x-msdownload") && !contains_text(
        content_type,
        "application/x-msdos-program",
    ) && !contains_text(content_type, "application/x-msdos-windows") && !contains_text(
        content_type,
        "application/x-download",
    )
}

} // verus!
