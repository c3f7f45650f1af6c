//! Bindings to what the library takes from its surroundings: fresh
//! identifiers, the clock, and the standard library's path parsing.
//!
//! Everything in this module is trusted: Verus takes the contracts below as
//! given. Where the operating system cannot supply randomness, or its clock
//! stands before 1970, the crates panic, and no contract can rule that out.

use std::path::Path;
use vstd::prelude::*;

verus! {

/// The characters that never appear in a stored file name: path separators
/// and what shells and file systems treat specially.
pub open spec fn is_reserved(c: char) -> bool {
    c == '/' || c == '\\' || c == ':' || c == '*' || c == '?' || c == '"' || c == '<' || c == '>'
        || c == '|'
}

/// No character of `s` is reserved.
pub open spec fn is_clean(s: Seq<char>) -> bool {
    forall|i: int| 0 <= i < s.len() ==> !is_reserved(#[trigger] s[i])
}

/// `s` is one of the two names that stand for a directory itself or its parent.
pub open spec fn is_dots(s: Seq<char>) -> bool {
    s =~= seq!['.'] || s =~= seq!['.', '.']
}

/// `s` is a single file name: not empty, not a dot name, and clean, so that
/// no platform reads a separator or a drive prefix in it.
pub open spec fn is_plain_name(s: Seq<char>) -> bool {
    s.len() > 0 && !is_dots(s) && is_clean(s)
}

/// `name` can be the final component of `path` on some platform: a part of
/// it that is not empty and is not a dot name.
pub open spec fn is_component_of(name: Seq<char>, path: Seq<char>) -> bool {
    &&& name.len() > 0
    &&& !is_dots(name)
    &&& exists|start: int|
        0 <= start && start + name.len() <= path.len() && #[trigger] path.subrange(
            start,
            start + name.len(),
        ) == name
}

/// `path` holds no backslash and no colon and does not begin with two
/// slashes, so that every platform reads it alike: `/` is its only separator
/// and it has no drive or network prefix.
pub open spec fn is_portable(path: Seq<char>) -> bool {
    &&& forall|i: int| 0 <= i < path.len() ==> #[trigger] path[i] != '\\' && path[i] != ':'
    &&& !(path.len() >= 2 && path[0] == '/' && path[1] == '/')
}

/// Index of the last `/` in `s`, or -1 where it has none.
pub open spec fn last_slash(s: Seq<char>) -> int
    decreases s.len(),
{
    if s.len() == 0 {
        -1
    } else if s.last() == '/' {
        s.len() - 1
    } else {
        last_slash(s.drop_last())
    }
}

/// The final component of a portable path: what follows its last `/` once
/// every `/` and every `.` piece at its end is dropped. There is none where
/// nothing is left or where that piece is `..`.
pub open spec fn final_component(path: Seq<char>) -> Option<Seq<char>>
    decreases path.len(),
{
    if path.len() == 0 {
        None
    } else if path.last() == '/' {
        final_component(path.drop_last())
    } else {
        let piece = path.skip(last_slash(path) + 1);
        if piece =~= seq!['.'] {
            final_component(path.drop_last())
        } else if piece =~= seq!['.', '.'] {
            None
        } else {
            Some(piece)
        }
    }
}

/// Index of the last `.` in `s`, or -1 where it has none.
pub open spec fn last_dot(s: Seq<char>) -> int
    decreases s.len(),
{
    if s.len() == 0 {
        -1
    } else if s.last() == '.' {
        s.len() - 1
    } else {
        last_dot(s.drop_last())
    }
}

/// The extension of a single file name: what follows its last `.`, unless the
/// name is `..`, has no `.`, or has its only `.` in front.
pub open spec fn extension_of(name: Seq<char>) -> Option<Seq<char>> {
    if name =~= seq!['.', '.'] || last_dot(name) <= 0 {
        None
    } else {
        Some(name.subrange(last_dot(name) + 1, name.len() as int))
    }
}

/// `c` is a digit or one of the letters `a` to `f`.
pub open spec fn is_lower_hex(c: char) -> bool {
    ('0' <= c && c <= '9') || ('a' <= c && c <= 'f')
}

/// `s` is the hyphenated lower-case text of a version 4 UUID:
/// `xxxxxxxx-xxxx-4xxx-yxxx-xxxxxxxxxxxx`, with `y` one of `8`, `9`, `a`, `b`.
pub open spec fn is_uuid_text(s: Seq<char>) -> bool {
    &&& s.len() == 36
    &&& forall|i: int|
        0 <= i < 36 ==> if i == 8 || i == 13 || i == 18 || i == 23 {
            #[trigger] s[i] == '-'
        } else {
            is_lower_hex(s[i])
        }
    &&& s[14] == '4'
    &&& (s[19] == '8' || s[19] == '9' || s[19] == 'a' || s[19] == 'b')
}

/// The view of an optional string.
pub open spec fn text_of(s: Option<String>) -> Option<Seq<char>> {
    match s {
        Some(text) => Some(text@),
        None => None,
    }
}

/// `String::push`: appends one character.
pub assume_specification[ String::push ](s: &mut String, ch: char)
    ensures
        final(s)@ == old(s)@.push(ch),
;

/// `Uuid::new_v4` and its `Display`: a random version 4 UUID in hyphenated
/// lower-case form. Nothing is claimed of the random digits; in particular
/// not that two calls differ.
#[verifier::external_body]
pub(crate) fn fresh_uuid_text() -> (id: String)
    ensures
        is_uuid_text(id@),
{
    uuid::Uuid::new_v4().to_string()
}

/// `Utc::now` and `DateTime::timestamp_millis`: the system clock's time in
/// milliseconds since the Unix epoch. Nothing is claimed of the value.
#[verifier::external_body]
pub(crate) fn now_millis() -> (millis: i64) {
    chrono::Utc::now().timestamp_millis()
}

/// `Path::file_name`: the final component of a path, if it ends in one.
/// Separators that repeat or end the path are passed over, and so is a `.`
/// between or after them; a path that ends in `..` has no file name. What a
/// platform takes for a separator or a prefix differs for a path with a
/// backslash, a colon or two slashes in front, so the component is stated for
/// portable paths only.
/// Of every path this holds: a component is a part of the path, not empty and
/// not a dot name.
#[verifier::external_body]
pub(crate) fn path_file_name(path: &str) -> (name: Option<String>)
    ensures
        name matches Some(component) ==> is_component_of(component@, path@),
        is_portable(path@) ==> text_of(name) == final_component(path@),
{
    Path::new(path).file_name().and_then(|name| name.to_str()).map(|name| name.to_string())
}

/// `Path::extension` on a clean name, in which no platform sees more than one
/// component: the part after the last `.`, as `extension_of` says.
#[verifier::external_body]
pub(crate) fn path_extension(name: &str) -> (extension: Option<String>)
    requires
        is_clean(name@),
    ensures
        text_of(extension) == extension_of(name@),
{
    Path::new(name).extension().and_then(|ext| ext.to_str()).map(|ext| ext.to_string())
}

} // verus!
