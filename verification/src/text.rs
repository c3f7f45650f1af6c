//! Searching and cutting text, character by character.

use vstd::prelude::*;
use vstd::string::StringExecFns;

verus! {

/// `needle` stands in `text` from index `start` on.
pub open spec fn occurs_at(needle: Seq<char>, text: Seq<char>, start: int) -> bool {
    &&& 0 <= start
    &&& start + needle.len() <= text.len()
    &&& text.subrange(start, start + needle.len()) == needle
}

/// `needle` stands somewhere in `text`.
pub open spec fn occurs_in(needle: Seq<char>, text: Seq<char>) -> bool {
    exists|start: int| occurs_at(needle, text, start)
}

/// `text` with every occurrence of `pattern` taken out, found from the left
/// and never overlapping. An empty pattern occurs nowhere.
pub open spec fn without_text(text: Seq<char>, pattern: Seq<char>) -> Seq<char>
    decreases text.len(),
{
    if pattern.len() == 0 || text.len() < pattern.len() {
        text
    } else if text.take(pattern.len() as int) == pattern {
        without_text(text.skip(pattern.len() as int), pattern)
    } else {
        seq![text[0]] + without_text(text.skip(1), pattern)
    }
}

/// The characters of a string, in order.
pub fn chars_of(s: &str) -> (chars: Vec<char>)
    ensures
        chars@ == s@,
{
    let mut chars: Vec<char> = Vec::new();
    for c in it: s.chars()
        invariant
            it.seq() == s@,
            chars@ == s@.take(it.index()),
    {
        chars.push(c);
    }
    chars
}

/// Whether `needle` stands in `text` from index `start` on.
fn matches_at(needle: &Vec<char>, text: &Vec<char>, start: usize) -> (found: bool)
    requires
        start + needle@.len() <= text@.len(),
    ensures
        found == occurs_at(needle@, text@, start as int),
{
    let mut i: usize = 0;
    while i < needle.len()
        invariant
            0 <= i <= needle.len(),
            start + needle.len() <= text.len(),
            forall|k: int| 0 <= k < i ==> text@[start + k] == needle@[k],
        decreases needle.len() - i,
    {
        if text[start + i] != needle[i] {
            proof {
                let part = text@.subrange(start as int, start + needle.len());
                assert(part[i as int] != needle@[i as int]);
            }
            return false;
        }
        i += 1;
    }
    assert(text@.subrange(start as int, start + needle.len()) =~= needle@);
    true
}

/// Whether `needle` stands somewhere in `text`.
pub fn contains_text(text: &str, needle: &str) -> (found: bool)
    ensures
        found == occurs_in(needle@, text@),
{
    let hay = chars_of(text);
    let pattern = chars_of(needle);
    if pattern.len() > hay.len() {
        return false;
    }
    let last: usize = hay.len() - pattern.len();
    let mut start: usize = 0;
    loop
        invariant
            hay@ == text@,
            pattern@ == needle@,
            last + pattern.len() == hay.len(),
            0 <= start <= last,
            forall|k: int| 0 <= k < start ==> !occurs_at(needle@, text@, k),
        decreases last - start,
    {
        if matches_at(&pattern, &hay, start) {
            assert(occurs_at(needle@, text@, start as int));
            return true;
        }
        if start == last {
            return false;
        }
        start += 1;
    }
}

/// Takes every occurrence of `pattern` out of `text`.
pub fn remove_all(text: &str, pattern: &str) -> (rest: String)
    ensures
        rest@ == without_text(text@, pattern@),
{
    let hay = chars_of(text);
    let cut = chars_of(pattern);
    if cut.len() == 0 {
        return String::from_str(text);
    }
    let mut rest = String::new();
    let mut i: usize = 0;
    proof {
        assert(hay@.skip(0) =~= hay@);
        assert(rest@ + without_text(hay@, cut@) =~= without_text(hay@, cut@));
    }
    while i < hay.len()
        invariant
            0 <= i <= hay.len(),
            hay@ == text@,
            cut@ == pattern@,
            cut.len() > 0,
            rest@ + without_text(hay@.skip(i as int), cut@) == without_text(hay@, cut@),
        decreases hay.len() - i,
    {
        let ghost tail = hay@.skip(i as int);
        if hay.len() - i >= cut.len() && matches_at(&cut, &hay, i) {
            proof {
                assert(tail.take(cut.len() as int) =~= hay@.subrange(i as int, i + cut.len()));
                assert(tail.skip(cut.len() as int) =~= hay@.skip(i + cut.len()));
            }
            i += cut.len();
        } else {
            proof {
                if tail.len() >= cut.len() {
                    assert(tail.take(cut.len() as int) =~= hay@.subrange(
                        i as int,
                        i + cut.len(),
                    ));
                } else {
                    assert(seq![tail[0]] + tail.skip(1) =~= tail);
                }
                assert(tail.skip(1) =~= hay@.skip(i + 1));
                assert(rest@.push(hay@[i as int]) + without_text(hay@.skip(i + 1), cut@) =~= rest@
                    + (seq![tail[0]] + without_text(tail.skip(1), cut@)));
            }
            rest.push(hay[i]);
            i += 1;
        }
    }
    proof {
        assert(hay@.skip(hay.len() as int) =~= Seq::<char>::empty());
        assert(rest@ + Seq::<char>::empty() =~= rest@);
    }
    rest
}

} // verus!
