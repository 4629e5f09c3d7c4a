//! Comparisons and searches on text, stated over sequences of characters.

use vstd::prelude::*;
use vstd::string::*;

verus! {

/// `needle` stands in `haystack` starting at index `at`.
pub open spec fn occurs_at(needle: Seq<char>, haystack: Seq<char>, at: int) -> bool {
    &&& 0 <= at
    &&& at + needle.len() <= haystack.len()
    &&& haystack.subrange(at, at + needle.len()) == needle
}

/// `needle` stands somewhere in `haystack`, character for character.
pub open spec fn is_substring(needle: Seq<char>, haystack: Seq<char>) -> bool {
    exists|at: int| occurs_at(needle, haystack, at)
}

/// The view of an optional text.
pub open spec fn opt_text(text: Option<&str>) -> Option<Seq<char>> {
    match text {
        Some(t) => Some(t@),
        None => None,
    }
}

/// The view of an optional owned text.
pub open spec fn opt_string(text: Option<String>) -> Option<Seq<char>> {
    match text {
        Some(t) => Some(t@),
        None => None,
    }
}

/// Whether two texts hold the same characters.
pub fn str_eq(a: &str, b: &str) -> (same: bool)
    ensures
        same == (a@ == b@),
{
    let left = a.to_owned();
    let right = b.to_owned();
    left == right
}

/// The characters of a text, one by one.
pub fn chars_of(text: &str) -> (chars: Vec<char>)
    ensures
        chars@ == text@,
{
    let n = text.unicode_len();
    let mut chars: Vec<char> = Vec::new();
    let mut i: usize = 0;
    while i < n
        invariant
            n == text@.len(),
            i <= n,
            chars@ == text@.subrange(0, i as int),
        decreases n - i,
    {
        let c = text.get_char(i);
        chars.push(c);
        assert(chars@ =~= text@.subrange(0, i + 1));
        i = i + 1;
    }
    assert(text@.subrange(0, n as int) =~= text@);
    chars
}

/// Whether `needle` stands in `haystack` at index `at`.
fn occurs_at_index(needle: &Vec<char>, haystack: &Vec<char>, at: usize) -> (found: bool)
    requires
        at + needle.len() <= haystack.len(),
    ensures
        found == occurs_at(needle@, haystack@, at as int),
{
    let mut k: usize = 0;
    while k < needle.len()
        invariant
            at + needle.len() <= haystack.len(),
            k <= needle.len(),
            forall|j: int| 0 <= j < k ==> haystack@[at + j] == needle@[j],
        decreases needle.len() - k,
    {
        if haystack[at + k] != needle[k] {
            assert(haystack@.subrange(at as int, at + needle.len())[k as int] != needle@[k as int]);
            return false;
        }
        k = k + 1;
    }
    assert(haystack@.subrange(at as int, at + needle.len()) =~= needle@);
    true
}

/// Whether `needle` stands somewhere in `haystack`. The comparison is by
/// character and tells upper case from lower case.
pub fn contains(haystack: &str, needle: &str) -> (found: bool)
    ensures
        found == is_substring(needle@, haystack@),
{
    let h = chars_of(haystack);
    let n = chars_of(needle);
    if n.len() > h.len() {
        assert(forall|at: int| !occurs_at(n@, h@, at));
        return false;
    }
    let last = h.len() - n.len();
    let mut i: usize = 0;
    while i < last
        invariant
            h@ == haystack@,
            n@ == needle@,
            last == h.len() - n.len(),
            i <= last,
            forall|at: int| 0 <= at < i ==> !occurs_at(n@, h@, at),
        decreases last - i,
    {
        if occurs_at_index(&n, &h, i) {
            return true;
        }
        i = i + 1;
    }
    let found = occurs_at_index(&n, &h, last);
    assert(!found ==> forall|at: int| !occurs_at(n@, h@, at));
    found
}

/// Whether `text` begins with `prefix`.
pub fn starts_with(text: &str, prefix: &str) -> (found: bool)
    ensures
        found == prefix@.is_prefix_of(text@),
{
    let t = chars_of(text);
    let p = chars_of(prefix);
    if p.len() > t.len() {
        return false;
    }
    let found = occurs_at_index(&p, &t, 0);
    found
}

} // verus!
