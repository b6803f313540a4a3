//! Character-level predicates on strings, used to classify stack frames.

use vstd::prelude::*;
use vstd::string::*;

verus! {

/// `prefix` is a prefix of `s`.
pub open spec fn is_prefix_of(prefix: Seq<char>, s: Seq<char>) -> bool {
    prefix.len() <= s.len() && s.subrange(0, prefix.len() as int) == prefix
}

/// `needle` occurs in `s` starting at position `i`.
pub open spec fn occurs_at(s: Seq<char>, needle: Seq<char>, i: int) -> bool {
    0 <= i && i + needle.len() <= s.len() && s.subrange(i, i + needle.len()) == needle
}

/// `needle` occurs somewhere in `s` (the empty sequence occurs everywhere).
pub open spec fn is_substring_of(needle: Seq<char>, s: Seq<char>) -> bool {
    exists|i: int| occurs_at(s, needle, i)
}

/// Does `s` start with `prefix`?
pub fn starts_with(s: &str, prefix: &str) -> (r: bool)
    ensures
        r == is_prefix_of(prefix@, s@),
{
    let n = prefix.unicode_len();
    let m = s.unicode_len();
    if n > m {
        return false;
    }
    let mut i: usize = 0;
    while i < n
        invariant
            n == prefix@.len(),
            m == s@.len(),
            n <= m,
            i <= n,
            forall|j: int| 0 <= j < i ==> s@[j] == prefix@[j],
        decreases n - i,
    {
        if s.get_char(i) != prefix.get_char(i) {
            assert(s@.subrange(0, n as int)[i as int] != prefix@[i as int]);
            return false;
        }
        i = i + 1;
    }
    assert(s@.subrange(0, n as int) =~= prefix@);
    true
}

/// Does `needle` occur in `s` at character position `at`?
fn matches_at(s: &str, needle: &str, at: usize, m: usize, n: usize) -> (r: bool)
    requires
        m == s@.len(),
        n == needle@.len(),
        at + n <= m,
    ensures
        r == occurs_at(s@, needle@, at as int),
{
    let mut j: usize = 0;
    while j < n
        invariant
            m == s@.len(),
            n == needle@.len(),
            at + n <= m,
            j <= n,
            forall|k: int| 0 <= k < j ==> s@[at + k] == needle@[k],
        decreases n - j,
    {
        if s.get_char(at + j) != needle.get_char(j) {
            assert(s@.subrange(at as int, at + n)[j as int] != needle@[j as int]);
            return false;
        }
        j = j + 1;
    }
    assert(s@.subrange(at as int, at + n) =~= needle@);
    true
}

/// Does `needle` occur anywhere in `s`?
pub fn contains(s: &str, needle: &str) -> (r: bool)
    ensures
        r == is_substring_of(needle@, s@),
{
    let n = needle.unicode_len();
    let m = s.unicode_len();
    if n > m {
        assert forall|i: int| !occurs_at(s@, needle@, i) by {}
        return false;
    }
    let mut at: usize = 0;
    loop
        invariant
            m == s@.len(),
            n == needle@.len(),
            n <= m,
            at <= m - n,
            forall|i: int| 0 <= i < at ==> !occurs_at(s@, needle@, i),
        decreases m - n - at,
    {
        if matches_at(s, needle, at, m, n) {
            return true;
        }
        if at == m - n {
            assert forall|i: int| !occurs_at(s@, needle@, i) by {
                if 0 <= i < at {
                }
            }
            return false;
        }
        at = at + 1;
    }
}

} // verus!
