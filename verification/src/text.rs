//! Character-level scanning used by link validation and archive-entry
//! selection: prefix tests and substring search over `&str`, proved against
//! sequence-level definitions.

use vstd::prelude::*;

verus! {

/// The first `p.len()` characters of `s` are exactly `p`.
pub open spec fn is_prefix(p: Seq<char>, s: Seq<char>) -> bool {
    p.len() <= s.len() && forall|j: int| 0 <= j < p.len() ==> s[j] == p[j]
}

/// `p` occurs in `s` starting at position `i`.
pub open spec fn match_at(s: Seq<char>, p: Seq<char>, i: int) -> bool {
    0 <= i && i + p.len() <= s.len() && forall|k: int| 0 <= k < p.len() ==> s[i + k] == p[k]
}

/// `p` occurs somewhere in `s`.
pub open spec fn has_substring(s: Seq<char>, p: Seq<char>) -> bool {
    exists|i: int| match_at(s, p, i)
}

/// True iff `s` begins with the characters of `p`.
pub fn str_has_prefix(s: &str, p: &str) -> (r: bool)
    ensures
        r == is_prefix(p@, s@),
{
    let sl = s.unicode_len();
    let pl = p.unicode_len();
    if pl > sl {
        return false;
    }
    let mut i: usize = 0;
    while i < pl
        invariant
            i <= pl,
            pl <= sl,
            sl == s@.len(),
            pl == p@.len(),
            forall|j: int| 0 <= j < i ==> s@[j] == p@[j],
        decreases pl - i,
    {
        if s.get_char(i) != p.get_char(i) {
            assert(s@[i as int] != p@[i as int]);
            return false;
        }
        i += 1;
    }
    true
}

/// True iff `p` occurs at position `i` of `s`.
fn str_match_at(s: &str, p: &str, i: usize) -> (r: bool)
    requires
        i + p@.len() <= s@.len(),
        s@.len() <= usize::MAX,
    ensures
        r == match_at(s@, p@, i as int),
{
    let pl = p.unicode_len();
    let mut k: usize = 0;
    while k < pl
        invariant
            k <= pl,
            pl == p@.len(),
            i + pl <= s@.len(),
            s@.len() <= usize::MAX,
            forall|j: int| 0 <= j < k ==> s@[i + j] == p@[j],
        decreases pl - k,
    {
        if s.get_char(i + k) != p.get_char(k) {
            assert(s@[i + k as int] != p@[k as int]);
            return false;
        }
        k += 1;
    }
    true
}

/// True iff the characters of `p` occur contiguously somewhere in `s`.
pub fn str_has_substring(s: &str, p: &str) -> (r: bool)
    ensures
        r == has_substring(s@, p@),
{
    let sl = s.unicode_len();
    let pl = p.unicode_len();
    if pl > sl {
        assert(forall|i: int| !match_at(s@, p@, i));
        return false;
    }
    let mut i: usize = 0;
    while i <= sl - pl
        invariant
            i <= sl - pl + 1,
            pl <= sl,
            sl == s@.len(),
            pl == p@.len(),
            forall|j: int| 0 <= j < i ==> !match_at(s@, p@, j),
        decreases sl - pl + 1 - i,
    {
        if str_match_at(s, p, i) {
            return true;
        }
        i += 1;
    }
    assert forall|j: int| !match_at(s@, p@, j) by {
        if match_at(s@, p@, j) {
            assert(0 <= j <= sl - pl);
        }
    }
    false
}

} // verus!
