//! Verified string primitives: character-exact equality, prefix tests and
//! substring search, together with the spec-level description of inserting a
//! block before the first occurrence of a marker.

use vstd::prelude::*;
use vstd::string::StrSliceExecFns;

verus! {

/// `pat` occurs in `text` starting at position `i`.
pub open spec fn occurs_at(text: Seq<char>, pat: Seq<char>, i: int) -> bool {
    0 <= i && i + pat.len() <= text.len() && text.subrange(i, i + pat.len() as int) == pat
}

/// `pat` occurs somewhere in `text`.
pub open spec fn has_occurrence(text: Seq<char>, pat: Seq<char>) -> bool {
    exists|i: int| occurs_at(text, pat, i)
}

/// `i` is the position of the first occurrence of `pat` in `text`.
pub open spec fn is_first_occurrence(text: Seq<char>, pat: Seq<char>, i: int) -> bool {
    occurs_at(text, pat, i) && (forall|j: int| 0 <= j < i ==> !occurs_at(text, pat, j))
}

/// `text` has a first occurrence of `pat`.
pub open spec fn has_first_occurrence(text: Seq<char>, pat: Seq<char>) -> bool {
    exists|i: int| is_first_occurrence(text, pat, i)
}

/// The position of the first occurrence of `pat` in `text`.
pub open spec fn first_occurrence(text: Seq<char>, pat: Seq<char>) -> int {
    choose|i: int| is_first_occurrence(text, pat, i)
}

/// Two positions that are both first occurrences coincide.
pub proof fn lemma_first_occurrence_unique(text: Seq<char>, pat: Seq<char>, i1: int, i2: int)
    requires
        is_first_occurrence(text, pat, i1),
        is_first_occurrence(text, pat, i2),
    ensures
        i1 == i2,
{
    if i1 < i2 {
        assert(!occurs_at(text, pat, i1));
    } else if i2 < i1 {
        assert(!occurs_at(text, pat, i2));
    }
}

/// The result of inserting `ins` into `text` immediately before the first
/// occurrence of `pat`; `text` unchanged when `pat` does not occur.
pub open spec fn insert_before_first(text: Seq<char>, pat: Seq<char>, ins: Seq<char>) -> Seq<char> {
    if has_first_occurrence(text, pat) {
        let i = first_occurrence(text, pat);
        text.take(i) + ins + text.skip(i)
    } else {
        text
    }
}

/// Law: when `pat` occurs in `text` and `i` is its first occurrence,
/// insertion puts `ins` immediately before that occurrence: the document up
/// to `i` and from `i` on is unchanged, the marker follows the inserted text,
/// and a non-empty insertion strictly lengthens the document.
pub proof fn lemma_insert_with_marker(text: Seq<char>, pat: Seq<char>, ins: Seq<char>, i: int)
    requires
        is_first_occurrence(text, pat, i),
    ensures
        insert_before_first(text, pat, ins) == text.take(i) + ins + text.skip(i),
        insert_before_first(text, pat, ins).len() == text.len() + ins.len(),
        ins.len() > 0 ==> insert_before_first(text, pat, ins).len() > text.len(),
        occurs_at(text.take(i) + ins + text.skip(i), pat, i + ins.len()),
{
    assert(has_first_occurrence(text, pat));
    let j = first_occurrence(text, pat);
    lemma_first_occurrence_unique(text, pat, i, j);
    let out = text.take(i) + ins + text.skip(i);
    assert(out.subrange(i + ins.len(), i + ins.len() + pat.len() as int) =~= text.subrange(
        i,
        i + pat.len() as int,
    ));
}

/// Law: when `pat` does not occur in `text`, insertion returns `text`
/// unchanged.
pub proof fn lemma_insert_no_marker(text: Seq<char>, pat: Seq<char>, ins: Seq<char>)
    requires
        !has_occurrence(text, pat),
    ensures
        insert_before_first(text, pat, ins) == text,
{
    if has_first_occurrence(text, pat) {
        let i = choose|i: int| is_first_occurrence(text, pat, i);
        assert(occurs_at(text, pat, i));
    }
}

/// Character-exact string equality.
pub fn str_eq(a: &str, b: &str) -> (r: bool)
    ensures
        r == (a@ == b@),
{
    let alen = a.unicode_len();
    let blen = b.unicode_len();
    if alen != blen {
        return false;
    }
    let mut i: usize = 0;
    while i < alen
        invariant
            alen == a@.len(),
            alen == b@.len(),
            0 <= i <= alen,
            forall|k: int| 0 <= k < i ==> a@[k] == b@[k],
        decreases alen - i,
    {
        if a.get_char(i) != b.get_char(i) {
            return false;
        }
        i = i + 1;
    }
    proof {
        assert(a@ =~= b@);
    }
    true
}

/// Whether `p` is a prefix of `s`.
pub fn has_prefix(s: &str, p: &str) -> (r: bool)
    ensures
        r == (p@.len() <= s@.len() && s@.subrange(0, p@.len() as int) == p@),
{
    let slen = s.unicode_len();
    let plen = p.unicode_len();
    if plen > slen {
        return false;
    }
    let mut i: usize = 0;
    while i < plen
        invariant
            slen == s@.len(),
            plen == p@.len(),
            plen <= slen,
            0 <= i <= plen,
            forall|k: int| 0 <= k < i ==> s@[k] == p@[k],
        decreases plen - i,
    {
        if s.get_char(i) != p.get_char(i) {
            proof {
                assert(s@.subrange(0, p@.len() as int)[i as int] != p@[i as int]);
            }
            return false;
        }
        i = i + 1;
    }
    proof {
        assert(s@.subrange(0, p@.len() as int) =~= p@);
    }
    true
}

/// Whether the character `c` occurs in `s`.
pub fn contains_char(s: &str, c: char) -> (r: bool)
    ensures
        r == s@.contains(c),
{
    let slen = s.unicode_len();
    let mut i: usize = 0;
    while i < slen
        invariant
            slen == s@.len(),
            0 <= i <= slen,
            forall|k: int| 0 <= k < i ==> s@[k] != c,
        decreases slen - i,
    {
        if s.get_char(i) == c {
            assert(s@[i as int] == c);
            return true;
        }
        i = i + 1;
    }
    assert(!s@.contains(c));
    false
}

/// Whether `pat` occurs in `text` at position `i`.
fn matches_at(text: &str, pat: &str, i: usize, tlen: usize, plen: usize) -> (r: bool)
    requires
        tlen == text@.len(),
        plen == pat@.len(),
        i + plen <= tlen,
    ensures
        r == occurs_at(text@, pat@, i as int),
{
    let mut k: usize = 0;
    while k < plen
        invariant
            tlen == text@.len(),
            plen == pat@.len(),
            i + plen <= tlen,
            0 <= k <= plen,
            forall|m: int| 0 <= m < k ==> text@[i + m] == pat@[m],
        decreases plen - k,
    {
        if text.get_char(i + k) != pat.get_char(k) {
            proof {
                assert(text@.subrange(i as int, i + plen as int)[k as int] != pat@[k as int]);
            }
            return false;
        }
        k = k + 1;
    }
    proof {
        assert(text@.subrange(i as int, i + plen as int) =~= pat@);
    }
    true
}

/// Position of the first occurrence of `pat` in `text`, if any.
pub fn find_first(text: &str, pat: &str) -> (r: Option<usize>)
    ensures
        match r {
            Some(i) => is_first_occurrence(text@, pat@, i as int),
            None => !has_occurrence(text@, pat@),
        },
{
    let tlen = text.unicode_len();
    let plen = pat.unicode_len();
    if plen > tlen {
        return None;
    }
    if plen == 0 {
        proof {
            assert(text@.subrange(0, 0) =~= pat@);
        }
        return Some(0);
    }
    let mut i: usize = 0;
    while i <= tlen - plen
        invariant
            tlen == text@.len(),
            plen == pat@.len(),
            1 <= plen <= tlen,
            0 <= i <= tlen - plen + 1,
            forall|j: int| 0 <= j < i ==> !occurs_at(text@, pat@, j),
        decreases tlen - plen + 1 - i,
    {
        if matches_at(text, pat, i, tlen, plen) {
            return Some(i);
        }
        i = i + 1;
    }
    None
}

} // verus!
