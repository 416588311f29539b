//! Byte-string predicates and constructors shared by the packing pipeline:
//! prefix, suffix and infix tests on `[u8]`, and concatenation into `Vec<u8>`.
use vstd::prelude::*;

verus! {

/// `needle` occurs in `s` starting at position `i`.
pub open spec fn matches_at(s: Seq<u8>, needle: Seq<u8>, i: int) -> bool {
    0 <= i && i + needle.len() <= s.len() && s.subrange(i, i + needle.len() as int) == needle
}

/// `needle` occurs somewhere in `s`.
pub open spec fn has_infix(s: Seq<u8>, needle: Seq<u8>) -> bool {
    exists|i: int| matches_at(s, needle, i)
}

/// Compares `needle` against the bytes of `s` beginning at `i`.
fn eq_at(s: &[u8], needle: &[u8], i: usize) -> (r: bool)
    requires
        i + needle@.len() <= s@.len(),
    ensures
        r == matches_at(s@, needle@, i as int),
{
    let n = needle.len();
    let slen = s.len();
    let mut j: usize = 0;
    while j < n
        invariant
            n == needle@.len(),
            slen == s@.len(),
            i + n <= slen,
            j <= n,
            forall|k: int| 0 <= k < j ==> s@[i + k] == needle@[k],
        decreases n - j,
    {
        if s[i + j] != needle[j] {
            assert(s@.subrange(i as int, i + needle@.len()) != needle@) by {
                assert(s@.subrange(i as int, i + needle@.len())[j as int] == s@[i + j]);
            }
            return false;
        }
        j += 1;
    }
    assert(s@.subrange(i as int, i + needle@.len()) =~= needle@);
    true
}

/// True exactly when `prefix` is a prefix of `s`.
pub fn starts_with(s: &[u8], prefix: &[u8]) -> (r: bool)
    ensures
        r == prefix@.is_prefix_of(s@),
{
    if prefix.len() > s.len() {
        return false;
    }
    let r = eq_at(s, prefix, 0);
    assert(s@.subrange(0, prefix@.len() as int) == s@.take(prefix@.len() as int));
    r
}

/// True exactly when `suffix` is a suffix of `s`.
pub fn ends_with(s: &[u8], suffix: &[u8]) -> (r: bool)
    ensures
        r == suffix@.is_suffix_of(s@),
{
    if suffix.len() > s.len() {
        return false;
    }
    let start = s.len() - suffix.len();
    let r = eq_at(s, suffix, start);
    assert(s@.subrange(start as int, start + suffix@.len()) == s@.skip(s@.len() - suffix@.len()));
    r
}

/// True exactly when `needle` occurs somewhere in `s`.
pub fn contains_slice(s: &[u8], needle: &[u8]) -> (r: bool)
    ensures
        r == has_infix(s@, needle@),
{
    if needle.len() > s.len() {
        assert(!has_infix(s@, needle@));
        return false;
    }
    if needle.len() == 0 {
        assert(matches_at(s@, needle@, 0)) by {
            assert(s@.subrange(0, 0) =~= needle@);
        }
        return true;
    }
    let last = s.len() - needle.len();
    let mut i: usize = 0;
    while i <= last
        invariant
            1 <= needle@.len() <= s@.len(),
            last == s@.len() - needle@.len(),
            last < usize::MAX,
            i <= last + 1,
            forall|k: int| 0 <= k < i ==> !matches_at(s@, needle@, k),
        decreases last - i + 1,
    {
        if eq_at(s, needle, i) {
            assert(has_infix(s@, needle@));
            return true;
        }
        i += 1;
    }
    assert forall|k: int| !matches_at(s@, needle@, k) by {
        if k > last {
        }
    }
    false
}

/// For a byte vector the deep view is the view itself.
pub proof fn lemma_bytes_deep_view(v: Vec<u8>)
    ensures
        v.deep_view() == v@,
{
    assert(v.deep_view() =~= v@);
}

/// A vector of `n` zero bytes.
pub fn zeroes(n: usize) -> (r: Vec<u8>)
    ensures
        r@.len() == n,
        forall|i: int| 0 <= i < n ==> r@[i] == 0,
{
    let mut r: Vec<u8> = Vec::new();
    let mut i: usize = 0;
    while i < n
        invariant
            i <= n,
            r@.len() == i,
            forall|k: int| 0 <= k < i ==> r@[k] == 0,
        decreases n - i,
    {
        r.push(0);
        i += 1;
    }
    r
}

/// Copies a slice into a fresh vector.
pub fn to_vec(s: &[u8]) -> (r: Vec<u8>)
    ensures
        r@ == s@,
{
    let mut v: Vec<u8> = Vec::new();
    v.extend_from_slice(s);
    v
}

/// Concatenates two byte strings.
pub fn concat2(a: &[u8], b: &[u8]) -> (r: Vec<u8>)
    ensures
        r@ == a@ + b@,
{
    let mut v: Vec<u8> = Vec::new();
    v.extend_from_slice(a);
    v.extend_from_slice(b);
    v
}

/// Concatenates three byte strings.
pub fn concat3(a: &[u8], b: &[u8], c: &[u8]) -> (r: Vec<u8>)
    ensures
        r@ == a@ + b@ + c@,
{
    let mut v: Vec<u8> = Vec::new();
    v.extend_from_slice(a);
    v.extend_from_slice(b);
    v.extend_from_slice(c);
    v
}

/// Joins a directory and a file name with the path separator.
pub fn join_path(dir: &[u8], name: &[u8]) -> (r: Vec<u8>)
    ensures
        r@ == dir@ + seq![47u8] + name@,
{
    let sep: [u8; 1] = [47u8];
    concat3(dir, sep.as_slice(), name)
}

} // verus!
