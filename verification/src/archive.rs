//! Choosing build artifacts out of a directory listing: the prebuilt module
//! archive (by name prefix and suffix) and the program's own object file
//! inside the unpacked archive (by name infix and suffix).
//!
//! Both picks take the *first* matching name in listing order; when several
//! names match, no further tie-break is defined.
use vstd::prelude::*;
use crate::bytes;
use crate::select::{first_where, lemma_first_where_is, lemma_first_where_none};

verus! {

/// The archive-search test: named with this prefix and this suffix.
pub open spec fn name_matches(name: Seq<u8>, prefix: Seq<u8>, suffix: Seq<u8>) -> bool {
    prefix.is_prefix_of(name) && suffix.is_suffix_of(name)
}

/// `name_matches` as a predicate on one listing entry.
pub open spec fn affix_pred(prefix: Seq<u8>, suffix: Seq<u8>) -> spec_fn(Seq<u8>) -> bool {
    |n: Seq<u8>| name_matches(n, prefix, suffix)
}

/// The object-file test: containing this infix and carrying this suffix.
pub open spec fn object_matches(name: Seq<u8>, infix: Seq<u8>, suffix: Seq<u8>) -> bool {
    bytes::has_infix(name, infix) && suffix.is_suffix_of(name)
}

/// `object_matches` as a predicate on one listing entry.
pub open spec fn infix_pred(infix: Seq<u8>, suffix: Seq<u8>) -> spec_fn(Seq<u8>) -> bool {
    |n: Seq<u8>| object_matches(n, infix, suffix)
}

/// Picks the first name of the listing that starts with `prefix` and ends
/// with `suffix`; nothing earlier in the listing matches, and a `None` means
/// nothing at all does.
pub fn find_by_affix(names: &Vec<Vec<u8>>, prefix: &[u8], suffix: &[u8]) -> (r: Option<usize>)
    ensures
        match r {
            Some(i) => {
                &&& i < names@.len()
                &&& name_matches(names.deep_view()[i as int], prefix@, suffix@)
                &&& forall|k: int|
                    0 <= k < i ==> !name_matches(
                        #[trigger] names.deep_view()[k],
                        prefix@,
                        suffix@,
                    )
                &&& first_where(names.deep_view(), affix_pred(prefix@, suffix@)) == Some(i as int)
            },
            None => {
                &&& forall|k: int|
                    0 <= k < names@.len() ==> !name_matches(
                        #[trigger] names.deep_view()[k],
                        prefix@,
                        suffix@,
                    )
                &&& first_where(names.deep_view(), affix_pred(prefix@, suffix@)) is None
            },
        },
{
    let n = names.len();
    let mut i: usize = 0;
    while i < n
        invariant
            n == names@.len(),
            i <= n,
            forall|k: int|
                0 <= k < i ==> !name_matches(#[trigger] names.deep_view()[k], prefix@, suffix@),
        decreases n - i,
    {
        let name = names[i].as_slice();
        proof {
            assert(name@ == names.deep_view()[i as int]);
        }
        if bytes::starts_with(name, prefix) && bytes::ends_with(name, suffix) {
            proof {
                lemma_first_where_is(names.deep_view(), affix_pred(prefix@, suffix@), i as int);
            }
            return Some(i);
        }
        i += 1;
    }
    proof {
        lemma_first_where_none(names.deep_view(), affix_pred(prefix@, suffix@));
    }
    None
}

/// Picks the first name of the listing that contains `infix` and ends with
/// `suffix`, in the same first-match discipline.
pub fn find_by_infix(names: &Vec<Vec<u8>>, infix: &[u8], suffix: &[u8]) -> (r: Option<usize>)
    ensures
        match r {
            Some(i) => {
                &&& i < names@.len()
                &&& object_matches(names.deep_view()[i as int], infix@, suffix@)
                &&& forall|k: int|
                    0 <= k < i ==> !object_matches(
                        #[trigger] names.deep_view()[k],
                        infix@,
                        suffix@,
                    )
                &&& first_where(names.deep_view(), infix_pred(infix@, suffix@)) == Some(i as int)
            },
            None => {
                &&& forall|k: int|
                    0 <= k < names@.len() ==> !object_matches(
                        #[trigger] names.deep_view()[k],
                        infix@,
                        suffix@,
                    )
                &&& first_where(names.deep_view(), infix_pred(infix@, suffix@)) is None
            },
        },
{
    let n = names.len();
    let mut i: usize = 0;
    while i < n
        invariant
            n == names@.len(),
            i <= n,
            forall|k: int|
                0 <= k < i ==> !object_matches(#[trigger] names.deep_view()[k], infix@, suffix@),
        decreases n - i,
    {
        let name = names[i].as_slice();
        proof {
            assert(name@ == names.deep_view()[i as int]);
        }
        if bytes::contains_slice(name, infix) && bytes::ends_with(name, suffix) {
            proof {
                lemma_first_where_is(names.deep_view(), infix_pred(infix@, suffix@), i as int);
            }
            return Some(i);
        }
        i += 1;
    }
    proof {
        lemma_first_where_none(names.deep_view(), infix_pred(infix@, suffix@));
    }
    None
}

} // verus!
