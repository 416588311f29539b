//! First-match selection over a listing of byte strings.
//!
//! Both the archive search and the symbol-table scan pick the *first* entry
//! of a listing that satisfies a predicate; ties between later candidates are
//! deliberately left unresolved.  `first_where` is that policy as a
//! mathematical function, and the characterization lemmas let an executable
//! scan prove that it implements it.
use vstd::prelude::*;

verus! {

/// Index of the first element of `names` satisfying `p`, if any.
pub open spec fn first_where(names: Seq<Seq<u8>>, p: spec_fn(Seq<u8>) -> bool) -> Option<int>
    decreases names.len(),
{
    if names.len() == 0 {
        None
    } else if p(names[0]) {
        Some(0)
    } else {
        match first_where(names.drop_first(), p) {
            Some(i) => Some(i + 1),
            None => None,
        }
    }
}

/// A scan that stopped at `i` after rejecting everything earlier found the
/// first match.
pub proof fn lemma_first_where_is(names: Seq<Seq<u8>>, p: spec_fn(Seq<u8>) -> bool, i: int)
    requires
        0 <= i < names.len(),
        p(names[i]),
        forall|k: int| 0 <= k < i ==> !p(#[trigger] names[k]),
    ensures
        first_where(names, p) == Some(i),
    decreases names.len(),
{
    if i > 0 {
        lemma_first_where_is(names.drop_first(), p, i - 1);
    }
}

/// A scan that rejected every element found no match.
pub proof fn lemma_first_where_none(names: Seq<Seq<u8>>, p: spec_fn(Seq<u8>) -> bool)
    requires
        forall|k: int| 0 <= k < names.len() ==> !p(#[trigger] names[k]),
    ensures
        first_where(names, p) is None,
    decreases names.len(),
{
    if names.len() > 0 {
        lemma_first_where_none(names.drop_first(), p);
    }
}

/// Conversely, a first match is a match and nothing earlier matches.
pub proof fn lemma_first_where_sound(names: Seq<Seq<u8>>, p: spec_fn(Seq<u8>) -> bool)
    ensures
        match first_where(names, p) {
            Some(i) => 0 <= i < names.len() && p(names[i]) && forall|k: int|
                0 <= k < i ==> !p(#[trigger] names[k]),
            None => forall|k: int| 0 <= k < names.len() ==> !p(#[trigger] names[k]),
        },
    decreases names.len(),
{
    if names.len() > 0 && !p(names[0]) {
        lemma_first_where_sound(names.drop_first(), p);
        match first_where(names.drop_first(), p) {
            Some(i) => {
                assert(names[i + 1] == names.drop_first()[i]);
                assert forall|k: int| 0 <= k < i + 1 implies !p(#[trigger] names[k]) by {
                    if k > 0 {
                        assert(names[k] == names.drop_first()[k - 1]);
                    }
                }
            },
            None => {
                assert forall|k: int| 0 <= k < names.len() implies !p(#[trigger] names[k]) by {
                    if k > 0 {
                        assert(names[k] == names.drop_first()[k - 1]);
                    }
                }
            },
        }
    }
}

} // verus!
