//! Line-oriented scanning of tool reports: splitting a report into its
//! newline-terminated lines and a line into its whitespace-separated fields,
//! exactly as the symbol resolver reads them.
use vstd::prelude::*;
use crate::bytes;

verus! {

/// Field separator inside a report line.
pub open spec fn is_space(c: u8) -> bool {
    c == 32 || c == 9
}

/// Index of the first newline in `s`, or `s.len()` if there is none.
pub open spec fn first_nl(s: Seq<u8>) -> int
    decreases s.len(),
{
    if s.len() == 0 {
        0
    } else if s[0] == 10 {
        0
    } else {
        1 + first_nl(s.drop_first())
    }
}

/// Index of the first separator in `s`, or `s.len()` if there is none.
pub open spec fn first_space(s: Seq<u8>) -> int
    decreases s.len(),
{
    if s.len() == 0 {
        0
    } else if is_space(s[0]) {
        0
    } else {
        1 + first_space(s.drop_first())
    }
}

/// `first_nl` stays within the string.
pub proof fn lemma_first_nl_bounds(s: Seq<u8>)
    ensures
        0 <= first_nl(s) <= s.len(),
    decreases s.len(),
{
    if s.len() > 0 && s[0] != 10 {
        lemma_first_nl_bounds(s.drop_first());
    }
}

/// A scan that saw no newline before `i`, and one at `i` unless the string
/// ended, found the first newline.
pub proof fn lemma_first_nl_is(s: Seq<u8>, i: int)
    requires
        0 <= i <= s.len(),
        forall|k: int| 0 <= k < i ==> s[k] != 10,
        i < s.len() ==> s[i] == 10,
    ensures
        first_nl(s) == i,
    decreases s.len(),
{
    if i > 0 {
        lemma_first_nl_is(s.drop_first(), i - 1);
    }
}

/// The same characterization for the first separator.
pub proof fn lemma_first_space_is(s: Seq<u8>, i: int)
    requires
        0 <= i <= s.len(),
        forall|k: int| 0 <= k < i ==> !is_space(s[k]),
        i < s.len() ==> is_space(s[i]),
    ensures
        first_space(s) == i,
    decreases s.len(),
{
    if i > 0 {
        lemma_first_space_is(s.drop_first(), i - 1);
    }
}

/// The newline-separated lines of a report, in order; a trailing newline
/// closes the last line rather than opening an empty one.
pub open spec fn lines_of(s: Seq<u8>) -> Seq<Seq<u8>>
    decreases s.len(),
{
    if s.len() == 0 {
        Seq::empty()
    } else {
        let i = first_nl_clipped(s);
        if i < s.len() {
            seq![s.take(i)] + lines_of(s.skip(i + 1))
        } else {
            seq![s]
        }
    }
}

/// `first_nl`, with its bound made obvious to the termination checker.
pub open spec fn first_nl_clipped(s: Seq<u8>) -> int {
    let i = first_nl(s);
    if 0 <= i <= s.len() {
        i
    } else {
        0
    }
}

/// The whitespace-separated fields of a line, in order, empty fields
/// dropped.
pub open spec fn fields_of(s: Seq<u8>) -> Seq<Seq<u8>>
    decreases s.len(),
{
    if s.len() == 0 {
        Seq::empty()
    } else if is_space(s[0]) {
        fields_of(s.drop_first())
    } else {
        let i = first_space_clipped(s);
        seq![s.take(i)] + fields_of(s.skip(i))
    }
}

/// `first_space`, with its bounds made obvious to the termination checker.
pub open spec fn first_space_clipped(s: Seq<u8>) -> int {
    let i = first_space(s);
    if 1 <= i <= s.len() {
        i
    } else {
        1
    }
}

/// Splits a report into its lines.
pub fn split_lines(text: &[u8]) -> (r: Vec<Vec<u8>>)
    ensures
        r.deep_view() == lines_of(text@),
{
    let len = text.len();
    let mut r: Vec<Vec<u8>> = Vec::new();
    let mut start: usize = 0;
    let mut i: usize = 0;
    proof {
        assert(text@.skip(0) =~= text@);
        assert(r.deep_view() + lines_of(text@) =~~= lines_of(text@));
    }
    while i < len
        invariant
            len == text@.len(),
            start <= i <= len,
            forall|k: int| start <= k < i ==> text@[k] != 10,
            lines_of(text@) == r.deep_view() + lines_of(text@.skip(start as int)),
        decreases len - i,
    {
        if text[i] == 10 {
            let line = bytes::to_vec(&text[start..i]);
            let ghost pre = r.deep_view();
            let ghost tail = text@.skip(start as int);
            proof {
                assert forall|k: int| 0 <= k < i - start implies tail[k] != 10 by {
                    assert(tail[k] == text@[start + k]);
                }
                assert(tail[i - start] == text@[i as int]);
                lemma_first_nl_is(tail, i - start);
                lemma_first_nl_bounds(tail);
                assert(first_nl_clipped(tail) == i - start);
                assert(tail.take(i - start) =~= text@.subrange(start as int, i as int));
                assert(tail.skip(i - start + 1) =~= text@.skip(i + 1));
                assert(lines_of(tail) == seq![line@] + lines_of(text@.skip(i + 1)));
            }
            r.push(line);
            proof {
                assert(r.deep_view() =~~= pre.push(line@));
                assert(pre.push(line@) + lines_of(text@.skip(i + 1)) =~~= pre + (seq![line@]
                    + lines_of(text@.skip(i + 1))));
            }
            start = i + 1;
        }
        i += 1;
    }
    if start < len {
        let line = bytes::to_vec(&text[start..len]);
        let ghost pre = r.deep_view();
        let ghost tail = text@.skip(start as int);
        proof {
            assert forall|k: int| 0 <= k < tail.len() implies tail[k] != 10 by {
                assert(tail[k] == text@[start + k]);
            }
            lemma_first_nl_is(tail, tail.len() as int);
            lemma_first_nl_bounds(tail);
            assert(lines_of(tail) == seq![tail]);
            assert(line@ =~= tail);
        }
        r.push(line);
        proof {
            assert(r.deep_view() =~~= pre.push(line@));
            assert(pre.push(line@) =~~= pre + seq![tail]);
        }
    } else {
        proof {
            assert(text@.skip(start as int) =~= Seq::<u8>::empty());
            assert(lines_of(Seq::<u8>::empty()) == Seq::<Seq<u8>>::empty());
            assert(r.deep_view() + Seq::<Seq<u8>>::empty() =~~= r.deep_view());
        }
    }
    r
}

/// Splits a line into its fields.
pub fn split_fields(line: &[u8]) -> (r: Vec<Vec<u8>>)
    ensures
        r.deep_view() == fields_of(line@),
{
    let len = line.len();
    let mut r: Vec<Vec<u8>> = Vec::new();
    let mut i: usize = 0;
    proof {
        assert(line@.skip(0) =~= line@);
        assert(r.deep_view() + fields_of(line@) =~~= fields_of(line@));
    }
    while i < len
        invariant
            len == line@.len(),
            i <= len,
            fields_of(line@) == r.deep_view() + fields_of(line@.skip(i as int)),
        decreases len - i,
    {
        if line[i] == 32 || line[i] == 9 {
            proof {
                let tail = line@.skip(i as int);
                assert(tail[0] == line@[i as int]);
                assert(tail.drop_first() =~= line@.skip(i + 1));
            }
            i += 1;
        } else {
            let mut j: usize = i + 1;
            while j < len && line[j] != 32 && line[j] != 9
                invariant
                    len == line@.len(),
                    i < j <= len,
                    forall|k: int| i < k < j ==> !is_space(#[trigger] line@[k]),
                decreases len - j,
            {
                j += 1;
            }
            let field = bytes::to_vec(&line[i..j]);
            let ghost pre = r.deep_view();
            let ghost tail = line@.skip(i as int);
            proof {
                assert(!is_space(tail[0]));
                assert forall|k: int| 0 <= k < j - i implies !is_space(tail[k]) by {
                    assert(tail[k] == line@[i + k]);
                }
                if j < len {
                    assert(tail[j - i] == line@[j as int]);
                }
                lemma_first_space_is(tail, j - i);
                assert(first_space_clipped(tail) == j - i);
                assert(tail.take(j - i) =~= line@.subrange(i as int, j as int));
                assert(tail.skip(j - i) =~= line@.skip(j as int));
                assert(fields_of(tail) == seq![field@] + fields_of(line@.skip(j as int)));
            }
            r.push(field);
            proof {
                assert(r.deep_view() =~~= pre.push(field@));
                assert(pre.push(field@) + fields_of(line@.skip(j as int)) =~~= pre + (seq![field@]
                    + fields_of(line@.skip(j as int))));
            }
            i = j;
        }
    }
    proof {
        assert(line@.skip(len as int) =~= Seq::<u8>::empty());
        assert(fields_of(Seq::<u8>::empty()) == Seq::<Seq<u8>>::empty());
        assert(r.deep_view() + Seq::<Seq<u8>>::empty() =~~= r.deep_view());
    }
    r
}

} // verus!
