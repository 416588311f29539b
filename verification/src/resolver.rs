//! The symbol resolver: reading the entry symbol's address out of the
//! symbol-table report of the linked image.
//!
//! The report is line oriented; the line for the entry symbol starts with
//! `main` followed by one space, and its third whitespace-separated field is
//! the address in hexadecimal.  The resolver extracts exactly that field's
//! value; a report without such a line, or whose field does not parse, fails.
use vstd::prelude::*;
use crate::bytes;
use crate::hex::{hex_parse, parse_hex_u64};
use crate::select::{first_where, lemma_first_where_is, lemma_first_where_none};
use crate::textscan::{fields_of, lines_of, split_fields, split_lines};

verus! {

/// The entry symbol's name followed by the column separator: `main `.
pub open spec fn entry_prefix() -> Seq<u8> {
    seq![109u8, 97u8, 105u8, 110u8, 32u8]
}

/// A report line that describes the entry symbol.
pub open spec fn is_entry_line(line: Seq<u8>) -> bool {
    entry_prefix().is_prefix_of(line)
}

/// `is_entry_line` as a predicate on one report line.
pub open spec fn entry_line_pred() -> spec_fn(Seq<u8>) -> bool {
    |line: Seq<u8>| is_entry_line(line)
}

/// Why resolution failed: no entry-symbol line at all, or an address field
/// that is missing or not hexadecimal.
#[derive(Clone, Copy, Debug, PartialEq, Eq, Structural)]
pub enum ResolveError {
    NoEntry,
    BadAddress,
}

/// What the resolver yields on a whole report: the parsed third field of the
/// first entry-symbol line.
pub open spec fn resolve_spec(text: Seq<u8>) -> Result<u64, ResolveError> {
    let lines = lines_of(text);
    match first_where(lines, entry_line_pred()) {
        None => Err(ResolveError::NoEntry),
        Some(i) => {
            let fields = fields_of(lines[i]);
            if fields.len() < 3 {
                Err(ResolveError::BadAddress)
            } else {
                match hex_parse(fields[2]) {
                    Some(v) => Ok(v),
                    None => Err(ResolveError::BadAddress),
                }
            }
        },
    }
}

/// The executable form of `entry_prefix`.
fn entry_prefix_bytes() -> (r: Vec<u8>)
    ensures
        r@ == entry_prefix(),
{
    let arr: [u8; 5] = [109u8, 97u8, 105u8, 110u8, 32u8];
    let r = bytes::to_vec(arr.as_slice());
    proof {
        assert(r@ =~= entry_prefix());
    }
    r
}

/// Resolves the entry address from a symbol-table report.
pub fn resolve_entry(text: &[u8]) -> (r: Result<u64, ResolveError>)
    ensures
        r == resolve_spec(text@),
{
    let lines = split_lines(text);
    let prefix = entry_prefix_bytes();
    let n = lines.len();
    let mut i: usize = 0;
    while i < n
        invariant
            n == lines@.len(),
            i <= n,
            lines.deep_view() == lines_of(text@),
            prefix@ == entry_prefix(),
            forall|k: int| 0 <= k < i ==> !is_entry_line(#[trigger] lines.deep_view()[k]),
        decreases n - i,
    {
        proof {
            assert(lines@[i as int]@ == lines.deep_view()[i as int]);
        }
        if bytes::starts_with(lines[i].as_slice(), prefix.as_slice()) {
            proof {
                lemma_first_where_is(lines.deep_view(), entry_line_pred(), i as int);
            }
            let fields = split_fields(lines[i].as_slice());
            proof {
                assert(fields.deep_view().len() == fields@.len());
                assert(fields.deep_view() == fields_of(lines_of(text@)[i as int]));
            }
            if fields.len() < 3 {
                return Err(ResolveError::BadAddress);
            }
            proof {
                assert(fields@[2]@ == fields.deep_view()[2]);
            }
            return match parse_hex_u64(fields[2].as_slice()) {
                Some(v) => Ok(v),
                None => Err(ResolveError::BadAddress),
            };
        }
        i += 1;
    }
    proof {
        lemma_first_where_none(lines.deep_view(), entry_line_pred());
    }
    Err(ResolveError::NoEntry)
}

/// A report none of whose lines describes the entry symbol never resolves.
pub proof fn lemma_resolve_fails_without_entry(text: Seq<u8>)
    requires
        forall|k: int|
            0 <= k < lines_of(text).len() ==> !is_entry_line(#[trigger] lines_of(text)[k]),
    ensures
        resolve_spec(text) == Err::<u64, ResolveError>(ResolveError::NoEntry),
{
    lemma_first_where_none(lines_of(text), entry_line_pred());
}

/// A report whose first entry-symbol line is line `i` resolves to exactly
/// that line's third field, parsed as hexadecimal.
pub proof fn lemma_resolve_extracts_field(text: Seq<u8>, i: int)
    requires
        0 <= i < lines_of(text).len(),
        is_entry_line(lines_of(text)[i]),
        forall|k: int| 0 <= k < i ==> !is_entry_line(#[trigger] lines_of(text)[k]),
        fields_of(lines_of(text)[i]).len() >= 3,
    ensures
        resolve_spec(text) == match hex_parse(fields_of(lines_of(text)[i])[2]) {
            Some(v) => Ok::<u64, ResolveError>(v),
            None => Err::<u64, ResolveError>(ResolveError::BadAddress),
        },
{
    lemma_first_where_is(lines_of(text), entry_line_pred(), i);
}

} // verus!
