//! Hexadecimal addresses: parsing the address field of a symbol-table line
//! and rendering the resolved address back into an assembler argument.
//!
//! The round trip is exact: rendering an address and parsing it again gives
//! the same address, so the value spliced into the bootstrap stub is the
//! value the resolver read.
use vstd::prelude::*;

verus! {

/// ASCII hexadecimal digit, either case.
pub open spec fn is_hex_digit(c: u8) -> bool {
    (48 <= c && c <= 57) || (97 <= c && c <= 102) || (65 <= c && c <= 70)
}

/// Numeric value of one hexadecimal digit.
pub open spec fn hex_digit_val(c: u8) -> nat {
    if 48 <= c && c <= 57 {
        (c - 48) as nat
    } else if 97 <= c && c <= 102 {
        (c - 87) as nat
    } else if 65 <= c && c <= 70 {
        (c - 55) as nat
    } else {
        0
    }
}

/// Every byte of `s` is a hexadecimal digit.
pub open spec fn all_hex(s: Seq<u8>) -> bool {
    forall|i: int| 0 <= i < s.len() ==> is_hex_digit(#[trigger] s[i])
}

/// Value of a big-endian string of hexadecimal digits.
pub open spec fn hex_val(s: Seq<u8>) -> nat
    decreases s.len(),
{
    if s.len() == 0 {
        0
    } else {
        hex_val(s.drop_last()) * 16 + hex_digit_val(s.last())
    }
}

/// 16 to the power `n`.
pub open spec fn pow16(n: nat) -> nat
    decreases n,
{
    if n == 0 {
        1
    } else {
        16 * pow16((n - 1) as nat)
    }
}

/// What parsing an address field yields: the numeric value for a non-empty
/// all-hexadecimal field of at most 16 digits, and nothing otherwise.
pub open spec fn hex_parse(s: Seq<u8>) -> Option<u64> {
    if 1 <= s.len() <= 16 && all_hex(s) {
        Some(hex_val(s) as u64)
    } else {
        None
    }
}

/// The digit string for `n`, lowercase, no leading zeros (`0` for zero).
pub open spec fn hex_render(n: nat) -> Seq<u8>
    decreases n,
{
    if n < 16 {
        seq![hex_digit_char(n)]
    } else {
        hex_render(n / 16).push(hex_digit_char(n % 16))
    }
}

/// Lowercase digit character for a value below 16.
pub open spec fn hex_digit_char(d: nat) -> u8 {
    if d < 10 {
        (48 + d) as u8
    } else {
        (87 + d) as u8
    }
}

/// A digit string's value is below 16 to its length.
pub proof fn lemma_hex_val_bound(s: Seq<u8>)
    ensures
        hex_val(s) < pow16(s.len()),
    decreases s.len(),
{
    if s.len() > 0 {
        lemma_hex_val_bound(s.drop_last());
        assert(hex_digit_val(s.last()) <= 15);
    }
}

/// `pow16` is monotone.
pub proof fn lemma_pow16_mono(i: nat, j: nat)
    requires
        i <= j,
    ensures
        pow16(i) <= pow16(j),
    decreases j,
{
    if i < j {
        lemma_pow16_mono(i, (j - 1) as nat);
        assert(pow16((j - 1) as nat) >= 1) by {
            lemma_pow16_pos((j - 1) as nat);
        }
    }
}

/// `pow16` is positive.
pub proof fn lemma_pow16_pos(n: nat)
    ensures
        pow16(n) >= 1,
    decreases n,
{
    if n > 0 {
        lemma_pow16_pos((n - 1) as nat);
    }
}

/// Parses a hexadecimal address field into a 64-bit value.
pub fn parse_hex_u64(s: &[u8]) -> (r: Option<u64>)
    ensures
        r == hex_parse(s@),
{
    let n = s.len();
    if n == 0 || n > 16 {
        return None;
    }
    let mut acc: u64 = 0;
    let mut i: usize = 0;
    while i < n
        invariant
            n == s@.len(),
            1 <= n <= 16,
            i <= n,
            all_hex(s@.take(i as int)),
            acc == hex_val(s@.take(i as int)),
        decreases n - i,
    {
        let c = s[i];
        let d: u64 = if 48 <= c && c <= 57 {
            (c - 48) as u64
        } else if 97 <= c && c <= 102 {
            (c - 87) as u64
        } else if 65 <= c && c <= 70 {
            (c - 55) as u64
        } else {
            assert(!is_hex_digit(s@[i as int]));
            assert(!all_hex(s@));
            return None;
        };
        proof {
            lemma_hex_val_bound(s@.take(i as int));
            lemma_pow16_mono(i as nat, 15);
            assert(pow16(15) == 0x1000000000000000) by {
                reveal_with_fuel(pow16, 16);
            }
            assert(acc * 16 + d <= (0x1000000000000000 - 1) * 16 + 15);
        }
        let next = acc * 16 + d;
        proof {
            let t1 = s@.take(i + 1);
            assert(t1.drop_last() =~= s@.take(i as int));
            assert(t1.last() == s@[i as int]);
            assert(hex_digit_val(s@[i as int]) == d);
            assert(forall|k: int| 0 <= k < t1.len() ==> is_hex_digit(#[trigger] t1[k]));
        }
        acc = next;
        i += 1;
    }
    proof {
        assert(s@.take(n as int) =~= s@);
    }
    Some(acc)
}

/// Digit character for a value below 16.
fn hex_digit(d: u64) -> (r: u8)
    requires
        d < 16,
    ensures
        r == hex_digit_char(d as nat),
{
    if d < 10 {
        48 + (d as u8)
    } else {
        87 + (d as u8)
    }
}

/// Renders an address as its lowercase hexadecimal digit string.
pub fn render_hex_u64(n: u64) -> (r: Vec<u8>)
    ensures
        r@ == hex_render(n as nat),
    decreases n,
{
    if n < 16 {
        let mut r: Vec<u8> = Vec::new();
        r.push(hex_digit(n));
        proof {
            assert(r@ =~= seq![hex_digit_char(n as nat)]);
        }
        r
    } else {
        let mut r = render_hex_u64(n / 16);
        r.push(hex_digit(n % 16));
        r
    }
}

/// A rendered digit string is all hexadecimal digits.
pub proof fn lemma_hex_render_all_hex(n: nat)
    ensures
        all_hex(hex_render(n)),
    decreases n,
{
    if n >= 16 {
        lemma_hex_render_all_hex(n / 16);
        let r = hex_render(n);
        let p = hex_render(n / 16);
        assert forall|i: int| 0 <= i < r.len() implies is_hex_digit(#[trigger] r[i]) by {
            if i < p.len() {
                assert(r[i] == p[i]);
            }
        }
    }
}

/// An address below 16 to the `k` renders in at most `k` digits.
pub proof fn lemma_hex_render_len(n: nat, k: nat)
    requires
        1 <= k,
        n < pow16(k),
    ensures
        1 <= hex_render(n).len() <= k,
    decreases n,
{
    if n >= 16 {
        assert(n / 16 < pow16((k - 1) as nat)) by (nonlinear_arith)
            requires
                n < pow16(k),
                pow16(k) == 16 * pow16((k - 1) as nat),
                n >= 16,
        ;
        assert(k >= 2) by {
            if k == 1 {
                assert(pow16(1) == 16) by {
                    reveal_with_fuel(pow16, 2);
                }
            }
        }
        lemma_hex_render_len(n / 16, (k - 1) as nat);
    }
}

/// Rendering then parsing gives back the value: the textual form of the
/// entry address carries exactly the resolved address.
pub proof fn lemma_hex_round_trip(n: u64)
    ensures
        hex_parse(hex_render(n as nat)) == Some(n),
    decreases n,
{
    lemma_hex_render_all_hex(n as nat);
    assert(n < pow16(16)) by {
        reveal_with_fuel(pow16, 17);
    }
    lemma_hex_render_len(n as nat, 16);
    lemma_hex_val_of_render(n as nat);
}

/// The value of a rendered digit string is the rendered number.
pub proof fn lemma_hex_val_of_render(n: nat)
    ensures
        hex_val(hex_render(n)) == n,
    decreases n,
{
    if n < 16 {
        let r = hex_render(n);
        assert(r =~= seq![hex_digit_char(n)]);
        assert(r.drop_last() =~= Seq::<u8>::empty());
        assert(r.last() == hex_digit_char(n));
        assert(hex_val(Seq::<u8>::empty()) == 0);
        assert(hex_val(r) == hex_val(r.drop_last()) * 16 + hex_digit_val(r.last()));
        assert(hex_digit_val(hex_digit_char(n)) == n);
    } else {
        lemma_hex_val_of_render(n / 16);
        let p = hex_render(n / 16);
        let r = hex_render(n);
        assert(r.drop_last() =~= p);
        assert(r.last() == hex_digit_char(n % 16));
        assert(hex_digit_val(hex_digit_char(n % 16)) == n % 16);
        assert((n / 16) * 16 + n % 16 == n) by (nonlinear_arith);
    }
}

} // verus!
