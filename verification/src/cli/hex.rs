use vstd::prelude::*;
use crate::text::{hex_char, spec_hex};

verus! {

/// The value of a hexadecimal digit, either case.
pub open spec fn hex_digit(c: char) -> Option<int> {
    if '0' <= c && c <= '9' {
        Some(c as int - '0' as int)
    } else if 'a' <= c && c <= 'f' {
        Some(c as int - 'a' as int + 10)
    } else if 'A' <= c && c <= 'F' {
        Some(c as int - 'A' as int + 10)
    } else {
        None
    }
}

/// The value of a string of hexadecimal digits; `None` if some character is no digit.
pub open spec fn hex_value(s: Seq<char>) -> Option<int>
    decreases s.len(),
{
    if s.len() == 0 {
        Some(0)
    } else {
        match (hex_value(s.drop_last()), hex_digit(s.last())) {
            (Some(v), Some(d)) => Some(16 * v + d),
            _ => None,
        }
    }
}

/// What `u16::from_str_radix(s, 16)` accepts: an optional `+`, then at least
/// one hexadecimal digit, with a value that fits in 16 bits.
pub open spec fn spec_parse_hex_u16(s: Seq<char>) -> Option<u16> {
    let digits = if s.len() > 0 && s[0] == '+' {
        s.drop_first()
    } else {
        s
    };
    if digits.len() == 0 {
        None
    } else {
        match hex_value(digits) {
            Some(v) => if v <= 0xffff {
                Some(v as u16)
            } else {
                None
            },
            None => None,
        }
    }
}

/// Calls `u16::from_str_radix` with radix 16. Its contract restates what the
/// std documentation gives: an optional `+` sign followed by digits `0-9`,
/// `a-f` or `A-F`, parsed when the value fits in a `u16`, else an error.
#[verifier::external_body]
pub(crate) fn parse_hex_u16(s: &str) -> (r: Option<u16>)
    ensures
        r == spec_parse_hex_u16(s@),
{
    u16::from_str_radix(s, 16).ok()
}


/// 16 to the power `w`.
pub open spec fn pow16(w: nat) -> nat
    decreases w,
{
    if w == 0 {
        1
    } else {
        16 * pow16((w - 1) as nat)
    }
}

/// A hexadecimal digit that the disassembler writes reads back as itself.
proof fn lemma_hex_char_reads_back(d: nat)
    requires
        d < 16,
    ensures
        hex_digit(hex_char(d)) == Some(d as int),
{
}

/// Hexadecimal text written with `width` digits reads back as the number
/// modulo 16 to the `width`: the text of an operand parses to the operand.
pub proof fn lemma_hex_reads_back(n: nat, width: nat)
    ensures
        hex_value(spec_hex(n, width)) == Some((n % pow16(width)) as int),
        spec_hex(n, width).len() == width,
    decreases width,
{
    if width > 0 {
        let w1 = (width - 1) as nat;
        lemma_hex_reads_back(n / 16, w1);
        lemma_hex_char_reads_back(n % 16);
        let t = spec_hex(n, width);
        assert(t.drop_last() =~= spec_hex(n / 16, w1));
        assert(t.last() == hex_char(n % 16));
        let p = pow16(w1);
        assert(p > 0) by {
            lemma_pow16_positive(w1);
        }
        assert(16 * ((n / 16) % p) + n % 16 == n % (16 * p)) by (nonlinear_arith)
            requires
                p > 0,
        {
            vstd::arithmetic::div_mod::lemma_breakdown(n as int, 16, p as int);
        }
    }
}

proof fn lemma_pow16_positive(w: nat)
    ensures
        pow16(w) > 0,
    decreases w,
{
    if w > 0 {
        lemma_pow16_positive((w - 1) as nat);
    }
}

proof fn lemma_hex_digits(n: nat, width: nat)
    ensures
        spec_hex(n, width).len() == width,
        forall|i: int| 0 <= i < width ==> #[trigger] hex_digit(spec_hex(n, width)[i]) is Some,
    decreases width,
{
    if width > 0 {
        lemma_hex_digits(n / 16, (width - 1) as nat);
        lemma_hex_char_reads_back(n % 16);
    }
}

/// The two- and four-digit texts of a byte and a word parse back to them.
pub proof fn lemma_operand_text_parses(b: u8, w: u16)
    ensures
        spec_parse_hex_u16(spec_hex(b as nat, 2)) == Some(b as u16),
        spec_parse_hex_u16(spec_hex(w as nat, 4)) == Some(w),
{
    lemma_hex_reads_back(b as nat, 2);
    lemma_hex_reads_back(w as nat, 4);
    lemma_hex_digits(b as nat, 2);
    lemma_hex_digits(w as nat, 4);
    reveal_with_fuel(pow16, 5);
    assert(hex_digit('+') is None);
    assert(hex_digit(spec_hex(b as nat, 2)[0]) is Some);
    assert(hex_digit(spec_hex(w as nat, 4)[0]) is Some);
    assert(pow16(2) == 256);
    assert(pow16(4) == 65536);
    assert((b as nat) % 256 == b);
    assert((w as nat) % 65536 == w);
}

} // verus!
