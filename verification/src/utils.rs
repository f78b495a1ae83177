use vstd::prelude::*;
use vstd::std_specs::cmp::PartialEqSpec;

verus! {

/// Picks `val1` when `cond` holds and `val2` otherwise.
pub fn if_else<T>(cond: bool, val1: T, val2: T) -> (r: T)
    ensures
        r == (if cond { val1 } else { val2 }),
{
    if cond {
        val1
    } else {
        val2
    }
}

/// The packed BCD byte that `dec_to_bcd` produces for `val`: the tens digit
/// (kept to its low four bits) in the high nibble, the units digit in the low one.
pub open spec fn spec_dec_to_bcd(val: u8) -> u8 {
    (((val / 10) % 16) * 16 + val % 10) as u8
}

/// The decimal value that `bcd_to_dec` reads from a packed BCD byte.
pub open spec fn spec_bcd_to_dec(val: u8) -> u8 {
    ((val / 16) * 10 + val % 16) as u8
}

/// A byte whose two nibbles are both decimal digits.
pub open spec fn is_valid_bcd(val: u8) -> bool {
    val / 16 <= 9 && val % 16 <= 9
}

/// Encodes a decimal number as packed BCD.
pub fn dec_to_bcd(val: u8) -> (r: u8)
    ensures
        r == spec_dec_to_bcd(val),
        val < 100 ==> is_valid_bcd(r),
{
    let hi: u8 = (val / 10) << 4;
    let lo: u8 = val % 10;
    assert(hi == ((val / 10) % 16) * 16) by (bit_vector)
        requires
            hi == (val / 10) << 4,
    ;
    assert(hi <= 240);
    hi + lo
}

/// Decodes a packed BCD byte into its decimal value.
pub fn bcd_to_dec(val: u8) -> (r: u8)
    ensures
        r == spec_bcd_to_dec(val),
        r <= 165,
{
    let hi: u8 = (val & 0xf0) >> 4;
    let lo: u8 = val & 0x0f;
    assert(hi == val / 16 && lo == val % 16) by (bit_vector)
        requires
            hi == (val & 0xf0) >> 4,
            lo == val & 0x0f,
    ;
    hi * 10 + lo
}

/// Decoding the encoding of a number below 100 gives the number back.
pub proof fn lemma_bcd_round_trip(val: u8)
    requires
        val < 100,
    ensures
        spec_bcd_to_dec(spec_dec_to_bcd(val)) == val,
{
}

/// Encoding the decoding of a valid BCD byte gives the byte back.
pub proof fn lemma_dec_round_trip(val: u8)
    requires
        is_valid_bcd(val),
    ensures
        spec_dec_to_bcd(spec_bcd_to_dec(val)) == val,
{
}

/// Two sequences match when they have the same length and equal items at every position.
pub open spec fn seqs_match<T>(a: Seq<T>, b: Seq<T>) -> bool {
    a.len() == b.len() && forall|i: int| 0 <= i < a.len() ==> a[i] == b[i]
}

/// Compares two vectors item by item.
pub fn do_vecs_match<T: PartialEq>(a: &Vec<T>, b: &Vec<T>) -> (r: bool)
    requires
        T::obeys_eq_spec(),
    ensures
        r == (a.len() == b.len() && forall|i: int|
            0 <= i < a.len() ==> #[trigger] a[i].eq_spec(&b[i])),
{
    let n = if a.len() < b.len() { a.len() } else { b.len() };
    let mut matching: usize = 0;
    let mut i: usize = 0;
    while i < n
        invariant
            n <= a.len(),
            n <= b.len(),
            n == a.len() || n == b.len(),
            i <= n,
            matching <= i,
            T::obeys_eq_spec(),
            matching == i <==> (forall|j: int| 0 <= j < i ==> #[trigger] a[j].eq_spec(&b[j])),
        decreases n - i,
    {
        if a[i] == b[i] {
            matching = matching + 1;
        }
        i = i + 1;
    }
    matching == a.len() && matching == b.len()
}

} // verus!
