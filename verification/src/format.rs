//! Number formatting used on the boot screen and the serial console.
use vstd::prelude::*;

verus! {

/// ASCII digit for a value below ten.
pub open spec fn decimal_char(d: int) -> u8 {
    (48 + d) as u8
}

/// Decimal digits of `n`, most significant first, without leading zeros
/// ("0" for zero).
pub open spec fn decimal_digits_of(n: nat) -> Seq<u8>
    decreases n,
{
    if n < 10 {
        seq![decimal_char(n as int)]
    } else {
        decimal_digits_of(n / 10).push(decimal_char((n % 10) as int))
    }
}

/// The number a string of ASCII decimal digits denotes.
pub open spec fn decimal_value(s: Seq<u8>) -> int
    decreases s.len(),
{
    if s.len() == 0 {
        0
    } else {
        decimal_value(s.drop_last()) * 10 + (s.last() - 48)
    }
}

/// Law: reading the printed digits back gives the number, and the digits
/// are ASCII digits with no leading zero.
pub proof fn lemma_decimal_roundtrip(n: nat)
    ensures
        decimal_value(decimal_digits_of(n)) == n,
        forall|i: int| 0 <= i < decimal_digits_of(n).len() ==> 48 <= #[trigger] decimal_digits_of(n)[i] <= 57,
        decimal_digits_of(n).len() >= 1,
        n >= 1 ==> decimal_digits_of(n)[0] != 48,
    decreases n,
{
    let s = decimal_digits_of(n);
    if n < 10 {
        assert(s.drop_last() =~= Seq::<u8>::empty());
        assert(decimal_value(s.drop_last()) == 0);
        assert(s.last() == decimal_char(n as int));
    } else {
        lemma_decimal_roundtrip(n / 10);
        let t = decimal_digits_of(n / 10);
        assert(s.drop_last() =~= t);
        vstd::arithmetic::div_mod::lemma_fundamental_div_mod(n as int, 10);
        assert(s.last() == decimal_char((n % 10) as int));
        assert(decimal_value(s) == decimal_value(t) * 10 + (s.last() - 48));
        assert forall|i: int| 0 <= i < s.len() implies 48 <= #[trigger] s[i] <= 57 by {
            if i < s.len() - 1 {
                assert(s[i] == t[i]);
            }
        }
        assert(s[0] == t[0]);
    }
}

/// The decimal digits of `value` in ASCII, most significant first.
pub fn decimal_digits(value: u32) -> (r: Vec<u8>)
    ensures
        r@ == decimal_digits_of(value as nat),
{
    let mut rest = value;
    let mut out: Vec<u8> = Vec::new();
    while rest >= 10
        invariant
            decimal_digits_of(value as nat) == decimal_digits_of(rest as nat) + out@,
        decreases rest,
    {
        let ghost before = out@;
        let digit: u8 = (rest % 10) as u8;
        out.insert(0, 48u8 + digit);
        proof {
            let a = decimal_digits_of(rest as nat / 10);
            assert(decimal_digits_of(rest as nat) == a.push(decimal_char((rest % 10) as int)));
            assert(a.push(decimal_char((rest % 10) as int)) + before =~= a + out@);
        }
        rest = rest / 10;
    }
    let ghost before = out@;
    out.insert(0, 48u8 + rest as u8);
    assert(decimal_digits_of(rest as nat) + before =~= out@);
    out
}

/// Lowercase hexadecimal digit for a value below sixteen.
pub open spec fn hex_char(d: u64) -> u8 {
    if d < 10 {
        (48 + d) as u8
    } else {
        (87 + d) as u8
    }
}

/// "0x" followed by the sixteen hexadecimal digits of `value`, most
/// significant first.
pub open spec fn hex_text_of(value: u64) -> Seq<u8> {
    seq![48u8, 120u8] + Seq::new(16, |i: int| hex_char((value >> ((60 - 4 * i) as u64)) & 0xFu64))
}

fn hex_digit(d: u64) -> (r: u8)
    requires
        d < 16,
    ensures
        r == hex_char(d),
{
    if d < 10 {
        48 + d as u8
    } else {
        87 + d as u8
    }
}

/// The text the serial console prints for a 64-bit value.
pub fn hex_text(value: u64) -> (r: Vec<u8>)
    ensures
        r@ == hex_text_of(value),
{
    let mut out: Vec<u8> = Vec::new();
    out.push(48u8);
    out.push(120u8);
    let mut i: u64 = 0;
    while i < 16
        invariant
            i <= 16,
            out@ == seq![48u8, 120u8] + Seq::new(i as nat, |k: int| hex_char((value >> ((60 - 4 * k) as u64)) & 0xFu64)),
        decreases 16 - i,
    {
        let shift: u64 = 60 - 4 * i;
        let nibble = (value >> shift) & 0xF;
        assert(((value >> shift) & 0xFu64) < 16) by (bit_vector);
        out.push(hex_digit(nibble));
        i = i + 1;
        assert(out@ =~= seq![48u8, 120u8] + Seq::new(i as nat, |k: int| hex_char((value >> ((60 - 4 * k) as u64)) & 0xFu64)));
    }
    out
}


/// The value of a lowercase hexadecimal digit.
pub open spec fn hex_digit_value(c: u8) -> u64 {
    if c < 58 {
        (c - 48) as u64
    } else {
        (c - 87) as u64
    }
}

/// Law: the printed hexadecimal text determines the value: digit `i` reads
/// back as nibble `i` (most significant first), and the sixteen nibbles in
/// their places make up the value.
pub proof fn lemma_hex_roundtrip(v: u64)
    ensures
        hex_text_of(v).len() == 18,
        hex_text_of(v)[0] == 48 && hex_text_of(v)[1] == 120,
        forall|i: int| 0 <= i < 16 ==> hex_digit_value(#[trigger] hex_text_of(v)[2 + i]) == (v >> ((60 - 4 * i) as u64)) & 0xFu64,
        v == (((v >> 60u64) & 0xFu64) << 60u64) | (((v >> 56u64) & 0xFu64) << 56u64) | (((v >> 52u64) & 0xFu64) << 52u64) | (((v >> 48u64) & 0xFu64) << 48u64) | (((v >> 44u64) & 0xFu64) << 44u64) | (((v >> 40u64) & 0xFu64) << 40u64) | (((v >> 36u64) & 0xFu64) << 36u64) | (((v >> 32u64) & 0xFu64) << 32u64) | (((v >> 28u64) & 0xFu64) << 28u64) | (((v >> 24u64) & 0xFu64) << 24u64) | (((v >> 20u64) & 0xFu64) << 20u64) | (((v >> 16u64) & 0xFu64) << 16u64) | (((v >> 12u64) & 0xFu64) << 12u64) | (((v >> 8u64) & 0xFu64) << 8u64) | (((v >> 4u64) & 0xFu64) << 4u64) | (((v >> 0u64) & 0xFu64) << 0u64),
{
    assert forall|i: int| 0 <= i < 16 implies hex_digit_value(#[trigger] hex_text_of(v)[2 + i]) == (v >> ((60 - 4 * i) as u64)) & 0xFu64 by {
        let sh = (60 - 4 * i) as u64;
        assert((v >> sh) & 0xFu64 < 16) by (bit_vector);
    }
    assert(v == (((v >> 60u64) & 0xFu64) << 60u64) | (((v >> 56u64) & 0xFu64) << 56u64) | (((v >> 52u64) & 0xFu64) << 52u64) | (((v >> 48u64) & 0xFu64) << 48u64) | (((v >> 44u64) & 0xFu64) << 44u64) | (((v >> 40u64) & 0xFu64) << 40u64) | (((v >> 36u64) & 0xFu64) << 36u64) | (((v >> 32u64) & 0xFu64) << 32u64) | (((v >> 28u64) & 0xFu64) << 28u64) | (((v >> 24u64) & 0xFu64) << 24u64) | (((v >> 20u64) & 0xFu64) << 20u64) | (((v >> 16u64) & 0xFu64) << 16u64) | (((v >> 12u64) & 0xFu64) << 12u64) | (((v >> 8u64) & 0xFu64) << 8u64) | (((v >> 4u64) & 0xFu64) << 4u64) | (((v >> 0u64) & 0xFu64) << 0u64)) by (bit_vector);
}

} // verus!
