//! Bytes and words: the bit-level operations of the processor, each tied to
//! its arithmetic meaning.

use crate::flags::with_flag;
use crate::machine::{high, low, sign_extend, signed_overflow, word, wrap16, wrap8};
use vstd::prelude::*;

verus! {

/// The sum of two bytes modulo 256.
pub fn add8(a: u8, b: u8) -> (sum: u8)
    ensures
        sum == wrap8(a + b),
{
    a.wrapping_add(b)
}

/// The difference of two bytes modulo 256.
pub fn sub8(a: u8, b: u8) -> (difference: u8)
    ensures
        difference == wrap8(a - b),
{
    a.wrapping_sub(b)
}

/// The sum of two 16-bit values modulo 65536.
pub fn add16(a: u16, b: u16) -> (sum: u16)
    ensures
        sum == wrap16(a + b),
{
    a.wrapping_add(b)
}

/// The difference of two 16-bit values modulo 65536.
pub fn sub16(a: u16, b: u16) -> (difference: u16)
    ensures
        difference == wrap16(a - b),
{
    a.wrapping_sub(b)
}

/// Low byte of a 16-bit value.
pub fn low_byte(v: u16) -> (b: u8)
    ensures
        b == low(v),
{
    assert(v & 0x00FF == v % 256) by (bit_vector);
    (v & 0x00FF) as u8
}

/// High byte of a 16-bit value.
pub fn high_byte(v: u16) -> (b: u8)
    ensures
        b == high(v),
{
    assert(v >> 8 == v / 256) by (bit_vector);
    (v >> 8) as u8
}

/// The 16-bit value with low byte `lo` and high byte `hi`.
pub fn make_word(lo: u8, hi: u8) -> (w: u16)
    ensures
        w == word(lo, hi),
{
    assert(((hi as u16) << 8) | (lo as u16) == hi * 256 + lo) by (bit_vector);
    ((hi as u16) << 8) | (lo as u16)
}

/// First address of the page that `addr` lies on.
pub fn page_start(addr: u16) -> (start: u16)
    ensures
        start == addr - addr % 256,
{
    assert(addr & 0xFF00 == addr - addr % 256) by (bit_vector);
    addr & 0xFF00
}

/// Whether bit 7 of a byte is set.
pub fn is_negative(b: u8) -> (n: bool)
    ensures
        n == (b >= 0x80),
{
    assert((b & 0x80 != 0) == (b >= 0x80)) by (bit_vector);
    b & 0x80 != 0
}

/// A signed byte widened to sixteen bits in two's complement.
pub fn extend_sign(b: u8) -> (w: u16)
    ensures
        w == sign_extend(b),
{
    let w = b as u16;
    assert(w < 0x100 ==> (w & 0x0080 != 0) == (w >= 0x80) && w | 0xFF00 == 0xFF00 + w)
        by (bit_vector);
    if w & 0x0080 != 0 {
        w | 0xFF00
    } else {
        w
    }
}

/// Whether adding `a` and `b` gave a result byte of the wrong sign, by the
/// sign-bit comparison: the operands agree in bit 7 and the result differs.
pub fn sign_bits_overflow(a: u8, b: u8, result: u8) -> (v: bool)
    ensures
        v == signed_overflow(a, b, result),
{
    assert(((!(a ^ b) & (a ^ result)) & 0x80 != 0) == ((a >= 0x80) == (b >= 0x80) && (result
        >= 0x80) != (a >= 0x80))) by (bit_vector);
    (!(a ^ b) & (a ^ result)) & 0x80 != 0
}

/// A byte shifted left by one bit, with `carry_in` as the new bit 0.
pub fn shift_left(m: u8, carry_in: u8) -> (r: u8)
    requires
        carry_in <= 1,
    ensures
        r == wrap8(m * 2 + carry_in),
{
    assert(carry_in <= 1 ==> (m << 1) | carry_in == (m * 2 + carry_in) % 256) by (bit_vector);
    (m << 1) | carry_in
}

/// A byte shifted right by one bit, with `carry_in` as the new bit 7.
pub fn shift_right(m: u8, carry_in: u8) -> (r: u8)
    requires
        carry_in <= 1,
    ensures
        r == m / 2 + 128 * carry_in,
{
    assert(carry_in <= 1 ==> (m >> 1) | (carry_in << 7) == m / 2 + 128 * carry_in)
        by (bit_vector);
    (m >> 1) | (carry_in << 7)
}

/// Whether bit 0 of a byte is set.
pub fn is_odd(m: u8) -> (odd: bool)
    ensures
        odd == (m % 2 == 1),
{
    assert((m & 0x01 != 0) == (m % 2 == 1)) by (bit_vector);
    m & 0x01 != 0
}

/// The one's complement of a byte.
pub fn complement(m: u8) -> (c: u8)
    ensures
        c == 255 - m,
{
    assert(m ^ 0xFF == 255 - m) by (bit_vector);
    m ^ 0xFF
}

/// Clearing a flag that was just set leaves the status as if it had only
/// been cleared.
pub proof fn lemma_clear_after_set(psr: u8, mask: u8)
    by (bit_vector)
    ensures
        with_flag(with_flag(psr, mask, true), mask, false) == with_flag(psr, mask, false),
{
}

} // verus!
