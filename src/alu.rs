//! The processor's arithmetic unit.
//!
//! Every operation is stateless: it takes bytes and a carry bit and hands
//! back the result byte with its carry and overflow outputs. Zero and
//! negative flags are left to the caller.
use vstd::prelude::*;

verus! {

/// The carry bit as a number.
pub open spec fn carry_value(c: bool) -> int {
    if c { 1 } else { 0 }
}

/// A byte read as a two's complement number.
pub open spec fn signed(x: u8) -> int {
    if x < 128 { x as int } else { x as int - 256 }
}

/// `a + b + carry` does not fit in a signed byte.
pub open spec fn signed_overflow(a: u8, b: u8, c: bool) -> bool {
    !(-128 <= signed(a) + signed(b) + carry_value(c) <= 127)
}

/// What add-with-carry hands back: `(result, carry_out, overflow)`.
pub open spec fn adc_spec(a: u8, b: u8, c: bool) -> (u8, bool, bool) {
    (
        ((a + b + carry_value(c)) % 256) as u8,
        a + b + carry_value(c) >= 256,
        signed_overflow(a, b, c),
    )
}

proof fn lemma_not_byte(b: u8)
    ensures
        !b == 255 - b,
{
    assert(!b == 255 - b) by (bit_vector);
}

proof fn lemma_shift_right(a: u8)
    ensures
        a >> 1u8 == a / 2,
        (a & 1 == 1) == (a % 2 == 1),
        (a >> 1u8) | 0x80u8 == a / 2 + 128,
{
    assert(a >> 1u8 == a / 2) by (bit_vector);
    assert((a & 1 == 1) == (a % 2 == 1)) by (bit_vector);
    assert((a >> 1u8) | 0x80u8 == a / 2 + 128) by (bit_vector);
}

/// Adds `a`, `b` and the carry, giving `(value, carry_out, overflow)`.
///
/// The overflow output compares sign bits: it is set when `a` and `b` have
/// the same sign and the result has the other one.
pub fn adc(a: u8, b: u8, carry_in: bool) -> (r: (u8, bool, bool))
    ensures
        r == adc_spec(a, b, carry_in),
{
    let sum: u16 = a as u16 + b as u16 + if carry_in { 1u16 } else { 0u16 };
    let value: u8 = (sum % 256) as u8;
    let carry_out = sum > 255;
    let a_negative = a >= 0x80;
    let overflow = a_negative == (b >= 0x80) && (value >= 0x80) != a_negative;
    (value, carry_out, overflow)
}

/// Bitwise and.
pub fn and(a: u8, b: u8) -> (r: u8)
    ensures
        r == a & b,
{
    a & b
}

/// Shift left by one bit, as `a + a`: `(value, carry_out)`, where the carry
/// is the old bit 7.
pub fn asl(a: u8) -> (r: (u8, bool))
    ensures
        r.0 == (2 * a) % 256,
        r.1 == (a >= 128),
{
    let (value, carry, _) = adc(a, a, false);
    (value, carry)
}

/// Compare: `a - b` through the adder with carry in set.
///
/// The carry output is set when no borrow occurred, that is when `a >= b`.
pub fn cmp(a: u8, b: u8) -> (r: (u8, bool))
    ensures
        r.0 == (a - b + 256) % 256,
        r.1 == (a >= b),
{
    proof {
        lemma_not_byte(b);
    }
    let (value, carry, _) = adc(a, !b, true);
    (value, carry)
}

/// Decrement by one, wrapping.
pub fn dec(a: u8) -> (r: u8)
    ensures
        r == (a + 255) % 256,
{
    let (value, _, _) = adc(a, 0xff, false);
    value
}

/// Bitwise exclusive or.
pub fn eor(a: u8, b: u8) -> (r: u8)
    ensures
        r == a ^ b,
{
    a ^ b
}

/// Shift right by one bit: `(value, carry_out)`, where the carry is the old
/// bit 0.
pub fn lsr(a: u8) -> (r: (u8, bool))
    ensures
        r.0 == a / 2,
        r.1 == (a % 2 == 1),
{
    proof {
        lemma_shift_right(a);
    }
    (a >> 1u8, a & 1 == 1)
}

/// Increment by one, wrapping.
pub fn inc(a: u8) -> (r: u8)
    ensures
        r == (a + 1) % 256,
{
    let (value, _, _) = adc(a, 1, false);
    value
}

/// Bitwise or.
pub fn or(a: u8, b: u8) -> (r: u8)
    ensures
        r == a | b,
{
    a | b
}

/// Rotate left through the carry, as `a + a + carry_in`.
pub fn rol(a: u8, carry_in: bool) -> (r: (u8, bool))
    ensures
        r.0 == (2 * a + carry_value(carry_in)) % 256,
        r.1 == (a >= 128),
{
    let (value, carry, _) = adc(a, a, carry_in);
    (value, carry)
}

/// Rotate right through the carry: the carry enters bit 7 and the old bit 0
/// leaves as the new carry.
pub fn ror(a: u8, carry_in: bool) -> (r: (u8, bool))
    ensures
        r.0 == a / 2 + 128 * carry_value(carry_in),
        r.1 == (a % 2 == 1),
{
    proof {
        lemma_shift_right(a);
    }
    let value = a >> 1u8;
    let value = if carry_in { value | 0x80u8 } else { value };
    (value, a & 1 == 1)
}

/// Subtract with carry: `a + !b + carry_in`, where a clear carry means a
/// borrow.
pub fn sbc(a: u8, b: u8, carry_in: bool) -> (r: (u8, bool, bool))
    ensures
        r == adc_spec(a, !b, carry_in),
        r.0 == (a - b - 1 + carry_value(carry_in) + 256) % 256,
        r.1 == (a + carry_value(carry_in) > b),
{
    proof {
        lemma_not_byte(b);
    }
    adc(a, !b, carry_in)
}

} // verus!
