//! Binary arithmetic of the 6502, stated over unbounded integers.
use vstd::prelude::*;

verus! {

/// The carry flag as the number it adds.
pub open spec fn carry_value(c: bool) -> int {
    if c {
        1
    } else {
        0
    }
}

/// A byte read as a two's-complement number.
pub open spec fn signed(v: u8) -> int {
    if v >= 0x80 {
        v - 0x100
    } else {
        v as int
    }
}

/// Whether a number is representable as a signed byte.
pub open spec fn fits_signed(v: int) -> bool {
    -128 <= v <= 127
}

/// ADC: `a + b + carry` as (result byte, carry out, signed overflow).
pub open spec fn adc_spec(a: u8, b: u8, c: bool) -> (u8, bool, bool) {
    let sum = a + b + carry_value(c);
    ((sum % 0x100) as u8, sum >= 0x100, !fits_signed(signed(a) + signed(b) + carry_value(c)))
}

/// SBC: `a - b - borrow`, where the borrow is the complement of carry, as
/// (result byte, carry out = no borrow, signed overflow).
pub open spec fn sbc_spec(a: u8, b: u8, c: bool) -> (u8, bool, bool) {
    let diff = a - b - (1 - carry_value(c));
    (
        ((diff + 0x100) % 0x100) as u8,
        diff >= 0,
        !fits_signed(signed(a) - signed(b) - (1 - carry_value(c))),
    )
}

/// ASL and ROL: shift left, `fill` entering at bit 0; (result, bit shifted out).
pub open spec fn shift_left(v: u8, fill: bool) -> (u8, bool) {
    (((v * 2) % 0x100 + carry_value(fill)) as u8, v >= 0x80)
}

/// LSR and ROR: shift right, `fill` entering at bit 7; (result, bit shifted out).
pub open spec fn shift_right(v: u8, fill: bool) -> (u8, bool) {
    ((v / 2 + 0x80 * carry_value(fill)) as u8, v % 2 == 1)
}

/// Adds `b` and the carry to `a`. Decimal mode does not change the result:
/// this variant of the chip performs no BCD correction.
pub fn add_with_carry(a: u8, b: u8, carry: bool) -> (r: (u8, bool, bool))
    ensures
        r == adc_spec(a, b, carry),
{
    let c: u16 = if carry {
        1
    } else {
        0
    };
    let sum: u16 = a as u16 + b as u16 + c;
    let sa: i16 = if a >= 0x80 {
        a as i16 - 0x100
    } else {
        a as i16
    };
    let sb: i16 = if b >= 0x80 {
        b as i16 - 0x100
    } else {
        b as i16
    };
    let signed_sum: i16 = sa + sb + c as i16;
    ((sum % 0x100) as u8, sum >= 0x100, signed_sum < -128 || signed_sum > 127)
}

/// Subtracts `b` and the borrow (the complement of `carry`) from `a`, by adding
/// the complement of `b`, as the hardware does.
pub fn subtract_with_carry(a: u8, b: u8, carry: bool) -> (r: (u8, bool, bool))
    ensures
        r == sbc_spec(a, b, carry),
{
    let inverted: u8 = !b;
    assert(inverted == 0xff - b) by (bit_vector)
        requires
            inverted == !b,
    ;
    add_with_carry(a, inverted, carry)
}

/// Shifts left by one, `fill` entering at bit 0; returns (result, bit shifted out).
pub fn rotate_left(v: u8, fill: bool) -> (r: (u8, bool))
    ensures
        r == shift_left(v, fill),
{
    let low: u8 = if fill {
        1
    } else {
        0
    };
    ((v % 0x80) * 2 + low, v >= 0x80)
}

/// Shifts right by one, `fill` entering at bit 7; returns (result, bit shifted out).
pub fn rotate_right(v: u8, fill: bool) -> (r: (u8, bool))
    ensures
        r == shift_right(v, fill),
{
    let high: u8 = if fill {
        0x80
    } else {
        0
    };
    (v / 2 + high, v % 2 == 1)
}

proof fn lemma_overflow_bits(a: u8, b: u8, cin: u8, r: u8)
    by (bit_vector)
    requires
        cin <= 1,
        r == ((a as u16 + b as u16 + cin as u16) % 256) as u8,
    ensures
        ((a ^ r) & (b ^ r) & 0x80 != 0) == ((a < 0x80 && b < 0x80 && (a as u16) + (b as u16)
            + (cin as u16) >= 0x80) || (a >= 0x80 && b >= 0x80 && (a as u16) + (b as u16) + (
        cin as u16) < 0x180)),
        !b == 0xff - b,
{
}

/// The overflow of ADC is the two's-complement rule on bit 7: the operands agree in
/// sign and the result does not.
pub proof fn lemma_adc_overflow_bits(a: u8, b: u8, c: bool)
    ensures
        ({
            let (r, _, overflow) = adc_spec(a, b, c);
            overflow == ((a ^ r) & (b ^ r) & 0x80 != 0)
        }),
{
    let cin: u8 = if c { 1 } else { 0 };
    lemma_overflow_bits(a, b, cin, adc_spec(a, b, c).0);
}

/// SBC is ADC of the complemented operand.
pub proof fn lemma_sbc_is_adc_of_complement(a: u8, b: u8, c: bool)
    ensures
        sbc_spec(a, b, c) == adc_spec(a, !b, c),
{
    lemma_overflow_bits(a, b, 0, ((a as u16 + b as u16) % 256) as u8);
}

/// ADC followed by SBC of the same operand, where the SBC's carry in is the
/// complement of the ADC's carry in, gives back the accumulator.
pub proof fn lemma_adc_then_sbc(a: u8, b: u8, c: bool)
    ensures
        sbc_spec(adc_spec(a, b, c).0, b, !c).0 == a,
{
}

} // verus!
