//! The processor status register: six flags and two reserved bits in one byte.
use vstd::prelude::*;

verus! {

/// Set when the last addition or shift carried out, or the last subtraction did not borrow.
pub const CARRY: u8 = 0x01;
/// Set when the last result was zero.
pub const ZERO: u8 = 0x02;
/// Set while maskable interrupts are inhibited.
pub const INTERRUPT: u8 = 0x04;
/// Decimal mode; stored faithfully, although this variant of the chip does no BCD correction.
pub const DECIMAL: u8 = 0x08;
/// Reserved bit 4 ("break"): only meaningful in the copy of the register pushed on the stack.
pub const BREAK: u8 = 0x10;
/// Reserved bit 5: always set in a pushed copy of the register.
pub const UNUSED: u8 = 0x20;
/// Set on signed overflow of the last addition or subtraction, or copied from bit 6 by BIT.
pub const OVERFLOW: u8 = 0x40;
/// Bit 7 of the last result.
pub const NEGATIVE: u8 = 0x80;
/// Both reserved bits.
pub const RESERVED: u8 = 0x30;
/// The six meaningful flags.
pub const MEANINGFUL: u8 = 0xcf;

/// A mask that selects exactly one bit of the register.
pub open spec fn single_bit(mask: u8) -> bool {
    mask == CARRY || mask == ZERO || mask == INTERRUPT || mask == DECIMAL || mask == BREAK
        || mask == UNUSED || mask == OVERFLOW || mask == NEGATIVE
}

/// Whether the bit selected by `mask` is set in `bits`.
pub open spec fn flag(bits: u8, mask: u8) -> bool {
    bits & mask != 0
}

/// `bits` with the bits of `mask` set (`value`) or cleared (not `value`).
pub open spec fn with_flag(bits: u8, mask: u8, value: bool) -> u8 {
    if value {
        bits | mask
    } else {
        bits & !mask
    }
}

/// `bits` with Zero and Negative describing the result `v`.
pub open spec fn with_zn(bits: u8, v: u8) -> u8 {
    with_flag(with_flag(bits, ZERO, v == 0), NEGATIVE, v >= 0x80)
}

proof fn lemma_with_flag_bits(bits: u8, mask: u8, other: u8, value: bool)
    by (bit_vector)
    requires
        single_bit(mask),
        single_bit(other),
    ensures
        flag(with_flag(bits, mask, value), other) == if mask == other {
            value
        } else {
            flag(bits, other)
        },
{
}

/// Setting or clearing one flag leaves every other flag as it was.
pub broadcast proof fn lemma_flag_of_with_flag(bits: u8, mask: u8, other: u8, value: bool)
    requires
        single_bit(mask),
        single_bit(other),
    ensures
        #[trigger] flag(with_flag(bits, mask, value), other) == if mask == other {
            value
        } else {
            flag(bits, other)
        },
{
    lemma_with_flag_bits(bits, mask, other, value);
}

/// The status register, kept as the byte that PHP pushes and PLP pulls.
#[derive(Clone, Copy, Debug, PartialEq, Eq, Structural)]
pub struct StatusRegister {
    pub bits: u8,
}

impl StatusRegister {
    /// A register holding exactly `bits`.
    pub fn from_bits(bits: u8) -> (r: StatusRegister)
        ensures
            r.bits == bits,
    {
        StatusRegister { bits }
    }

    /// Whether the flag selected by `mask` is set.
    pub fn contains(&self, mask: u8) -> (r: bool)
        ensures
            r == flag(self.bits, mask),
    {
        self.bits & mask != 0
    }

    /// Sets (`value`) or clears (not `value`) the flag selected by `mask`.
    pub fn set(&mut self, mask: u8, value: bool)
        ensures
            final(self).bits == with_flag(old(self).bits, mask, value),
    {
        if value {
            self.bits = self.bits | mask;
        } else {
            self.bits = self.bits & !mask;
        }
    }

    /// Sets Zero and Negative from the result `v`.
    pub fn set_zn(&mut self, v: u8)
        ensures
            final(self).bits == with_zn(old(self).bits, v),
    {
        self.set(ZERO, v == 0);
        self.set(NEGATIVE, v >= 0x80);
    }
}

} // verus!
