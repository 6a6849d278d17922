//! The processor status register as a typed bit field.
//!
//! Bit positions are those of the hardware: N = `0x80`, V = `0x40`,
//! B = `0x10`, D = `0x08`, I = `0x04`, Z = `0x02`, C = `0x01`. Bit `0x20` is
//! unused and reads as 1 in every byte obtained from [`StatusFlags::to_byte`].

use vstd::prelude::*;

verus! {

/// Negative: bit 7 of the last result.
pub const NEGATIVE: u8 = 0x80;

/// Overflow: signed overflow of the last addition or subtraction.
pub const OVERFLOW: u8 = 0x40;

/// The unused bit.
pub const UNUSED: u8 = 0x20;

/// Break: set by the break instruction.
pub const BREAK: u8 = 0x10;

/// Decimal mode.
pub const DECIMAL: u8 = 0x08;

/// Interrupt disable.
pub const INTERRUPT_DISABLE: u8 = 0x04;

/// Zero: the last result was zero.
pub const ZERO: u8 = 0x02;

/// Carry.
pub const CARRY: u8 = 0x01;

/// Whether `mask` selects exactly one bit of a byte.
pub open spec fn is_single_bit(mask: u8) -> bool {
    mask == 0x01 || mask == 0x02 || mask == 0x04 || mask == 0x08 || mask == 0x10 || mask == 0x20
        || mask == 0x40 || mask == 0x80
}

/// Whether bit 7 of `value` is set, which is to say that `value`, read as a
/// signed byte, is negative.
pub open spec fn is_negative(value: u8) -> bool {
    value >= 0x80
}

/// The status register.
#[derive(Clone, Copy, Debug, PartialEq, Eq, Structural)]
pub struct StatusFlags {
    /// The stored bits, one per flag.
    pub bits: u8,
}

impl StatusFlags {
    /// Whether the flag selected by `mask` is set.
    pub open spec fn has(self, mask: u8) -> bool {
        self.bits & mask != 0
    }

    /// The register with the flag selected by `mask` set if `on` and cleared
    /// otherwise.
    pub open spec fn with(self, mask: u8, on: bool) -> StatusFlags {
        StatusFlags { bits: if on { self.bits | mask } else { self.bits & !mask } }
    }

    /// The register after a result `value`: Z says that it is zero, N that its
    /// bit 7 is set.
    pub open spec fn with_zero_negative(self, value: u8) -> StatusFlags {
        self.with(ZERO, value == 0).with(NEGATIVE, is_negative(value))
    }

    /// The byte that stands for the register wherever it is read as a whole:
    /// the stored bits with the unused bit set.
    pub open spec fn byte(self) -> u8 {
        self.bits | UNUSED
    }

    /// The register with every flag clear.
    pub fn new() -> (flags: StatusFlags)
        ensures
            flags.bits == 0,
    {
        StatusFlags { bits: 0 }
    }

    /// The register that stores exactly `bits`.
    pub fn from_byte(bits: u8) -> (flags: StatusFlags)
        ensures
            flags.bits == bits,
    {
        StatusFlags { bits }
    }

    /// The register as a byte; the unused bit reads as 1.
    pub fn to_byte(&self) -> (byte: u8)
        ensures
            byte == self.byte(),
    {
        self.bits | UNUSED
    }

    /// Whether the flag selected by `mask` is set.
    pub fn get(&self, mask: u8) -> (on: bool)
        ensures
            on == self.has(mask),
    {
        self.bits & mask != 0
    }

    /// Sets the flag selected by `mask` if `on`, clears it otherwise.
    pub fn set(&mut self, mask: u8, on: bool)
        ensures
            *final(self) == old(self).with(mask, on),
    {
        if on {
            self.bits |= mask;
        } else {
            self.bits &= !mask;
        }
    }

    /// Whether N is set.
    pub fn negative(&self) -> (on: bool)
        ensures
            on == self.has(NEGATIVE),
    {
        self.get(NEGATIVE)
    }

    /// Whether V is set.
    pub fn overflow(&self) -> (on: bool)
        ensures
            on == self.has(OVERFLOW),
    {
        self.get(OVERFLOW)
    }

    /// Whether B is set.
    pub fn break_flag(&self) -> (on: bool)
        ensures
            on == self.has(BREAK),
    {
        self.get(BREAK)
    }

    /// Whether D is set.
    pub fn decimal(&self) -> (on: bool)
        ensures
            on == self.has(DECIMAL),
    {
        self.get(DECIMAL)
    }

    /// Whether I is set.
    pub fn interrupt_disable(&self) -> (on: bool)
        ensures
            on == self.has(INTERRUPT_DISABLE),
    {
        self.get(INTERRUPT_DISABLE)
    }

    /// Whether Z is set.
    pub fn zero(&self) -> (on: bool)
        ensures
            on == self.has(ZERO),
    {
        self.get(ZERO)
    }

    /// Whether C is set.
    pub fn carry(&self) -> (on: bool)
        ensures
            on == self.has(CARRY),
    {
        self.get(CARRY)
    }

    /// Sets N to bit 7 of `value`.
    pub fn set_negative(&mut self, value: u8)
        ensures
            *final(self) == old(self).with(NEGATIVE, is_negative(value)),
    {
        proof {
            lemma_bit7(value);
        }
        self.set(NEGATIVE, value & 0x80 != 0);
    }

    /// Sets V to `on`.
    pub fn set_overflow(&mut self, on: bool)
        ensures
            *final(self) == old(self).with(OVERFLOW, on),
    {
        self.set(OVERFLOW, on);
    }

    /// Sets B to `on`.
    pub fn set_break(&mut self, on: bool)
        ensures
            *final(self) == old(self).with(BREAK, on),
    {
        self.set(BREAK, on);
    }

    /// Sets D to `on`.
    pub fn set_decimal(&mut self, on: bool)
        ensures
            *final(self) == old(self).with(DECIMAL, on),
    {
        self.set(DECIMAL, on);
    }

    /// Sets I to `on`.
    pub fn set_interrupt_disable(&mut self, on: bool)
        ensures
            *final(self) == old(self).with(INTERRUPT_DISABLE, on),
    {
        self.set(INTERRUPT_DISABLE, on);
    }

    /// Sets Z if `value` is zero, clears it otherwise.
    pub fn set_zero(&mut self, value: u8)
        ensures
            *final(self) == old(self).with(ZERO, value == 0),
    {
        self.set(ZERO, value == 0);
    }

    /// Sets C to `on`.
    pub fn set_carry(&mut self, on: bool)
        ensures
            *final(self) == old(self).with(CARRY, on),
    {
        self.set(CARRY, on);
    }
}

/// Bit 7 of a byte is set exactly when the byte is at least `0x80`.
pub proof fn lemma_bit7(value: u8)
    by (bit_vector)
    ensures
        (value & 0x80 != 0) == (value >= 0x80),
{
}

proof fn lemma_set_bit(bits: u8, mask: u8, other: u8)
    by (bit_vector)
    requires
        mask == 0x01 || mask == 0x02 || mask == 0x04 || mask == 0x08 || mask == 0x10 || mask
            == 0x20 || mask == 0x40 || mask == 0x80,
        other == 0x01 || other == 0x02 || other == 0x04 || other == 0x08 || other == 0x10
            || other == 0x20 || other == 0x40 || other == 0x80,
        other != mask,
    ensures
        (bits | mask) & mask != 0,
        (bits & !mask) & mask == 0,
        (bits | mask) & other == bits & other,
        (bits & !mask) & other == bits & other,
{
}

proof fn lemma_bits_decide(a: u8, b: u8)
    by (bit_vector)
    requires
        a & 0x01 == b & 0x01,
        a & 0x02 == b & 0x02,
        a & 0x04 == b & 0x04,
        a & 0x08 == b & 0x08,
        a & 0x10 == b & 0x10,
        a & 0x20 == b & 0x20,
        a & 0x40 == b & 0x40,
        a & 0x80 == b & 0x80,
    ensures
        a == b,
{
}

proof fn lemma_bit_is_mask(bits: u8, mask: u8)
    by (bit_vector)
    requires
        mask == 0x01 || mask == 0x02 || mask == 0x04 || mask == 0x08 || mask == 0x10 || mask
            == 0x20 || mask == 0x40 || mask == 0x80,
    ensures
        bits & mask == 0 || bits & mask == mask,
{
}

/// A flag that was just given a value has that value, and no other flag
/// changes with it.
pub proof fn lemma_with_has(flags: StatusFlags, mask: u8, on: bool, other: u8)
    requires
        is_single_bit(mask),
        is_single_bit(other),
    ensures
        flags.with(mask, on).has(mask) == on,
        other != mask ==> flags.with(mask, on).has(other) == flags.has(other),
{
    if other != mask {
        lemma_set_bit(flags.bits, mask, other);
    } else {
        lemma_set_bit(flags.bits, mask, if mask == 0x01 { 0x02u8 } else { 0x01u8 });
    }
}

/// After a result, Z and N describe the result and the other flags are as
/// they were.
pub proof fn lemma_with_zero_negative(flags: StatusFlags, value: u8, other: u8)
    requires
        is_single_bit(other),
    ensures
        flags.with_zero_negative(value).has(ZERO) == (value == 0),
        flags.with_zero_negative(value).has(NEGATIVE) == is_negative(value),
        other != ZERO && other != NEGATIVE ==> flags.with_zero_negative(value).has(other)
            == flags.has(other),
{
    lemma_with_has(flags, ZERO, value == 0, NEGATIVE);
    lemma_with_has(flags, ZERO, value == 0, other);
    lemma_with_has(flags.with(ZERO, value == 0), NEGATIVE, is_negative(value), ZERO);
    lemma_with_has(flags.with(ZERO, value == 0), NEGATIVE, is_negative(value), other);
}

/// Two registers in which every flag and the unused bit agree are the same
/// register.
pub proof fn lemma_flags_decide(a: StatusFlags, b: StatusFlags)
    requires
        forall|mask: u8| is_single_bit(mask) ==> a.has(mask) == b.has(mask),
    ensures
        a == b,
{
    assert forall|mask: u8| is_single_bit(mask) implies a.bits & mask == b.bits & mask by {
        lemma_bit_is_mask(a.bits, mask);
        lemma_bit_is_mask(b.bits, mask);
        assert(a.has(mask) == b.has(mask));
    }
    assert(is_single_bit(0x01) && is_single_bit(0x02) && is_single_bit(0x04) && is_single_bit(0x08));
    assert(is_single_bit(0x10) && is_single_bit(0x20) && is_single_bit(0x40) && is_single_bit(0x80));
    lemma_bits_decide(a.bits, b.bits);
}

/// In the byte that stands for the register the unused bit is set, and every
/// other bit is the flag at its position.
pub proof fn lemma_byte(flags: StatusFlags, mask: u8)
    requires
        is_single_bit(mask),
    ensures
        flags.byte() & UNUSED == UNUSED,
        mask != UNUSED ==> (flags.byte() & mask != 0) == flags.has(mask),
{
    let bits = flags.bits;
    assert((bits | 0x20) & 0x20 == 0x20) by (bit_vector);
    if mask != UNUSED {
        lemma_set_bit(bits, UNUSED, mask);
    }
}

} // verus!
