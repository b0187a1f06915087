//! The 6502 processor status register.
use vstd::prelude::*;

verus! {

/// Bit 0: carry.
pub const CARRY: u8 = 0x01;
/// Bit 1: zero.
pub const ZERO: u8 = 0x02;
/// Bit 2: interrupt disable.
pub const INTERRUPT: u8 = 0x04;
/// Bit 3: decimal (not actually supported but can be set).
pub const DECIMAL: u8 = 0x08;
/// Bit 4: break (only meaningful in a pushed copy of the register).
pub const BREAK: u8 = 0x10;
/// Bit 5: unused, always pushed as 1.
pub const UNUSED: u8 = 0x20;
/// Bit 6: overflow.
pub const OVERFLOW: u8 = 0x40;
/// Bit 7: negative.
pub const NEGATIVE: u8 = 0x80;

/// `mask` selects exactly one of the eight bits of a byte.
pub open spec fn is_flag(mask: u8) -> bool {
    mask == 0x01 || mask == 0x02 || mask == 0x04 || mask == 0x08 || mask == 0x10 || mask == 0x20
        || mask == 0x40 || mask == 0x80
}

/// Whether the bit selected by `mask` is set in `p`.
pub open spec fn flag(p: u8, mask: u8) -> bool {
    p & mask != 0
}

/// `p` with the bits selected by `mask` set (`on`) or cleared (`!on`).
pub open spec fn put(p: u8, mask: u8, on: bool) -> u8 {
    if on {
        p | mask
    } else {
        p & !mask
    }
}

/// `p` with the zero and negative flags set from `value`, in that order.
pub open spec fn put_zn(p: u8, value: u8) -> u8 {
    put(put(p, ZERO, value == 0), NEGATIVE, value >= 0x80)
}

/// The byte that PHP and BRK push for a register holding `p`: bits 4 and 5 set.
pub open spec fn pushable(p: u8) -> u8 {
    p | 0x30
}

/// The register value that PLP and RTI load from a popped byte: bit 4 dropped, bit 5 set.
pub open spec fn popped(value: u8) -> u8 {
    (value & 0xCF) | 0x20
}

/// Setting a flag changes that flag to the given value and leaves every other flag as it was.
pub proof fn lemma_put_flag(p: u8, m: u8, on: bool, other: u8)
    requires
        is_flag(m),
        is_flag(other),
    ensures
        flag(put(p, m, on), m) == on,
        other != m ==> flag(put(p, m, on), other) == flag(p, other),
{
    if on {
        assert(flag(p | m, m)) by (bit_vector)
            requires
                m == 0x01 || m == 0x02 || m == 0x04 || m == 0x08 || m == 0x10 || m == 0x20
                    || m == 0x40 || m == 0x80,
        ;
        assert(other != m ==> ((p | m) & other != 0) == (p & other != 0)) by (bit_vector)
            requires
                m == 0x01 || m == 0x02 || m == 0x04 || m == 0x08 || m == 0x10 || m == 0x20
                    || m == 0x40 || m == 0x80,
                other == 0x01 || other == 0x02 || other == 0x04 || other == 0x08 || other == 0x10
                    || other == 0x20 || other == 0x40 || other == 0x80,
        ;
    } else {
        assert(!flag(p & !m, m)) by (bit_vector);
        assert(other != m ==> ((p & !m) & other != 0) == (p & other != 0)) by (bit_vector)
            requires
                m == 0x01 || m == 0x02 || m == 0x04 || m == 0x08 || m == 0x10 || m == 0x20
                    || m == 0x40 || m == 0x80,
                other == 0x01 || other == 0x02 || other == 0x04 || other == 0x08 || other == 0x10
                    || other == 0x20 || other == 0x40 || other == 0x80,
        ;
    }
}

/// 6502 status register.
///
/// 0. carry
/// 1. zero
/// 2. interrupt
/// 3. decimal (not actually supported but can be set)
/// 4. break (unused)
/// 5. (unused, always pushed as 1)
/// 6. overflow
/// 7. negative
#[derive(Debug, Clone, Copy)]
pub struct Status(pub u8);

impl Default for Status {
    /// The register's value after power-up: interrupts disabled, bits 4 and 5 set.
    fn default() -> (s: Self)
        ensures
            s.0 == 0b0011_0100,
    {
        Status(0b0011_0100)
    }
}

impl Status {
    /// The carry flag.
    pub fn carry(self) -> (r: bool)
        ensures
            r == flag(self.0, CARRY),
    {
        self.0 & 0x01 != 0
    }

    /// The zero flag.
    pub fn zero(self) -> (r: bool)
        ensures
            r == flag(self.0, ZERO),
    {
        self.0 & 0x02 != 0
    }

    /// The interrupt-disable flag.
    pub fn interrupt(self) -> (r: bool)
        ensures
            r == flag(self.0, INTERRUPT),
    {
        self.0 & 0x04 != 0
    }

    /// The overflow flag.
    pub fn overflow(self) -> (r: bool)
        ensures
            r == flag(self.0, OVERFLOW),
    {
        self.0 & 0x40 != 0
    }

    /// The negative flag.
    pub fn negative(self) -> (r: bool)
        ensures
            r == flag(self.0, NEGATIVE),
    {
        self.0 & 0x80 != 0
    }

    /// Set or clear the carry flag.
    pub fn set_carry(&mut self, c: bool)
        ensures
            final(self).0 == put(old(self).0, CARRY, c),
    {
        if c {
            self.0 = self.0 | 0x01;
        } else {
            self.0 = self.0 & !0x01u8;
        }
    }

    /// Set or clear the zero flag.
    pub fn set_zero(&mut self, z: bool)
        ensures
            final(self).0 == put(old(self).0, ZERO, z),
    {
        if z {
            self.0 = self.0 | 0x02;
        } else {
            self.0 = self.0 & !0x02u8;
        }
    }

    /// Set or clear the interrupt-disable flag.
    pub fn set_interrupt(&mut self, i: bool)
        ensures
            final(self).0 == put(old(self).0, INTERRUPT, i),
    {
        if i {
            self.0 = self.0 | 0x04;
        } else {
            self.0 = self.0 & !0x04u8;
        }
    }

    /// Set or clear the decimal flag.
    pub fn set_decimal(&mut self, d: bool)
        ensures
            final(self).0 == put(old(self).0, DECIMAL, d),
    {
        if d {
            self.0 = self.0 | 0x08;
        } else {
            self.0 = self.0 & !0x08u8;
        }
    }

    /// Set or clear the overflow flag.
    pub fn set_overflow(&mut self, v: bool)
        ensures
            final(self).0 == put(old(self).0, OVERFLOW, v),
    {
        if v {
            self.0 = self.0 | 0x40;
        } else {
            self.0 = self.0 & !0x40u8;
        }
    }

    /// Set or clear the negative flag.
    pub(crate) fn set_negative(&mut self, n: bool)
        ensures
            final(self).0 == put(old(self).0, NEGATIVE, n),
    {
        if n {
            self.0 = self.0 | 0x80;
        } else {
            self.0 = self.0 & !0x80u8;
        }
    }

    /// Set the negative flag when `num`, read as a two's complement byte, is negative.
    pub fn set_if_negative(&mut self, num: u8)
        ensures
            final(self).0 == put(old(self).0, NEGATIVE, num >= 0x80),
    {
        self.set_negative(num >= 0x80);
    }

    /// The byte that PHP and BRK push: the register with bits 4 and 5 set.
    pub fn to_pushable(self) -> (r: u8)
        ensures
            r == pushable(self.0),
    {
        self.0 | 0b0011_0000
    }

    /// The register that PLP and RTI load from a popped byte: bit 4 is dropped and bit 5 is
    /// always set.
    pub fn from_popped(value: u8) -> (s: Status)
        ensures
            s.0 == popped(value),
    {
        Status(value & 0b1100_1111 | 0x20)
    }
}

/// Pushing the register and popping it back restores every flag but break, and leaves the
/// unused bit set.
pub proof fn lemma_push_pop_restores_flags(p: u8, m: u8)
    requires
        is_flag(m),
    ensures
        m != BREAK && m != UNUSED ==> flag(popped(pushable(p)), m) == flag(p, m),
        flag(popped(pushable(p)), UNUSED),
        !flag(popped(pushable(p)), BREAK),
{
    if m != BREAK && m != UNUSED {
        assert(((((p | 0x30) & 0xCF) | 0x20) & m != 0) == (p & m != 0)) by (bit_vector)
            requires
                m == 0x01 || m == 0x02 || m == 0x04 || m == 0x08 || m == 0x40 || m == 0x80,
        ;
    }
    assert((((p | 0x30) & 0xCF) | 0x20) & 0x20 != 0) by (bit_vector);
    assert((((p | 0x30) & 0xCF) | 0x20) & 0x10 == 0) by (bit_vector);
}

} // verus!
