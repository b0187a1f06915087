//! PPU register types: bytes whose bits are the register's fields.
use vstd::prelude::*;

use crate::util::{bit, bit_spec};

verus! {

/// PPUMASK.
#[derive(Debug, Clone, Copy, PartialEq, Eq, Structural)]
pub struct MaskBits {
    raw_value: u8,
}

/// The name under which PPUMASK is also known.
pub type Mask = MaskBits;

impl MaskBits {
    /// The register's byte.
    pub closed spec fn raw(&self) -> u8 {
        self.raw_value
    }

    pub fn new_with_raw_value(value: u8) -> (r: Self)
        ensures
            r.raw() == value,
    {
        MaskBits { raw_value: value }
    }

    pub fn raw_value(&self) -> (r: u8)
        ensures
            r == self.raw(),
    {
        self.raw_value
    }

    pub fn grayscale(&self) -> (r: bool)
        ensures
            r == bit_spec(self.raw(), 0),
    {
        bit(self.raw_value, 0)
    }

    pub fn show_right_sprites(&self) -> (r: bool)
        ensures
            r == bit_spec(self.raw(), 1),
    {
        bit(self.raw_value, 1)
    }

    pub fn show_left_sprites(&self) -> (r: bool)
        ensures
            r == bit_spec(self.raw(), 2),
    {
        bit(self.raw_value, 2)
    }

    pub fn bg_rendering(&self) -> (r: bool)
        ensures
            r == bit_spec(self.raw(), 3),
    {
        bit(self.raw_value, 3)
    }

    pub fn sprite_rendering(&self) -> (r: bool)
        ensures
            r == bit_spec(self.raw(), 4),
    {
        bit(self.raw_value, 4)
    }

    pub fn emph_red(&self) -> (r: bool)
        ensures
            r == bit_spec(self.raw(), 5),
    {
        bit(self.raw_value, 5)
    }

    pub fn emph_green(&self) -> (r: bool)
        ensures
            r == bit_spec(self.raw(), 6),
    {
        bit(self.raw_value, 6)
    }

    pub fn emph_blue(&self) -> (r: bool)
        ensures
            r == bit_spec(self.raw(), 7),
    {
        bit(self.raw_value, 7)
    }
}

/// PPUSTATUS.
#[derive(Debug, Clone, Copy, PartialEq, Eq, Structural)]
pub struct StatusBits {
    raw_value: u8,
}

/// The name under which PPUSTATUS is also known.
pub type Status = StatusBits;

impl StatusBits {
    /// The register's byte.
    pub closed spec fn raw(&self) -> u8 {
        self.raw_value
    }

    pub fn new_with_raw_value(value: u8) -> (r: Self)
        ensures
            r.raw() == value,
    {
        StatusBits { raw_value: value }
    }

    pub fn raw_value(&self) -> (r: u8)
        ensures
            r == self.raw(),
    {
        self.raw_value
    }

    pub fn sprite_overflow(&self) -> (r: bool)
        ensures
            r == bit_spec(self.raw(), 5),
    {
        bit(self.raw_value, 5)
    }

    pub fn sprite_zero_hit(&self) -> (r: bool)
        ensures
            r == bit_spec(self.raw(), 6),
    {
        bit(self.raw_value, 6)
    }

    pub fn vblank(&self) -> (r: bool)
        ensures
            r == bit_spec(self.raw(), 7),
    {
        bit(self.raw_value, 7)
    }
}

/// PPUCTRL.
#[derive(Debug, Clone, Copy, PartialEq, Eq, Structural)]
pub struct CtrlBits {
    raw_value: u8,
}

/// The name under which PPUCTRL is also known.
pub type Ctrl = CtrlBits;

impl CtrlBits {
    /// The register's byte.
    pub closed spec fn raw(&self) -> u8 {
        self.raw_value
    }

    pub fn new_with_raw_value(value: u8) -> (r: Self)
        ensures
            r.raw() == value,
    {
        CtrlBits { raw_value: value }
    }

    pub fn raw_value(&self) -> (r: u8)
        ensures
            r == self.raw(),
    {
        self.raw_value
    }

    pub fn nmtable_x(&self) -> (r: bool)
        ensures
            r == bit_spec(self.raw(), 0),
    {
        bit(self.raw_value, 0)
    }

    pub fn nmtable_y(&self) -> (r: bool)
        ensures
            r == bit_spec(self.raw(), 1),
    {
        bit(self.raw_value, 1)
    }

    /// The base nametable, bits 0 and 1.
    pub fn base_nmtable_addr(&self) -> (r: u8)
        ensures
            r == self.raw() % 4,
    {
        let v = self.raw_value;
        assert(v & 3 == v % 4) by (bit_vector);
        v & 3
    }

    /// Whether PPUDATA accesses step the address by 32 (down a row) rather than by 1.
    pub fn vram_increment(&self) -> (r: bool)
        ensures
            r == bit_spec(self.raw(), 2),
    {
        bit(self.raw_value, 2)
    }

    pub fn sprite_addr(&self) -> (r: bool)
        ensures
            r == bit_spec(self.raw(), 3),
    {
        bit(self.raw_value, 3)
    }

    pub fn bg_addr(&self) -> (r: bool)
        ensures
            r == bit_spec(self.raw(), 4),
    {
        bit(self.raw_value, 4)
    }

    pub fn large_sprite(&self) -> (r: bool)
        ensures
            r == bit_spec(self.raw(), 5),
    {
        bit(self.raw_value, 5)
    }

    pub fn vblank_nmi(&self) -> (r: bool)
        ensures
            r == bit_spec(self.raw(), 7),
    {
        bit(self.raw_value, 7)
    }
}

/// This models the internal PPU registers v and t: coarse X in bits 0-4, coarse Y in bits 5-9,
/// the nametable in bits 10 and 11 and fine Y in bits 12-14.
#[derive(Debug, Clone, Copy, PartialEq, Eq, Structural)]
pub struct Loopy {
    raw_value: u16,
}

impl Loopy {
    /// The register's value.
    pub closed spec fn raw(&self) -> u16 {
        self.raw_value
    }

    pub fn new_with_raw_value(value: u16) -> (r: Self)
        ensures
            r.raw() == value,
    {
        Loopy { raw_value: value }
    }

    pub fn raw_value(&self) -> (r: u16)
        ensures
            r == self.raw(),
    {
        self.raw_value
    }

    pub fn coarse_x(&self) -> (r: u8)
        ensures
            r == self.raw() % 32,
    {
        let v = self.raw_value;
        assert(v & 0x1F == v % 32) by (bit_vector);
        (v & 0x1F) as u8
    }

    pub fn coarse_y(&self) -> (r: u8)
        ensures
            r == (self.raw() / 32) % 32,
    {
        let v = self.raw_value;
        assert((v >> 5) & 0x1F == (v / 32) % 32) by (bit_vector);
        ((v >> 5) & 0x1F) as u8
    }

    pub fn nmtable_x(&self) -> (r: bool)
        ensures
            r == ((self.raw() / 1024) % 2 == 1),
    {
        let v = self.raw_value;
        assert(((v >> 10) & 1 != 0) == ((v / 1024) % 2 == 1)) by (bit_vector);
        (v >> 10) & 1 != 0
    }

    pub fn nmtable_y(&self) -> (r: bool)
        ensures
            r == ((self.raw() / 2048) % 2 == 1),
    {
        let v = self.raw_value;
        assert(((v >> 11) & 1 != 0) == ((v / 2048) % 2 == 1)) by (bit_vector);
        (v >> 11) & 1 != 0
    }

    pub fn fine_y(&self) -> (r: u8)
        ensures
            r == (self.raw() / 4096) % 8,
    {
        let v = self.raw_value;
        assert((v >> 12) & 7 == (v / 4096) % 8) by (bit_vector);
        ((v >> 12) & 7) as u8
    }

    /// Return the 15-bit Loopy register as a 14-bit PPU address.
    pub fn as_address(self) -> (a: u16)
        ensures
            a == self.raw() % 0x4000,
    {
        let v = self.raw_value;
        assert(v & 0x3FFF == v % 0x4000) by (bit_vector);
        v & 0x3FFF
    }
}

} // verus!
