//! iNES ROM images.
use vstd::prelude::*;

use crate::util::{bit, bit_spec, NesError};

verus! {

/// Size of the iNES header.
pub const HEADER_SIZE: usize = 16;
/// Size of one bank of character ROM.
pub const CHR_ROM_SIZE: u16 = 8 * 1024;
/// Size of one bank of program ROM.
pub const PRG_ROM_SIZE: u16 = 16 * 1024;

/// Nametable mirroring of a cartridge.
#[derive(Debug, Clone, Copy, PartialEq, Eq, Structural)]
pub enum MirrorMode {
    Horizontal,
    Vertical,
}

/// The name under which nametable mirroring is also known.
pub type Orientation = MirrorMode;

/// The iNES header fields that this emulator accepts: the magic bytes, one bank of program ROM
/// and one of character ROM, and no trainer, PRG RAM, VS Unisystem or PlayChoice-10.
pub open spec fn supported_header(data: Seq<u8>) -> bool {
    &&& data.len() >= HEADER_SIZE + PRG_ROM_SIZE + CHR_ROM_SIZE
    &&& data[0] == 0x4E && data[1] == 0x45 && data[2] == 0x53 && data[3] == 0x1A
    &&& data[4] == 1
    &&& data[5] == 1
    &&& !bit_spec(data[6], 1)
    &&& !bit_spec(data[6], 2)
    &&& !bit_spec(data[7], 0)
    &&& !bit_spec(data[7], 1)
}

/// The mirroring that byte 6 of a header selects.
pub open spec fn header_mirroring(flags6: u8) -> MirrorMode {
    if bit_spec(flags6, 0) {
        MirrorMode::Vertical
    } else {
        MirrorMode::Horizontal
    }
}

/// A parsed NROM cartridge.
#[derive(Debug)]
pub struct Cartridge {
    prg: Vec<u8>,
    chr: Vec<u8>,
    nmtable_mirroring: MirrorMode,
}

impl Cartridge {
    /// The program ROM.
    pub closed spec fn prg_spec(&self) -> Seq<u8> {
        self.prg@
    }

    /// The character ROM.
    pub closed spec fn chr_spec(&self) -> Seq<u8> {
        self.chr@
    }

    /// The nametable mirroring.
    pub closed spec fn mirroring_spec(&self) -> MirrorMode {
        self.nmtable_mirroring
    }

    /// One bank of each ROM.
    pub open spec fn inv(&self) -> bool {
        &&& self.prg_spec().len() == PRG_ROM_SIZE
        &&& self.chr_spec().len() == CHR_ROM_SIZE
    }

    /// Read an NES ROM image. Currently, this supports a subset of the iNES format.
    ///
    /// # Errors
    ///
    /// Returns [`NesError::RomParsing`] if the image is not a supported iNES file.
    pub fn new(data: &[u8]) -> (r: Result<Self, NesError>)
        ensures
            r is Ok <==> supported_header(data@),
            r is Err ==> r->Err_0 == NesError::RomParsing,
            r matches Ok(c) ==> {
                &&& c.inv()
                &&& c.prg_spec() == data@.subrange(
                    HEADER_SIZE as int,
                    HEADER_SIZE + PRG_ROM_SIZE,
                )
                &&& c.chr_spec() == data@.subrange(
                    HEADER_SIZE + PRG_ROM_SIZE,
                    HEADER_SIZE + PRG_ROM_SIZE + CHR_ROM_SIZE,
                )
                &&& c.mirroring_spec() == header_mirroring(data@[6])
            },
    {
        if data.len() < HEADER_SIZE + PRG_ROM_SIZE as usize + CHR_ROM_SIZE as usize {
            return Err(NesError::RomParsing);
        }
        // magic bytes
        if data[0] != 0x4E || data[1] != 0x45 || data[2] != 0x53 || data[3] != 0x1A {
            return Err(NesError::RomParsing);
        }
        // prg rom size in 16 KiB chunks
        if data[4] != 1 {
            return Err(NesError::RomParsing);
        }
        // chr rom size in 8 KiB chunks
        if data[5] != 1 {
            return Err(NesError::RomParsing);
        }
        // no support for trainers, PRG RAM, VS Unisystem, or PlayChoice-10.
        if bit(data[6], 1) || bit(data[6], 2) || bit(data[7], 0) || bit(data[7], 1) {
            return Err(NesError::RomParsing);
        }
        let nmtable_mirroring = if bit(data[6], 0) {
            MirrorMode::Vertical
        } else {
            MirrorMode::Horizontal
        };
        let prg = copy_range(data, HEADER_SIZE, PRG_ROM_SIZE as usize);
        let chr = copy_range(data, HEADER_SIZE + PRG_ROM_SIZE as usize, CHR_ROM_SIZE as usize);
        Ok(Cartridge { prg, chr, nmtable_mirroring })
    }

    /// The character ROM.
    pub fn chr(&self) -> (r: &[u8])
        ensures
            r@ == self.chr_spec(),
    {
        self.chr.as_slice()
    }

    /// The program ROM.
    pub fn prg(&self) -> (r: &[u8])
        ensures
            r@ == self.prg_spec(),
    {
        self.prg.as_slice()
    }

    /// The cartridge's nametable mirroring.
    pub fn nmtable_mirroring(&self) -> (m: MirrorMode)
        ensures
            m == self.mirroring_spec(),
    {
        self.nmtable_mirroring
    }

    /// Number of 16 KiB banks of program ROM.
    pub fn prg_chunks_count(&self) -> (n: usize)
        ensures
            n == self.prg_spec().len() / (PRG_ROM_SIZE as nat),
            self.inv() ==> n == 1,
    {
        self.prg.len() / (16 * 1024)
    }

    /// Number of 8 KiB banks of character ROM.
    pub fn chr_chunks_count(&self) -> (n: usize)
        ensures
            n == self.chr_spec().len() / (CHR_ROM_SIZE as nat),
            self.inv() ==> n == 1,
    {
        self.chr.len() / (8 * 1024)
    }

    /// A cartridge whose ROMs hold only zeros, mirrored horizontally.
    pub fn debug_default() -> (c: Self)
        ensures
            c.inv(),
            forall|i: int| 0 <= i < PRG_ROM_SIZE ==> c.prg_spec()[i] == 0,
            forall|i: int| 0 <= i < CHR_ROM_SIZE ==> c.chr_spec()[i] == 0,
            c.mirroring_spec() == MirrorMode::Horizontal,
    {
        Cartridge {
            prg: zeros(PRG_ROM_SIZE as usize),
            chr: zeros(CHR_ROM_SIZE as usize),
            nmtable_mirroring: MirrorMode::Horizontal,
        }
    }
}

/// A copy of `data[start..start + len]`.
fn copy_range(data: &[u8], start: usize, len: usize) -> (v: Vec<u8>)
    requires
        start + len <= data@.len(),
    ensures
        v@ == data@.subrange(start as int, start + len),
{
    let mut v: Vec<u8> = Vec::new();
    let mut i: usize = 0;
    let n = data.len();
    while i < len
        invariant
            i <= len,
            n == data@.len(),
            start + len <= n,
            v@ == data@.subrange(start as int, start + i),
        decreases len - i,
    {
        v.push(data[start + i]);
        i = i + 1;
        assert(v@ =~= data@.subrange(start as int, start + i));
    }
    v
}

/// A vector of `len` zeros.
pub(crate) fn zeros(len: usize) -> (v: Vec<u8>)
    ensures
        v@.len() == len,
        forall|i: int| 0 <= i < len ==> v@[i] == 0,
{
    let mut v: Vec<u8> = Vec::new();
    let mut i: usize = 0;
    while i < len
        invariant
            i <= len,
            v@.len() == i,
            forall|j: int| 0 <= j < i ==> v@[j] == 0,
        decreases len - i,
    {
        v.push(0);
        i = i + 1;
    }
    v
}

} // verus!
