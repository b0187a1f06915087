//! Small helpers shared by the whole crate.
use vstd::prelude::*;

verus! {

/// Whether bit `n` (0 is the least significant) of `byte` is set.
pub open spec fn bit_spec(byte: u8, n: u8) -> bool {
    (byte >> n) & 1 == 1
}

/// Returns whether bit `n` (0 is the least significant) of `byte` is set.
pub fn bit(byte: u8, n: u8) -> (r: bool)
    requires
        n < 8,
    ensures
        r == bit_spec(byte, n),
{
    assert((byte >> n) & 1 != 0 <==> (byte >> n) & 1 == 1) by (bit_vector);
    byte >> n & 1 != 0
}

/// Errors that the emulator reports.
#[derive(Debug, Clone, Copy, PartialEq, Eq, Structural)]
#[non_exhaustive]
pub enum NesError {
    /// The ROM image is not an iNES file that this emulator supports.
    RomParsing,
}

impl NesError {
    /// A human-readable description of the error.
    pub fn message(&self) -> (s: &'static str)
        ensures
            *self == NesError::RomParsing ==> s@ == "rom loading error"@,
    {
        match self {
            NesError::RomParsing => "rom loading error",
        }
    }
}

} // verus!
