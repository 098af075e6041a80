//! The kinds of error that the core reports.
use vstd::prelude::*;

verus! {

/// Why a cartridge image was not loaded.
#[derive(Debug, Copy, Clone, PartialEq, Eq, Structural)]
pub enum LoadError {
    /// The image is shorter than its header, or its length is not the one
    /// that the header declares.
    InvalidRomSize,
    /// The header checksum does not match, and the caller asked for such
    /// images to be rejected.
    BadHeaderChecksum,
    /// The cartridge-type byte names a controller that is not implemented.
    UnsupportedMbc,
}

/// An undefined opcode and the address it was fetched from.
#[derive(Debug, Copy, Clone, PartialEq, Eq, Structural)]
pub struct IllegalOpcode {
    pub opcode: u8,
    pub pc: u16,
}

} // verus!
