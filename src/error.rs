use vstd::prelude::*;

verus! {

/// Every failure the core reports to its host.
#[derive(Debug, Clone, Copy, PartialEq, Eq, Structural)]
pub enum NesError {
    /// Bad magic, iNES 2.0 header, unknown mapper, or a file shorter than its header says.
    UnsupportedFormat,
    /// The opcode byte is not in the decode table.
    IllegalOpcode(u8),
    /// A read from a write-only port.
    InvalidRead(u16),
    /// A write into cartridge ROM.
    WriteToRom(u16),
    /// Any other address that decodes to nothing.
    OutOfBounds(u16),
}

} // verus!
