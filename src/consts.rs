use vstd::prelude::*;

verus! {

/// Magic bytes that open an iNES file: "NES" followed by 0x1A.
pub const NES_TAG_0: u8 = 0x4E;
pub const NES_TAG_1: u8 = 0x45;
pub const NES_TAG_2: u8 = 0x53;
pub const NES_TAG_3: u8 = 0x1A;

/// Size of one program-memory page in an iNES file.
pub const PRG_ROM_PAGE_SIZE: usize = 16384;
/// Size of one pattern-memory page in an iNES file.
pub const CHR_ROM_PAGE_SIZE: usize = 8192;
/// Size of the cartridge's program RAM window.
pub const PRG_RAM_SIZE: usize = 8192;

/// The stack lives in page one of RAM.
pub const STACK_BASE: u16 = 0x0100;
pub const RESET_ADDR: u16 = 0xFFFC;
pub const NMI_ADDR: u16 = 0xFFFA;
pub const IRQ_ADDR: u16 = 0xFFFE;

/// Default frame geometry.
pub const WIDTH: usize = 256;
pub const HEIGHT: usize = 240;

} // verus!
