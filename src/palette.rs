//! The 64 colours of the NTSC console palette.
use vstd::prelude::*;

verus! {

/// The RGB triple of system palette entry `i`.
pub open spec fn system_palette(i: u8) -> (u8, u8, u8) {
    match i {
        0x00 => (0x80, 0x80, 0x80),
        0x01 => (0x00, 0x3D, 0xA6),
        0x02 => (0x00, 0x12, 0xB0),
        0x03 => (0x44, 0x00, 0x96),
        0x04 => (0xA1, 0x00, 0x5E),
        0x05 => (0xC7, 0x00, 0x28),
        0x06 => (0xBA, 0x06, 0x00),
        0x07 => (0x8C, 0x17, 0x00),
        0x08 => (0x5C, 0x2F, 0x00),
        0x09 => (0x10, 0x45, 0x00),
        0x0a => (0x05, 0x4A, 0x00),
        0x0b => (0x00, 0x47, 0x2E),
        0x0c => (0x00, 0x41, 0x66),
        0x0d => (0x00, 0x00, 0x00),
        0x0e => (0x05, 0x05, 0x05),
        0x0f => (0x05, 0x05, 0x05),
        0x10 => (0xC7, 0xC7, 0xC7),
        0x11 => (0x00, 0x77, 0xFF),
        0x12 => (0x21, 0x55, 0xFF),
        0x13 => (0x82, 0x37, 0xFA),
        0x14 => (0xEB, 0x2F, 0xB5),
        0x15 => (0xFF, 0x29, 0x50),
        0x16 => (0xFF, 0x22, 0x00),
        0x17 => (0xD6, 0x32, 0x00),
        0x18 => (0xC4, 0x62, 0x00),
        0x19 => (0x35, 0x80, 0x00),
        0x1a => (0x05, 0x8F, 0x00),
        0x1b => (0x00, 0x8A, 0x55),
        0x1c => (0x00, 0x99, 0xCC),
        0x1d => (0x21, 0x21, 0x21),
        0x1e => (0x09, 0x09, 0x09),
        0x1f => (0x09, 0x09, 0x09),
        0x20 => (0xFF, 0xFF, 0xFF),
        0x21 => (0x0F, 0xD7, 0xFF),
        0x22 => (0x69, 0xA2, 0xFF),
        0x23 => (0xD4, 0x80, 0xFF),
        0x24 => (0xFF, 0x45, 0xF3),
        0x25 => (0xFF, 0x61, 0x8B),
        0x26 => (0xFF, 0x88, 0x33),
        0x27 => (0xFF, 0x9C, 0x12),
        0x28 => (0xFA, 0xBC, 0x20),
        0x29 => (0x9F, 0xE3, 0x0E),
        0x2a => (0x2B, 0xF0, 0x35),
        0x2b => (0x0C, 0xF0, 0xA4),
        0x2c => (0x05, 0xFB, 0xFF),
        0x2d => (0x5E, 0x5E, 0x5E),
        0x2e => (0x0D, 0x0D, 0x0D),
        0x2f => (0x0D, 0x0D, 0x0D),
        0x30 => (0xFF, 0xFF, 0xFF),
        0x31 => (0xA6, 0xFC, 0xFF),
        0x32 => (0xB3, 0xEC, 0xFF),
        0x33 => (0xDA, 0xAB, 0xEB),
        0x34 => (0xFF, 0xA8, 0xF9),
        0x35 => (0xFF, 0xAB, 0xB3),
        0x36 => (0xFF, 0xD2, 0xB0),
        0x37 => (0xFF, 0xEF, 0xA6),
        0x38 => (0xFF, 0xF7, 0x9C),
        0x39 => (0xD7, 0xE8, 0x95),
        0x3a => (0xA6, 0xED, 0xAF),
        0x3b => (0xA2, 0xF2, 0xDA),
        0x3c => (0x99, 0xFF, 0xFC),
        0x3d => (0xDD, 0xDD, 0xDD),
        0x3e => (0x11, 0x11, 0x11),
        _ => (0x11, 0x11, 0x11),
    }
}

/// The RGB triple of system palette entry `i`.
pub fn system_rgb(i: u8) -> (r: (u8, u8, u8))
    requires
        i < 64,
    ensures
        r == system_palette(i),
{
    match i {
        0x00 => (0x80, 0x80, 0x80),
        0x01 => (0x00, 0x3D, 0xA6),
        0x02 => (0x00, 0x12, 0xB0),
        0x03 => (0x44, 0x00, 0x96),
        0x04 => (0xA1, 0x00, 0x5E),
        0x05 => (0xC7, 0x00, 0x28),
        0x06 => (0xBA, 0x06, 0x00),
        0x07 => (0x8C, 0x17, 0x00),
        0x08 => (0x5C, 0x2F, 0x00),
        0x09 => (0x10, 0x45, 0x00),
        0x0a => (0x05, 0x4A, 0x00),
        0x0b => (0x00, 0x47, 0x2E),
        0x0c => (0x00, 0x41, 0x66),
        0x0d => (0x00, 0x00, 0x00),
        0x0e => (0x05, 0x05, 0x05),
        0x0f => (0x05, 0x05, 0x05),
        0x10 => (0xC7, 0xC7, 0xC7),
        0x11 => (0x00, 0x77, 0xFF),
        0x12 => (0x21, 0x55, 0xFF),
        0x13 => (0x82, 0x37, 0xFA),
        0x14 => (0xEB, 0x2F, 0xB5),
        0x15 => (0xFF, 0x29, 0x50),
        0x16 => (0xFF, 0x22, 0x00),
        0x17 => (0xD6, 0x32, 0x00),
        0x18 => (0xC4, 0x62, 0x00),
        0x19 => (0x35, 0x80, 0x00),
        0x1a => (0x05, 0x8F, 0x00),
        0x1b => (0x00, 0x8A, 0x55),
        0x1c => (0x00, 0x99, 0xCC),
        0x1d => (0x21, 0x21, 0x21),
        0x1e => (0x09, 0x09, 0x09),
        0x1f => (0x09, 0x09, 0x09),
        0x20 => (0xFF, 0xFF, 0xFF),
        0x21 => (0x0F, 0xD7, 0xFF),
        0x22 => (0x69, 0xA2, 0xFF),
        0x23 => (0xD4, 0x80, 0xFF),
        0x24 => (0xFF, 0x45, 0xF3),
        0x25 => (0xFF, 0x61, 0x8B),
        0x26 => (0xFF, 0x88, 0x33),
        0x27 => (0xFF, 0x9C, 0x12),
        0x28 => (0xFA, 0xBC, 0x20),
        0x29 => (0x9F, 0xE3, 0x0E),
        0x2a => (0x2B, 0xF0, 0x35),
        0x2b => (0x0C, 0xF0, 0xA4),
        0x2c => (0x05, 0xFB, 0xFF),
        0x2d => (0x5E, 0x5E, 0x5E),
        0x2e => (0x0D, 0x0D, 0x0D),
        0x2f => (0x0D, 0x0D, 0x0D),
        0x30 => (0xFF, 0xFF, 0xFF),
        0x31 => (0xA6, 0xFC, 0xFF),
        0x32 => (0xB3, 0xEC, 0xFF),
        0x33 => (0xDA, 0xAB, 0xEB),
        0x34 => (0xFF, 0xA8, 0xF9),
        0x35 => (0xFF, 0xAB, 0xB3),
        0x36 => (0xFF, 0xD2, 0xB0),
        0x37 => (0xFF, 0xEF, 0xA6),
        0x38 => (0xFF, 0xF7, 0x9C),
        0x39 => (0xD7, 0xE8, 0x95),
        0x3a => (0xA6, 0xED, 0xAF),
        0x3b => (0xA2, 0xF2, 0xDA),
        0x3c => (0x99, 0xFF, 0xFC),
        0x3d => (0xDD, 0xDD, 0xDD),
        0x3e => (0x11, 0x11, 0x11),
        _ => (0x11, 0x11, 0x11),
    }
}

} // verus!
