//! Core of an emulator for an 8-bit console built around a 6502-family CPU,
//! a picture-processing unit and an iNES cartridge with the NROM mapper.
pub mod consts;
pub mod error;
pub mod register;
pub mod rom;
pub mod ppu_memory;
pub mod ppu;
pub mod frame;
pub mod palette;
pub mod bus;
pub mod memory;
pub mod opcodes;
pub mod semantics;
pub mod cpu;
pub mod backend;
mod util;
