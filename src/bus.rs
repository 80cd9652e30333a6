//! The port through which the CPU bus reaches the PPU's registers.
use vstd::prelude::*;
use crate::error::NesError;
use crate::ppu::{ppu_reg_read, ppu_reg_write, PPU};

verus! {

/// Owns the PPU on the CPU side and forwards register accesses to it.
#[derive(Debug)]
pub struct BUS {
    pub ppu: PPU,
}

impl BUS {
    pub fn new(ppu: PPU) -> (r: Self)
        ensures
            r.ppu == ppu,
    {
        BUS { ppu }
    }

    /// A CPU read of PPU register `expect_addr`.
    pub fn receive_data(&mut self, expect_addr: u16) -> (r: Result<u8, NesError>)
        requires
            old(self).ppu.wf(),
        ensures
            final(self).ppu.wf(),
            match ppu_reg_read(old(self).ppu@, expect_addr) {
                Ok((v, p)) => r == Ok::<u8, NesError>(v) && final(self).ppu@ == p,
                Err(e) => r == Err::<u8, NesError>(e) && final(self).ppu@ == old(self).ppu@,
            },
    {
        self.ppu.read_register(expect_addr)
    }

    /// A CPU write of `data` to PPU register `addr`.
    pub fn send_data(&mut self, addr: u16, data: u8) -> (r: Result<(), NesError>)
        requires
            old(self).ppu.wf(),
        ensures
            final(self).ppu.wf(),
            match ppu_reg_write(old(self).ppu@, addr, data) {
                Ok(p) => r is Ok && final(self).ppu@ == p,
                Err(e) => r == Err::<(), NesError>(e) && final(self).ppu@ == old(self).ppu@,
            },
    {
        self.ppu.write_register(addr, data)
    }
}

} // verus!
