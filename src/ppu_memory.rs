//! The PPU's 14-bit address space: pattern tables, nametables and palette.
use vstd::prelude::*;
use crate::error::NesError;
use crate::util::word;
use crate::rom::{rom_read, rom_write, Mirroring, RomView, ROM};

verus! {

/// What the PPU's memory holds.
pub ghost struct PpuMemView {
    /// 2 KiB of nametable RAM.
    pub ram: Seq<u8>,
    pub rom: Option<RomView>,
    /// 32 bytes of palette RAM.
    pub palette: Seq<u8>,
    /// The byte that the next buffered read of `$2007` returns.
    pub buf: u8,
    /// 256 bytes of sprite attribute memory.
    pub oam: Seq<u8>,
}

impl PpuMemView {
    pub open spec fn wf(self) -> bool {
        &&& self.ram.len() == 2048
        &&& self.palette.len() == 32
        &&& self.oam.len() == 256
        &&& self.rom matches Some(r) ==> r.wf()
    }

    pub open spec fn mirroring(self) -> Mirroring {
        match self.rom {
            Some(r) => r.mirroring,
            None => Mirroring::HORIZONTAL,
        }
    }
}

/// Where a nametable address (`$2000..$3EFF`) lands in the 2 KiB of VRAM.
/// Horizontal pairs tables 0/1 and 2/3; vertical pairs 0/2 and 1/3. Four-screen
/// would need cartridge RAM, which NROM lacks, so it folds as vertical does.
pub open spec fn vram_index(addr: u16, mirroring: Mirroring) -> int {
    let i = (addr - 0x2000) % 0x1000;
    match mirroring {
        Mirroring::HORIZONTAL => (i / 0x800) * 0x400 + i % 0x400,
        _ => i % 0x800,
    }
}

/// Where a palette address (`$3F00..$3FFF`) lands in the 32 bytes of palette
/// RAM: `$3F10/$3F14/$3F18/$3F1C` mirror `$3F00/$3F04/$3F08/$3F0C`.
pub open spec fn palette_index(addr: u16) -> int {
    let i = (addr - 0x3F00) % 32;
    if i >= 16 && i % 4 == 0 { i - 16 } else { i }
}

/// A read of the PPU bus as the `$2007` port performs it: below `$3F00` the
/// previously buffered byte comes back and the buffer is reloaded; palette
/// reads return at once.
pub open spec fn ppu_mem_read(m: PpuMemView, address: u16) -> Result<(u8, PpuMemView), NesError> {
    let a = (address % 0x4000) as u16;
    if a < 0x2000 {
        match m.rom {
            Some(r) => match rom_read(r, a) {
                Ok(v) => Ok((m.buf, PpuMemView { buf: v, ..m })),
                Err(e) => Err(e),
            },
            None => Err(NesError::OutOfBounds(a)),
        }
    } else if a < 0x3F00 {
        Ok((m.buf, PpuMemView { buf: m.ram[vram_index(a, m.mirroring())], ..m }))
    } else {
        Ok((m.palette[palette_index(a)], m))
    }
}

/// A write to the PPU bus: pattern addresses go to the cartridge, which
/// refuses them unless it has pattern RAM.
pub open spec fn ppu_mem_write(m: PpuMemView, address: u16, data: u8) -> Result<PpuMemView, NesError> {
    let a = (address % 0x4000) as u16;
    if a < 0x2000 {
        match m.rom {
            Some(r) => match rom_write(r, a, data) {
                Ok(r2) => Ok(PpuMemView { rom: Some(r2), ..m }),
                Err(e) => Err(e),
            },
            None => Err(NesError::OutOfBounds(a)),
        }
    } else if a < 0x3F00 {
        Ok(PpuMemView { ram: m.ram.update(vram_index(a, m.mirroring()), data), ..m })
    } else {
        Ok(PpuMemView { palette: m.palette.update(palette_index(a), data), ..m })
    }
}

/// The PPU's memory: nametable RAM, cartridge, palette, read buffer and OAM.
#[derive(Debug)]
pub struct PpuMemory {
    pub ram: Vec<u8>,
    pub rom: Option<ROM>,
    pub palette_table: Vec<u8>,
    pub internal_data_buf: u8,
    pub oam_data: Vec<u8>,
}

impl View for PpuMemory {
    type V = PpuMemView;

    open spec fn view(&self) -> PpuMemView {
        PpuMemView {
            ram: self.ram@,
            rom: match self.rom {
                Some(r) => Some(r@),
                None => None,
            },
            palette: self.palette_table@,
            buf: self.internal_data_buf,
            oam: self.oam_data@,
        }
    }
}

fn vram_slot(addr: u16, mirroring: Mirroring) -> (r: usize)
    requires
        0x2000 <= addr,
    ensures
        r == vram_index(addr, mirroring),
        r < 2048,
{
    let i = (addr - 0x2000) % 0x1000;
    match mirroring {
        Mirroring::HORIZONTAL => ((i / 0x800) * 0x400 + i % 0x400) as usize,
        _ => (i % 0x800) as usize,
    }
}

fn palette_slot(addr: u16) -> (r: usize)
    requires
        0x3F00 <= addr,
    ensures
        r == palette_index(addr),
        r < 32,
{
    let i = (addr - 0x3F00) % 32;
    if i >= 16 && i % 4 == 0 {
        (i - 16) as usize
    } else {
        i as usize
    }
}

pub open spec fn ppu_mem_init() -> PpuMemView {
    PpuMemView {
        ram: Seq::new(2048, |i: int| 0u8),
        rom: None,
        palette: Seq::new(32, |i: int| 0u8),
        buf: 0,
        oam: Seq::new(256, |i: int| 0u8),
    }
}

impl PpuMemory {
    pub open spec fn wf(&self) -> bool {
        self@.wf()
    }

    pub fn new() -> (r: Self)
        ensures
            r.wf(),
            r@ == ppu_mem_init(),
    {
        PpuMemory {
            ram: crate::util::zeros(2048),
            rom: None,
            palette_table: crate::util::zeros(32),
            internal_data_buf: 0,
            oam_data: crate::util::zeros(256),
        }
    }

    fn mirroring(&self) -> (r: Mirroring)
        ensures
            r == self@.mirroring(),
    {
        match &self.rom {
            Some(r) => r.mirroring(),
            None => Mirroring::HORIZONTAL,
        }
    }

    pub fn storeb(&mut self, address: u16, data: u8) -> (r: Result<(), NesError>)
        requires
            old(self).wf(),
        ensures
            final(self).wf(),
            match ppu_mem_write(old(self)@, address, data) {
                Ok(m) => r is Ok && final(self)@ == m,
                Err(e) => r == Err::<(), NesError>(e) && final(self)@ == old(self)@,
            },
    {
        let a = address % 0x4000;
        if a < 0x2000 {
            match &mut self.rom {
                Some(rom) => rom.write(a, data),
                None => Err(NesError::OutOfBounds(a)),
            }
        } else if a < 0x3F00 {
            let i = vram_slot(a, self.mirroring());
            self.ram.set(i, data);
            Ok(())
        } else {
            let i = palette_slot(a);
            self.palette_table.set(i, data);
            Ok(())
        }
    }

    pub fn loadb(&mut self, address: u16) -> (r: Result<u8, NesError>)
        requires
            old(self).wf(),
        ensures
            final(self).wf(),
            match ppu_mem_read(old(self)@, address) {
                Ok((v, m)) => r == Ok::<u8, NesError>(v) && final(self)@ == m,
                Err(e) => r == Err::<u8, NesError>(e) && final(self)@ == old(self)@,
            },
    {
        let a = address % 0x4000;
        if a < 0x2000 {
            let v = match &self.rom {
                Some(rom) => rom.read(a)?,
                None => {
                    return Err(NesError::OutOfBounds(a));
                },
            };
            let result = self.internal_data_buf;
            self.internal_data_buf = v;
            Ok(result)
        } else if a < 0x3F00 {
            let i = vram_slot(a, self.mirroring());
            let result = self.internal_data_buf;
            self.internal_data_buf = self.ram[i];
            Ok(result)
        } else {
            Ok(self.palette_table[palette_slot(a)])
        }
    }

    /// Two byte writes, low byte at `address`, high byte at the next address.
    pub fn storew(&mut self, address: u16, data: u16) -> (r: Result<(), NesError>)
        requires
            old(self).wf(),
        ensures
            final(self).wf(),
            match ppu_mem_write(old(self)@, address, (data & 0xFF) as u8) {
                Ok(m1) => match ppu_mem_write(m1, address.wrapping_add(1), (data >> 8u16) as u8) {
                    Ok(m2) => r is Ok && final(self)@ == m2,
                    Err(e) => r == Err::<(), NesError>(e),
                },
                Err(e) => r == Err::<(), NesError>(e),
            },
    {
        self.storeb(address, (data & 0xFF) as u8)?;
        self.storeb(address.wrapping_add(1), (data >> 8) as u8)
    }

    /// Two byte reads, low byte from `address`, high byte from the next address.
    pub fn loadw(&mut self, address: u16) -> (r: Result<u16, NesError>)
        requires
            old(self).wf(),
        ensures
            final(self).wf(),
            match ppu_mem_read(old(self)@, address) {
                Ok((lo, m1)) => match ppu_mem_read(m1, address.wrapping_add(1)) {
                    Ok((hi, m2)) => r == Ok::<u16, NesError>(word(lo, hi))
                        && final(self)@ == m2,
                    Err(e) => r == Err::<u16, NesError>(e),
                },
                Err(e) => r == Err::<u16, NesError>(e),
            },
    {
        let low = self.loadb(address)? as u16;
        let high = self.loadb(address.wrapping_add(1))? as u16;
        Ok(high * 256 + low)
    }
}

} // verus!
