//! The picture-processing unit: the register surface that the CPU bus reaches
//! at `$2000..$2007`, and the background renderer.
use vstd::prelude::*;
use crate::error::NesError;
use crate::ppu_memory::{ppu_mem_init, ppu_mem_read, ppu_mem_write, PpuMemView, PpuMemory};
use crate::frame::{lemma_pixel_in_bounds, lemma_with_pixel, pixel_at, Frame};
use crate::palette::{system_palette, system_rgb};
use crate::rom::ROM;

verus! {

/// The PPU's state.
pub ghost struct PpuView {
    pub mem: PpuMemView,
    /// The 14-bit VRAM address that `$2007` reads and writes.
    pub addr: u16,
    /// The next write to `$2006` gives the high byte.
    pub hi_next: bool,
    pub ctrl: u8,
    pub mask: u8,
    pub status: u8,
    pub oam_addr: u8,
}

impl PpuView {
    pub open spec fn wf(self) -> bool {
        self.mem.wf() && self.addr < 0x4000
    }
}

/// CTRL bit 2 selects a VRAM step of 32 (one nametable row) instead of 1.
pub open spec fn vram_increment(ctrl: u8) -> u16 {
    if ctrl & 0x04 != 0 { 32 } else { 1 }
}

/// The VRAM address after one `$2007` access.
pub open spec fn next_addr(p: PpuView) -> u16 {
    ((p.addr + vram_increment(p.ctrl)) % 0x4000) as u16
}

/// The address latch after one write to `$2006`: first the high six bits,
/// then the low eight.
pub open spec fn latch_addr(p: PpuView, data: u8) -> PpuView {
    if p.hi_next {
        PpuView { addr: ((data % 64) * 256 + p.addr % 256) as u16, hi_next: false, ..p }
    } else {
        PpuView { addr: ((p.addr / 256) * 256 + data) as u16, hi_next: true, ..p }
    }
}

/// A CPU read of PPU register `reg` (one of `$2000..$2007`).
pub open spec fn ppu_reg_read(p: PpuView, reg: u16) -> Result<(u8, PpuView), NesError> {
    if reg == 0x2002 {
        Ok((p.status, PpuView { status: p.status & 0x7F, hi_next: true, ..p }))
    } else if reg == 0x2004 {
        Ok((p.mem.oam[p.oam_addr as int], p))
    } else if reg == 0x2007 {
        match ppu_mem_read(p.mem, p.addr) {
            Ok((v, m)) => Ok((v, PpuView { mem: m, addr: next_addr(p), ..p })),
            Err(e) => Err(e),
        }
    } else {
        Err(NesError::InvalidRead(reg))
    }
}

/// A CPU write of `data` to PPU register `reg` (one of `$2000..$2007`).
/// STATUS is read-only and scrolling is not modelled: those writes change nothing.
pub open spec fn ppu_reg_write(p: PpuView, reg: u16, data: u8) -> Result<PpuView, NesError> {
    if reg == 0x2000 {
        Ok(PpuView { ctrl: data, ..p })
    } else if reg == 0x2001 {
        Ok(PpuView { mask: data, ..p })
    } else if reg == 0x2003 {
        Ok(PpuView { oam_addr: data, ..p })
    } else if reg == 0x2004 {
        Ok(
            PpuView {
                mem: PpuMemView { oam: p.mem.oam.update(p.oam_addr as int, data), ..p.mem },
                oam_addr: p.oam_addr.wrapping_add(1),
                ..p
            },
        )
    } else if reg == 0x2006 {
        Ok(latch_addr(p, data))
    } else if reg == 0x2007 {
        match ppu_mem_write(p.mem, p.addr, data) {
            Ok(m) => Ok(PpuView { mem: m, addr: next_addr(p), ..p }),
            Err(e) => Err(e),
        }
    } else {
        Ok(p)
    }
}

pub open spec fn ppu_init() -> PpuView {
    PpuView {
        mem: ppu_mem_init(),
        addr: 0,
        hi_next: true,
        ctrl: 0,
        mask: 0,
        status: 0,
        oam_addr: 0,
    }
}

/// The system palette entry that the renderer gives each 2-bit pattern value.
pub open spec fn bg_palette(v: u8) -> u8 {
    if v == 0 {
        0x01
    } else if v == 1 {
        0x23
    } else if v == 2 {
        0x27
    } else {
        0x30
    }
}

/// Pixel `(x, y)` of the 8x8 tile whose 16 bytes start at `base`, read most
/// significant bit first: row `y` gives the value's high bit, row `y + 8` its low bit.
pub open spec fn pattern_value(chr: Seq<u8>, base: int, x: int, y: int) -> u8 {
    let shift = (7 - x) as u8;
    (((chr[base + y] >> shift) % 2) * 2 + ((chr[base + y + 8] >> shift) % 2)) as u8
}

/// The colour of screen pixel `(px, py)`: the tile that the first nametable
/// names for that 8x8 cell, taken from pattern table 0.
pub open spec fn background_pixel(p: PpuView, chr: Seq<u8>, px: int, py: int) -> (u8, u8, u8) {
    let tile = p.mem.ram[(py / 8) * 32 + px / 8];
    system_palette(bg_palette(pattern_value(chr, tile as int * 16, px % 8, py % 8)))
}

/// The palette entry for a 2-bit pattern value.
pub fn bg_palette_entry(v: u8) -> (r: u8)
    ensures
        r == bg_palette(v),
        r < 64,
{
    if v == 0 {
        0x01
    } else if v == 1 {
        0x23
    } else if v == 2 {
        0x27
    } else {
        0x30
    }
}

/// A 256x240 frame showing tile `tile_n` of pattern table `bank` in its
/// top-left 8x8 pixels, black elsewhere.
pub fn show_tile(chr_rom: &Vec<u8>, bank: usize, tile_n: usize) -> (r: Frame)
    requires
        bank <= 1,
        tile_n < 256,
        chr_rom@.len() >= 0x2000,
    ensures
        r.wf(),
        r.width == 256,
        r.height == 240,
        forall|x: int, y: int|
            0 <= x < 256 && 0 <= y < 240 ==> #[trigger] pixel_at(r.data@, 256, x, y) == if x < 8
                && y < 8 {
                system_palette(
                    bg_palette(pattern_value(chr_rom@, bank * 0x1000 + tile_n * 16, x, y)),
                )
            } else {
                (0u8, 0u8, 0u8)
            },
{
    let mut frame = Frame::new(256, 240);
    let base = bank * 0x1000 + tile_n * 16;
    let ghost zero = frame.data@;
    assert forall|x: int, y: int| 0 <= x < 256 && 0 <= y < 240 implies #[trigger] pixel_at(
        zero,
        256,
        x,
        y,
    ) == (0u8, 0u8, 0u8) by {
        lemma_pixel_in_bounds(256, 240, x, y);
    }
    let mut y: usize = 0;
    while y < 8
        invariant
            0 <= y <= 8,
            frame.wf(),
            frame.width == 256,
            frame.height == 240,
            base == bank * 0x1000 + tile_n * 16,
            base + 16 <= chr_rom@.len(),
            forall|qx: int, qy: int|
                0 <= qx < 256 && 0 <= qy < 240 ==> #[trigger] pixel_at(frame.data@, 256, qx, qy)
                    == if qx < 8 && qy < y {
                    system_palette(bg_palette(pattern_value(chr_rom@, base as int, qx, qy)))
                } else {
                    (0u8, 0u8, 0u8)
                },
        decreases 8 - y,
    {
        let mut x: usize = 0;
        while x < 8
            invariant
                0 <= y < 8,
                0 <= x <= 8,
                frame.wf(),
                frame.width == 256,
                frame.height == 240,
                base == bank * 0x1000 + tile_n * 16,
                base + 16 <= chr_rom@.len(),
                forall|qx: int, qy: int|
                    0 <= qx < 256 && 0 <= qy < 240 ==> #[trigger] pixel_at(frame.data@, 256, qx, qy)
                        == if (qx < 8 && qy < y) || (qy == y && qx < x) {
                        system_palette(bg_palette(pattern_value(chr_rom@, base as int, qx, qy)))
                    } else {
                        (0u8, 0u8, 0u8)
                    },
            decreases 8 - x,
        {
            let upper = chr_rom[base + y];
            let lower = chr_rom[base + y + 8];
            let shift: u8 = (7 - x) as u8;
            let value: u8 = ((upper >> shift) % 2) * 2 + ((lower >> shift) % 2);
            let rgb = system_rgb(bg_palette_entry(value));
            let ghost before = frame.data@;
            frame.set_pixel(x, y, rgb);
            proof {
                lemma_with_pixel(before, 256, 240, x as int, y as int, rgb);
            }
            x += 1;
        }
        y += 1;
    }
    frame
}

/// The picture-processing unit.
#[derive(Debug)]
pub struct PPU {
    pub mem: PpuMemory,
    pub addr: u16,
    pub addr_hi_next: bool,
    pub ctrl: u8,
    pub mask: u8,
    pub status: u8,
    pub oam_addr: u8,
}

impl View for PPU {
    type V = PpuView;

    open spec fn view(&self) -> PpuView {
        PpuView {
            mem: self.mem@,
            addr: self.addr,
            hi_next: self.addr_hi_next,
            ctrl: self.ctrl,
            mask: self.mask,
            status: self.status,
            oam_addr: self.oam_addr,
        }
    }
}

impl PPU {
    pub open spec fn wf(&self) -> bool {
        self@.wf()
    }

    pub fn new() -> (r: Self)
        ensures
            r.wf(),
            r@ == ppu_init(),
    {
        PPU {
            mem: PpuMemory::new(),
            addr: 0,
            addr_hi_next: true,
            ctrl: 0,
            mask: 0,
            status: 0,
            oam_addr: 0,
        }
    }

    /// Inserts the cartridge whose image is `data`; its pattern data becomes
    /// the PPU's pattern tables.
    pub fn load_rom(&mut self, data: Vec<u8>) -> (r: Result<(), NesError>)
        requires
            old(self).wf(),
        ensures
            final(self).wf(),
            r is Ok <==> crate::rom::loadable(data@),
            r is Ok ==> final(self)@ == (PpuView {
                mem: PpuMemView { rom: Some(crate::rom::rom_of(data@)), ..old(self)@.mem },
                ..old(self)@
            }),
            r is Err ==> r == Err::<(), NesError>(NesError::UnsupportedFormat) && final(self)@
                == old(self)@,
    {
        let rom = ROM::new(data)?;
        self.mem.rom = Some(rom);
        Ok(())
    }

    pub fn write_to_ctrl(&mut self, data: u8)
        ensures
            final(self)@ == (PpuView { ctrl: data, ..old(self)@ }),
    {
        self.ctrl = data;
    }

    pub fn write_to_ppu_addr(&mut self, data: u8)
        requires
            old(self).wf(),
        ensures
            final(self).wf(),
            final(self)@ == latch_addr(old(self)@, data),
    {
        if self.addr_hi_next {
            self.addr = (data % 64) as u16 * 256 + self.addr % 256;
            self.addr_hi_next = false;
        } else {
            self.addr = (self.addr / 256) * 256 + data as u16;
            self.addr_hi_next = true;
        }
    }

    pub fn increment_vram_addr(&mut self)
        requires
            old(self).wf(),
        ensures
            final(self).wf(),
            final(self)@ == (PpuView { addr: next_addr(old(self)@), ..old(self)@ }),
    {
        let step: u16 = if self.ctrl & 0x04 != 0 { 32 } else { 1 };
        self.addr = (self.addr + step) % 0x4000;
    }

    /// A write to `$2007`: stores at the VRAM address, then steps it.
    pub fn write_data(&mut self, data: u8) -> (r: Result<(), NesError>)
        requires
            old(self).wf(),
        ensures
            final(self).wf(),
            match ppu_reg_write(old(self)@, 0x2007, data) {
                Ok(p) => r is Ok && final(self)@ == p,
                Err(e) => r == Err::<(), NesError>(e) && final(self)@ == old(self)@,
            },
    {
        self.mem.storeb(self.addr, data)?;
        self.increment_vram_addr();
        Ok(())
    }

    /// A read of `$2007`: the buffered byte at the VRAM address, then the address steps.
    pub fn read_data(&mut self) -> (r: Result<u8, NesError>)
        requires
            old(self).wf(),
        ensures
            final(self).wf(),
            match ppu_reg_read(old(self)@, 0x2007) {
                Ok((v, p)) => r == Ok::<u8, NesError>(v) && final(self)@ == p,
                Err(e) => r == Err::<u8, NesError>(e) && final(self)@ == old(self)@,
            },
    {
        let v = self.mem.loadb(self.addr)?;
        self.increment_vram_addr();
        Ok(v)
    }

    /// A CPU read of register `reg`.
    pub fn read_register(&mut self, reg: u16) -> (r: Result<u8, NesError>)
        requires
            old(self).wf(),
        ensures
            final(self).wf(),
            match ppu_reg_read(old(self)@, reg) {
                Ok((v, p)) => r == Ok::<u8, NesError>(v) && final(self)@ == p,
                Err(e) => r == Err::<u8, NesError>(e) && final(self)@ == old(self)@,
            },
    {
        if reg == 0x2002 {
            let v = self.status;
            self.status = self.status & 0x7F;
            self.addr_hi_next = true;
            Ok(v)
        } else if reg == 0x2004 {
            Ok(self.mem.oam_data[self.oam_addr as usize])
        } else if reg == 0x2007 {
            self.read_data()
        } else {
            Err(NesError::InvalidRead(reg))
        }
    }

    /// A CPU write of `data` to register `reg`.
    pub fn write_register(&mut self, reg: u16, data: u8) -> (r: Result<(), NesError>)
        requires
            old(self).wf(),
        ensures
            final(self).wf(),
            match ppu_reg_write(old(self)@, reg, data) {
                Ok(p) => r is Ok && final(self)@ == p,
                Err(e) => r == Err::<(), NesError>(e) && final(self)@ == old(self)@,
            },
    {
        if reg == 0x2000 {
            self.write_to_ctrl(data);
            Ok(())
        } else if reg == 0x2001 {
            self.mask = data;
            Ok(())
        } else if reg == 0x2003 {
            self.oam_addr = data;
            Ok(())
        } else if reg == 0x2004 {
            self.mem.oam_data.set(self.oam_addr as usize, data);
            self.oam_addr = self.oam_addr.wrapping_add(1);
            Ok(())
        } else if reg == 0x2006 {
            self.write_to_ppu_addr(data);
            Ok(())
        } else if reg == 0x2007 {
            self.write_data(data)
        } else {
            Ok(())
        }
    }

    /// Composes the background of the first nametable into `frame`: 32 by 30
    /// tiles of 8x8 pixels from pattern table 0. Pixels the frame cannot hold
    /// are dropped. Fails, leaving the frame as it was, without a cartridge
    /// holding a full pattern table.
    pub fn render(&self, frame: &mut Frame) -> (r: Result<(), NesError>)
        requires
            self.wf(),
            old(frame).wf(),
        ensures
            final(frame).wf(),
            final(frame).width == old(frame).width,
            final(frame).height == old(frame).height,
            r is Ok <==> (self@.mem.rom matches Some(rom) && rom.chr.len() >= 0x1000),
            r is Err ==> final(frame).data@ == old(frame).data@,
            r is Ok ==> forall|x: int, y: int|
                0 <= x < old(frame).width && 0 <= y < old(frame).height ==> #[trigger] pixel_at(
                    final(frame).data@,
                    old(frame).width as int,
                    x,
                    y,
                ) == if x < 256 && y < 240 {
                    background_pixel(self@, self@.mem.rom->Some_0.chr, x, y)
                } else {
                    pixel_at(old(frame).data@, old(frame).width as int, x, y)
                },
    {
        let chr = match &self.mem.rom {
            Some(rom) => &rom.chr,
            None => {
                return Err(NesError::OutOfBounds(0));
            },
        };
        if chr.len() < 0x1000 {
            return Err(NesError::OutOfBounds(0x0FFF));
        }
        let ghost old_data = frame.data@;
        let ghost w = frame.width as int;
        let ghost h = frame.height as int;
        let mut py: usize = 0;
        while py < 240
            invariant
                0 <= py <= 240,
                frame.wf(),
                frame.width == w,
                frame.height == h,
                self.wf(),
                self.mem.rom matches Some(rom) && chr == &rom.chr,
                chr@.len() >= 0x1000,
                forall|x: int, y: int|
                    0 <= x < w && 0 <= y < h ==> #[trigger] pixel_at(frame.data@, w, x, y) == if y
                        < py && x < 256 {
                        background_pixel(self@, chr@, x, y)
                    } else {
                        pixel_at(old_data, w, x, y)
                    },
            decreases 240 - py,
        {
            let mut px: usize = 0;
            while px < 256
                invariant
                    0 <= py < 240,
                    0 <= px <= 256,
                    frame.wf(),
                    frame.width == w,
                    frame.height == h,
                    self.wf(),
                    self.mem.rom matches Some(rom) && chr == &rom.chr,
                    chr@.len() >= 0x1000,
                    forall|x: int, y: int|
                        0 <= x < w && 0 <= y < h ==> #[trigger] pixel_at(frame.data@, w, x, y)
                            == if (y < py && x < 256) || (y == py && x < px) {
                            background_pixel(self@, chr@, x, y)
                        } else {
                            pixel_at(old_data, w, x, y)
                        },
                decreases 256 - px,
            {
                let tile = self.mem.ram[(py / 8) * 32 + px / 8] as usize;
                let row = tile * 16 + py % 8;
                let upper = chr[row];
                let lower = chr[row + 8];
                let shift: u8 = (7 - px % 8) as u8;
                let value: u8 = ((upper >> shift) % 2) * 2 + ((lower >> shift) % 2);
                let rgb = system_rgb(bg_palette_entry(value));
                assert(rgb == background_pixel(self@, chr@, px as int, py as int));
                let ghost before = frame.data@;
                frame.set_pixel(px, py, rgb);
                proof {
                    if px < w && py < h {
                        lemma_with_pixel(before, w, h, px as int, py as int, rgb);
                    }
                }
                px += 1;
            }
            py += 1;
        }
        Ok(())
    }
}

} // verus!
