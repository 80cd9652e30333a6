//! A whole console for a host front end: CPU, PPU on its bus, a screen and
//! the controller byte that the bundled "snake"-style programs poll.
use vstd::prelude::*;
use vstd::slice::slice_to_vec;
use crate::consts::{HEIGHT, WIDTH};
use crate::cpu::{cpu_init, run_spec, CPU};
use crate::error::NesError;
use crate::frame::{pixel_at, Frame};
use crate::memory::CpuMemView;
use crate::ppu::{background_pixel, ppu_init, PpuView, PPU};
use crate::ppu_memory::PpuMemView;
use crate::rom::{loadable, rom_of};
use crate::semantics::reset_spec;
use crate::semantics::CpuView;

verus! {

/// The key code that a host action writes at `$00FF`: 1 up ('w'), 2 down
/// ('s'), 3 left ('a'), 4 right ('d'); any other action writes nothing.
pub open spec fn key_code(action: u8) -> Option<u8> {
    if action == 1 {
        Some(0x77u8)
    } else if action == 2 {
        Some(0x73u8)
    } else if action == 3 {
        Some(0x61u8)
    } else if action == 4 {
        Some(0x64u8)
    } else {
        None
    }
}

/// The CPU after the host action: the key code stored in RAM at `$00FF`.
pub open spec fn with_input(c: CpuView, action: u8) -> CpuView {
    match key_code(action) {
        Some(k) => CpuView { mem: CpuMemView { ram: c.mem.ram.update(0xFF, k), ..c.mem }, ..c },
        None => c,
    }
}

/// A fresh console with the cartridge of image `d` inserted in the CPU and
/// in the PPU, and the PPU on the CPU's bus; not yet reset.
pub open spec fn console_of(d: Seq<u8>) -> CpuView {
    let init = cpu_init();
    let ppu = PpuView { mem: PpuMemView { rom: Some(rom_of(d)), ..ppu_init().mem }, ..ppu_init() };
    CpuView { mem: CpuMemView { rom: Some(rom_of(d)), ppu: Some(ppu), ..init.mem }, ..init }
}

/// The console as a host drives it.
#[derive(Debug)]
pub struct BackEnd {
    pub width: usize,
    pub height: usize,
    pub screen: Frame,
    pub cpu: CPU,
}

impl BackEnd {
    pub open spec fn wf(&self) -> bool {
        &&& self.cpu.wf()
        &&& self.screen.wf()
        &&& self.screen.width == self.width
        &&& self.screen.height == self.height
        &&& self.width == 256
        &&& self.height == 240
    }

    /// Writes the key code of `action` where the running program polls it.
    pub fn handle_user_input(&mut self, action: u8)
        requires
            old(self).wf(),
        ensures
            final(self).wf(),
            final(self).cpu@ == with_input(old(self).cpu@, action),
            final(self).screen == old(self).screen,
    {
        let key: u8 = if action == 1 {
            0x77
        } else if action == 2 {
            0x73
        } else if action == 3 {
            0x61
        } else if action == 4 {
            0x64
        } else {
            return;
        };
        let _ = self.cpu.mem.storeb(0xff, key);
    }

    fn construct(data: Vec<u8>) -> (r: Result<Self, NesError>)
        ensures
            !loadable(data@) ==> r == Err::<Self, NesError>(NesError::UnsupportedFormat),
            loadable(data@) ==> match reset_spec(console_of(data@)) {
                Ok(c) => r matches Ok(b) && b.wf() && b.cpu@ == c && b.screen.data@ == Seq::new(
                    3 * 256 * 240,
                    |i: int| 0u8,
                ),
                Err(e) => r == Err::<Self, NesError>(e),
            },
    {
        let mut cpu = CPU::new();
        cpu.load_rom(slice_to_vec(data.as_slice()))?;
        let mut ppu = PPU::new();
        ppu.load_rom(data)?;
        cpu.load_bus(ppu);
        assert(cpu@ == console_of(data@));
        cpu.reset()?;
        let width = WIDTH;
        let height = HEIGHT;
        Ok(BackEnd { width, height, screen: Frame::new(width, height), cpu })
    }

    /// A console with no cartridge.
    pub fn new() -> (r: Self)
        ensures
            r.wf(),
            r.cpu@ == crate::cpu::cpu_init(),
            r.screen.data@ == Seq::new(3 * 256 * 240, |i: int| 0u8),
    {
        let width = WIDTH;
        let height = HEIGHT;
        BackEnd { width, height, screen: Frame::new(width, height), cpu: CPU::new() }
    }

    /// A console with the cartridge whose iNES image is `data`, after reset,
    /// with a black screen. Fails with `UnsupportedFormat` unless the image is
    /// loadable, and with the reset's error when the reset vector cannot be read.
    pub fn new_with_data(data: &[u8]) -> (r: Result<Self, NesError>)
        ensures
            !loadable(data@) ==> r == Err::<Self, NesError>(NesError::UnsupportedFormat),
            loadable(data@) ==> match reset_spec(console_of(data@)) {
                Ok(c) => r matches Ok(b) && b.wf() && b.cpu@ == c && b.screen.data@ == Seq::new(
                    3 * 256 * 240,
                    |i: int| 0u8,
                ),
                Err(e) => r == Err::<Self, NesError>(e),
            },
    {
        Self::construct(slice_to_vec(data))
    }

    pub fn width(&self) -> (r: u32)
        requires
            self.wf(),
        ensures
            r == 256,
    {
        self.width as u32
    }

    pub fn height(&self) -> (r: u32)
        requires
            self.wf(),
        ensures
            r == 240,
    {
        self.height as u32
    }

    /// The RGB bytes of the screen, row after row.
    pub fn screen(&self) -> (r: &Vec<u8>)
        ensures
            r@ == self.screen.data@,
    {
        &self.screen.data
    }

    pub fn cpu(&self) -> (r: &CPU)
        ensures
            r == &self.cpu,
    {
        &self.cpu
    }

    /// One host frame: apply the host action, run `clocks` clock ticks, then
    /// draw the background that the PPU holds onto the screen.
    pub fn run(&mut self, action: u8, clocks: u64) -> (r: Result<(), NesError>)
        requires
            old(self).wf(),
        ensures
            final(self).wf(),
            match run_spec(with_input(old(self).cpu@, action), clocks as nat) {
                Ok(c) => final(self).cpu@ == c && (r is Ok <==> (c.mem.ppu matches Some(p)
                    && p.mem.rom matches Some(rom) && rom.chr.len() >= 0x1000)),
                Err(e) => r == Err::<(), NesError>(e),
            },
            r is Ok ==> forall|x: int, y: int|
                0 <= x < 256 && 0 <= y < 240 ==> #[trigger] pixel_at(
                    final(self).screen.data@,
                    256,
                    x,
                    y,
                ) == background_pixel(
                    final(self).cpu@.mem.ppu->Some_0,
                    final(self).cpu@.mem.ppu->Some_0.mem.rom->Some_0.chr,
                    x,
                    y,
                ),
    {
        self.handle_user_input(action);
        let ghost start = self.cpu@;
        let mut i: u64 = 0;
        while i < clocks
            invariant
                self.wf(),
                i <= clocks,
                start == with_input(old(self).cpu@, action),
                run_spec(start, clocks as nat) == run_spec(self.cpu@, (clocks - i) as nat),
            decreases clocks - i,
        {
            let ghost before = self.cpu@;
            let r = self.cpu.clock();
            if let Err(e) = r {
                assert(run_spec(before, (clocks - i) as nat) == Err::<CpuView, NesError>(e));
                return Err(e);
            }
            i += 1;
        }
        match self.cpu.ppu() {
            Some(ppu) => ppu.render(&mut self.screen),
            None => Err(NesError::OutOfBounds(0x2000)),
        }
    }
}

} // verus!
