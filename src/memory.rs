//! The CPU's 16-bit address space.
use vstd::prelude::*;
use crate::bus::BUS;
use crate::error::NesError;
use crate::ppu::{ppu_reg_read, ppu_reg_write, PpuView};
use crate::rom::{rom_read, rom_write, RomView, ROM};
use crate::util::word;

verus! {

/// What the CPU's bus reaches.
pub ghost struct CpuMemView {
    /// 2 KiB of internal RAM.
    pub ram: Seq<u8>,
    /// The APU and I/O registers `$4000..$4017`.
    pub io: Seq<u8>,
    pub rom: Option<RomView>,
    pub ppu: Option<PpuView>,
}

impl CpuMemView {
    pub open spec fn wf(self) -> bool {
        &&& self.ram.len() == 2048
        &&& self.io.len() == 0x18
        &&& self.rom matches Some(r) ==> r.wf()
        &&& self.ppu matches Some(p) ==> p.wf()
    }
}

/// The PPU register that an address in `$2000..$3FFF` selects: they repeat every 8 bytes.
pub open spec fn ppu_port(addr: u16) -> u16 {
    (0x2000 + addr % 8) as u16
}

/// The write-only PPU registers: CTRL, MASK, OAMADDR, SCROLL and ADDR.
pub open spec fn write_only_port(port: u16) -> bool {
    port == 0x2000 || port == 0x2001 || port == 0x2003 || port == 0x2005 || port == 0x2006
}

/// A CPU read of `addr`: the byte and the bus afterwards (reading some PPU
/// ports changes the PPU). Errors that the bus itself raises name the
/// address read, mirrors included: a read of a write-only port, or of
/// STATUS, OAMDATA or DATA with no PPU connected.
pub open spec fn cpu_read(m: CpuMemView, addr: u16) -> Result<(u8, CpuMemView), NesError> {
    if addr < 0x2000 {
        Ok((m.ram[addr as int % 0x800], m))
    } else if addr < 0x4000 {
        if write_only_port(ppu_port(addr)) {
            Err(NesError::InvalidRead(addr))
        } else {
            match m.ppu {
                Some(p) => match ppu_reg_read(p, ppu_port(addr)) {
                    Ok((v, p2)) => Ok((v, CpuMemView { ppu: Some(p2), ..m })),
                    Err(e) => Err(e),
                },
                None => Err(NesError::OutOfBounds(addr)),
            }
        }
    } else if addr < 0x4018 {
        if addr == 0x4014 {
            Err(NesError::InvalidRead(addr))
        } else {
            Ok((m.io[addr - 0x4000], m))
        }
    } else if addr < 0x6000 {
        Err(NesError::OutOfBounds(addr))
    } else {
        match m.rom {
            Some(r) => match rom_read(r, addr) {
                Ok(v) => Ok((v, m)),
                Err(e) => Err(e),
            },
            None => Err(NesError::OutOfBounds(addr)),
        }
    }
}

/// A CPU write of `data` to `addr`: the bus afterwards. With no PPU
/// connected, a write to `$2000..$3FFF` is `OutOfBounds` of the address written.
pub open spec fn cpu_write(m: CpuMemView, addr: u16, data: u8) -> Result<CpuMemView, NesError> {
    if addr < 0x2000 {
        Ok(CpuMemView { ram: m.ram.update(addr as int % 0x800, data), ..m })
    } else if addr < 0x4000 {
        match m.ppu {
            Some(p) => match ppu_reg_write(p, ppu_port(addr), data) {
                Ok(p2) => Ok(CpuMemView { ppu: Some(p2), ..m }),
                Err(e) => Err(e),
            },
            None => Err(NesError::OutOfBounds(addr)),
        }
    } else if addr < 0x4018 {
        Ok(CpuMemView { io: m.io.update(addr - 0x4000, data), ..m })
    } else if addr < 0x6000 {
        Err(NesError::OutOfBounds(addr))
    } else {
        match m.rom {
            Some(r) => match rom_write(r, addr, data) {
                Ok(r2) => Ok(CpuMemView { rom: Some(r2), ..m }),
                Err(e) => Err(e),
            },
            None => Err(NesError::OutOfBounds(addr)),
        }
    }
}

/// Two successive reads, at `addr` and at the address after it: a little-endian word.
pub open spec fn cpu_read_word(m: CpuMemView, addr: u16) -> Result<(u16, CpuMemView), NesError> {
    match cpu_read(m, addr) {
        Ok((lo, m1)) => match cpu_read(m1, addr.wrapping_add(1)) {
            Ok((hi, m2)) => Ok((word(lo, hi), m2)),
            Err(e) => Err(e),
        },
        Err(e) => Err(e),
    }
}

/// Internal RAM repeats every 2 KiB below `$2000`: reading or writing `a`
/// is reading or writing `a & $07FF`.
pub proof fn lemma_ram_mirror(m: CpuMemView, a: u16, v: u8)
    requires
        a <= 0x1FFF,
    ensures
        cpu_read(m, a) == cpu_read(m, a & 0x07FF),
        cpu_write(m, a, v) == cpu_write(m, a & 0x07FF, v),
{
    assert(a & 0x07FF == a % 0x800 && a & 0x07FF < 0x800) by (bit_vector);
}

/// `e`, with an `InvalidRead` or `OutOfBounds` of address `from` renamed to address `to`.
pub open spec fn readdressed(e: NesError, from: u16, to: u16) -> NesError {
    if e == NesError::InvalidRead(from) {
        NesError::InvalidRead(to)
    } else if e == NesError::OutOfBounds(from) {
        NesError::OutOfBounds(to)
    } else {
        e
    }
}

/// The PPU registers repeat every 8 bytes over `$2008..$3FFF`: reading or
/// writing `a` has the effects of reading or writing `a & $2007` (the same
/// byte and the same bus afterwards, or the same error, which names `a`
/// where the bus raises it).
pub proof fn lemma_ppu_port_mirror(m: CpuMemView, a: u16, v: u8)
    requires
        0x2008 <= a <= 0x3FFF,
    ensures
        cpu_read(m, a) is Ok <==> cpu_read(m, a & 0x2007) is Ok,
        cpu_read(m, a) is Ok ==> cpu_read(m, a) == cpu_read(m, a & 0x2007),
        cpu_read(m, a) is Err ==> cpu_read(m, a)->Err_0 == readdressed(
            cpu_read(m, a & 0x2007)->Err_0,
            a & 0x2007,
            a,
        ),
        cpu_write(m, a, v) is Ok <==> cpu_write(m, a & 0x2007, v) is Ok,
        cpu_write(m, a, v) is Ok ==> cpu_write(m, a, v) == cpu_write(m, a & 0x2007, v),
        cpu_write(m, a, v) is Err ==> cpu_write(m, a, v)->Err_0 == readdressed(
            cpu_write(m, a & 0x2007, v)->Err_0,
            a & 0x2007,
            a,
        ),
{
    assert(0x2000 <= a & 0x2007 <= 0x2007 && (a & 0x2007) % 8 == a % 8) by (bit_vector)
        requires
            0x2008 <= a <= 0x3FFF,
    ;
}

pub open spec fn cpu_mem_init() -> CpuMemView {
    CpuMemView {
        ram: Seq::new(2048, |i: int| 0u8),
        io: Seq::new(0x18, |i: int| 0u8),
        rom: None,
        ppu: None,
    }
}

/// The CPU's bus: RAM, I/O registers, cartridge and the PPU port.
#[derive(Debug)]
pub struct CpuMemory {
    pub ram: Vec<u8>,
    pub io: Vec<u8>,
    pub rom: Option<ROM>,
    pub bus: Option<BUS>,
}

impl View for CpuMemory {
    type V = CpuMemView;

    open spec fn view(&self) -> CpuMemView {
        CpuMemView {
            ram: self.ram@,
            io: self.io@,
            rom: match self.rom {
                Some(r) => Some(r@),
                None => None,
            },
            ppu: match self.bus {
                Some(b) => Some(b.ppu@),
                None => None,
            },
        }
    }
}

impl CpuMemory {
    pub open spec fn wf(&self) -> bool {
        self@.wf()
    }

    pub fn new() -> (r: Self)
        ensures
            r.wf(),
            r@ == cpu_mem_init(),
    {
        CpuMemory { ram: crate::util::zeros(2048), io: crate::util::zeros(0x18), rom: None, bus: None }
    }

    /// Reads the byte at `addr`.
    pub fn read(&mut self, addr: u16) -> (r: Result<u8, NesError>)
        requires
            old(self).wf(),
        ensures
            final(self).wf(),
            match cpu_read(old(self)@, addr) {
                Ok((v, m)) => r == Ok::<u8, NesError>(v) && final(self)@ == m,
                Err(e) => r == Err::<u8, NesError>(e) && final(self)@ == old(self)@,
            },
    {
        if addr < 0x2000 {
            Ok(self.ram[(addr % 0x800) as usize])
        } else if addr < 0x4000 {
            let port = 0x2000 + addr % 8;
            if port == 0x2000 || port == 0x2001 || port == 0x2003 || port == 0x2005 || port
                == 0x2006 {
                return Err(NesError::InvalidRead(addr));
            }
            match &mut self.bus {
                Some(bus) => bus.receive_data(port),
                None => Err(NesError::OutOfBounds(addr)),
            }
        } else if addr < 0x4018 {
            if addr == 0x4014 {
                Err(NesError::InvalidRead(addr))
            } else {
                Ok(self.io[(addr - 0x4000) as usize])
            }
        } else if addr < 0x6000 {
            Err(NesError::OutOfBounds(addr))
        } else {
            match &self.rom {
                Some(rom) => rom.read(addr),
                None => Err(NesError::OutOfBounds(addr)),
            }
        }
    }

    /// Reads the byte at `*address`, then advances `*address`.
    pub fn loadb(&mut self, address: &mut u16) -> (r: Result<u8, NesError>)
        requires
            old(self).wf(),
        ensures
            final(self).wf(),
            *final(address) == old(address).wrapping_add(1),
            match cpu_read(old(self)@, *old(address)) {
                Ok((v, m)) => r == Ok::<u8, NesError>(v) && final(self)@ == m,
                Err(e) => r == Err::<u8, NesError>(e) && final(self)@ == old(self)@,
            },
    {
        let r = self.read(*address);
        *address = address.wrapping_add(1);
        r
    }

    /// Reads the little-endian word at `*address`, advancing `*address` past it.
    pub fn loadw(&mut self, address: &mut u16) -> (r: Result<u16, NesError>)
        requires
            old(self).wf(),
        ensures
            final(self).wf(),
            *final(address) == old(address).wrapping_add(2),
            match cpu_read_word(old(self)@, *old(address)) {
                Ok((v, m)) => r == Ok::<u16, NesError>(v) && final(self)@ == m,
                Err(e) => r is Err && r == Err::<u16, NesError>(e),
            },
    {
        let start = *address;
        let low = self.loadb(address);
        let high = self.loadb(address);
        assert(*address == start.wrapping_add(2)) by (bit_vector)
            requires
                *address == start.wrapping_add(1).wrapping_add(1),
        ;
        let low = low? as u16;
        let high = high? as u16;
        Ok(high * 256 + low)
    }

    /// Writes `data` at `address`.
    pub fn storeb(&mut self, address: u16, data: u8) -> (r: Result<(), NesError>)
        requires
            old(self).wf(),
        ensures
            final(self).wf(),
            match cpu_write(old(self)@, address, data) {
                Ok(m) => r is Ok && final(self)@ == m,
                Err(e) => r == Err::<(), NesError>(e) && final(self)@ == old(self)@,
            },
    {
        if address < 0x2000 {
            self.ram.set((address % 0x800) as usize, data);
            Ok(())
        } else if address < 0x4000 {
            let port = 0x2000 + address % 8;
            match &mut self.bus {
                Some(bus) => bus.send_data(port, data),
                None => Err(NesError::OutOfBounds(address)),
            }
        } else if address < 0x4018 {
            self.io.set((address - 0x4000) as usize, data);
            Ok(())
        } else if address < 0x6000 {
            Err(NesError::OutOfBounds(address))
        } else {
            match &mut self.rom {
                Some(rom) => rom.write(address, data),
                None => Err(NesError::OutOfBounds(address)),
            }
        }
    }

    /// Writes `data` little-endian: low byte at `address`, high byte after it.
    pub fn storew(&mut self, address: u16, data: u16) -> (r: Result<(), NesError>)
        requires
            old(self).wf(),
        ensures
            final(self).wf(),
            match cpu_write(old(self)@, address, (data % 256) as u8) {
                Ok(m1) => match cpu_write(m1, address.wrapping_add(1), (data / 256) as u8) {
                    Ok(m2) => r is Ok && final(self)@ == m2,
                    Err(e) => r == Err::<(), NesError>(e),
                },
                Err(e) => r == Err::<(), NesError>(e),
            },
    {
        self.storeb(address, (data % 256) as u8)?;
        self.storeb(address.wrapping_add(1), (data / 256) as u8)
    }
}

} // verus!
