//! iNES cartridge images: header decoding, the NROM mapper and the ROM itself.
use vstd::prelude::*;
use crate::consts::{
    CHR_ROM_PAGE_SIZE, NES_TAG_0, NES_TAG_1, NES_TAG_2, NES_TAG_3, PRG_RAM_SIZE,
    PRG_ROM_PAGE_SIZE,
};
use crate::error::NesError;

verus! {

/// How the four logical nametables fold onto the console's 2 KiB of VRAM.
#[allow(non_camel_case_types)]
#[derive(Debug, Clone, Copy, PartialEq, Eq, Structural)]
pub enum Mirroring {
    VERTICAL,
    HORIZONTAL,
    FOUR_SCREEN,
}

/// What an iNES header says about the image that follows it.
#[derive(Debug, Clone, Copy)]
pub struct Header {
    pub prg_rom_start: usize,
    pub prg_rom_size: usize,
    pub chr_rom_start: usize,
    pub chr_rom_size: usize,
    pub ram_size: usize,
    pub mapper: u8,
    pub screen_mirroring: Mirroring,
}

/// The header is at least 16 bytes, starts with "NES\x1A" and is iNES version 0.
pub open spec fn valid_header(d: Seq<u8>) -> bool {
    &&& d.len() >= 16
    &&& d[0] == 0x4E && d[1] == 0x45 && d[2] == 0x53 && d[3] == 0x1A
    &&& (d[7] >> 2u8) & 3u8 == 0
}

/// Four-screen when bit 3 of flags 6 is set, else vertical when bit 0 is set.
pub open spec fn mirroring_of(flags6: u8) -> Mirroring {
    if flags6 & 0x08 != 0 {
        Mirroring::FOUR_SCREEN
    } else if flags6 & 0x01 != 0 {
        Mirroring::VERTICAL
    } else {
        Mirroring::HORIZONTAL
    }
}

/// Program data starts after the 16-byte header and, when flags 6 bit 2 says so,
/// a 512-byte trainer.
pub open spec fn prg_start_of(d: Seq<u8>) -> int {
    if d[6] & 0x04 != 0 { 528int } else { 16int }
}

pub open spec fn header_of(d: Seq<u8>) -> Header {
    Header {
        prg_rom_start: prg_start_of(d) as usize,
        prg_rom_size: (d[4] * 16384) as usize,
        chr_rom_start: (prg_start_of(d) + d[4] * 16384) as usize,
        chr_rom_size: (d[5] * 8192) as usize,
        ram_size: (if d[8] == 0 { 8192 } else { d[8] * 8192 }) as usize,
        mapper: (d[7] & 0xF0) | (d[6] >> 4u8),
        screen_mirroring: mirroring_of(d[6]),
    }
}

/// Decodes the 16-byte iNES header at the start of `data`.
pub fn parse_header(data: &[u8]) -> (r: Result<Header, NesError>)
    ensures
        valid_header(data@) ==> r == Ok::<Header, NesError>(header_of(data@)),
        !valid_header(data@) ==> r == Err::<Header, NesError>(NesError::UnsupportedFormat),
{
    if data.len() < 16 {
        return Err(NesError::UnsupportedFormat);
    }
    if data[0] != NES_TAG_0 || data[1] != NES_TAG_1 || data[2] != NES_TAG_2 || data[3]
        != NES_TAG_3 {
        return Err(NesError::UnsupportedFormat);
    }
    let ines_ver = (data[7] >> 2) & 0b11;
    if ines_ver != 0 {
        return Err(NesError::UnsupportedFormat);
    }
    let mapper = (data[7] & 0b1111_0000) | (data[6] >> 4);
    let four_screen = data[6] & 0b1000 != 0;
    let vertical_mirroring = data[6] & 0b1 != 0;
    let screen_mirroring = if four_screen {
        Mirroring::FOUR_SCREEN
    } else if vertical_mirroring {
        Mirroring::VERTICAL
    } else {
        Mirroring::HORIZONTAL
    };
    let prg_rom_size = data[4] as usize * PRG_ROM_PAGE_SIZE;
    let chr_rom_size = data[5] as usize * CHR_ROM_PAGE_SIZE;
    let skip_trainer = data[6] & 0b100 != 0;
    let prg_rom_start: usize = if skip_trainer { 16 + 512 } else { 16 };
    let chr_rom_start = prg_rom_start + prg_rom_size;
    let ram_size = if data[8] == 0 { PRG_RAM_SIZE } else { data[8] as usize * PRG_RAM_SIZE };
    Ok(
        Header {
            prg_rom_start,
            prg_rom_size,
            chr_rom_start,
            chr_rom_size,
            ram_size,
            mapper,
            screen_mirroring,
        },
    )
}

/// The contents of a cartridge, as the emulated machine sees them.
pub ghost struct RomView {
    pub prg: Seq<u8>,
    pub chr: Seq<u8>,
    /// The image had no pattern data, so `chr` is writable RAM.
    pub chr_ram: bool,
    pub ram: Seq<u8>,
    pub mirroring: Mirroring,
}

impl RomView {
    pub open spec fn wf(self) -> bool {
        &&& self.ram.len() >= 8192
        &&& self.chr_ram ==> self.chr.len() == 8192
    }
}

/// A cartridge address policy: CPU addresses `$8000..` map into PRG, PPU
/// addresses below `$2000` map into CHR.
pub trait Mapper {
    spec fn spec_read(&self, rom: RomView, address: u16) -> Result<u8, NesError>;

    spec fn spec_write(&self, address: u16, value: u8) -> Result<(), NesError>;

    fn read(&self, rom: &ROM, address: u16) -> (r: Result<u8, NesError>)
        ensures
            r == self.spec_read(rom@, address),
    ;

    fn write(&self, address: u16, value: u8) -> (r: Result<(), NesError>)
        ensures
            r == self.spec_write(address, value),
    ;
}

/// Mapper 0 (NROM): no bank switching; a single 16 KiB PRG bank is mirrored
/// into both halves of `$8000..$FFFF`.
#[derive(Debug, Clone, Copy)]
pub struct Mapper0 {}

/// Where an NROM read lands.
pub open spec fn nrom_read(rom: RomView, address: u16) -> Result<u8, NesError> {
    if address < 0x2000 {
        if (address as int) < rom.chr.len() {
            Ok(rom.chr[address as int])
        } else {
            Err(NesError::OutOfBounds(address))
        }
    } else if address >= 0x8000 {
        let off = address - 0x8000;
        let off = if rom.prg.len() == 0x4000 && off >= 0x4000 { off - 0x4000 } else { off };
        if off < rom.prg.len() {
            Ok(rom.prg[off])
        } else {
            Err(NesError::OutOfBounds(address))
        }
    } else {
        Err(NesError::OutOfBounds(address))
    }
}

impl Mapper for Mapper0 {
    open spec fn spec_read(&self, rom: RomView, address: u16) -> Result<u8, NesError> {
        nrom_read(rom, address)
    }

    open spec fn spec_write(&self, address: u16, value: u8) -> Result<(), NesError> {
        Err(NesError::WriteToRom(address))
    }

    fn read(&self, rom: &ROM, address: u16) -> (r: Result<u8, NesError>) {
        if address < 0x2000 {
            if (address as usize) < rom.chr.len() {
                Ok(rom.chr[address as usize])
            } else {
                Err(NesError::OutOfBounds(address))
            }
        } else if address >= 0x8000 {
            let mut off = address - 0x8000;
            if rom.prg.len() == 0x4000 && off >= 0x4000 {
                off -= 0x4000;
            }
            if (off as usize) < rom.prg.len() {
                Ok(rom.prg[off as usize])
            } else {
                Err(NesError::OutOfBounds(address))
            }
        } else {
            Err(NesError::OutOfBounds(address))
        }
    }

    fn write(&self, address: u16, value: u8) -> (r: Result<(), NesError>) {
        Err(NesError::WriteToRom(address))
    }
}

/// A loaded cartridge: program ROM, pattern ROM (or RAM), program RAM and mapper.
#[derive(Debug)]
pub struct ROM {
    pub prg: Vec<u8>,
    pub chr: Vec<u8>,
    pub chr_ram: bool,
    pub ram: Vec<u8>,
    pub mapper: Mapper0,
    pub screen_mirroring: Mirroring,
}

impl View for ROM {
    type V = RomView;

    open spec fn view(&self) -> RomView {
        RomView {
            prg: self.prg@,
            chr: self.chr@,
            chr_ram: self.chr_ram,
            ram: self.ram@,
            mirroring: self.screen_mirroring,
        }
    }
}

/// The image is iNES v1, uses mapper 0 and holds all the PRG and CHR its header announces.
pub open spec fn loadable(d: Seq<u8>) -> bool {
    &&& valid_header(d)
    &&& header_of(d).mapper == 0
    &&& d.len() >= header_of(d).chr_rom_start + header_of(d).chr_rom_size
}

/// The cartridge that a loadable image describes.
pub open spec fn rom_of(d: Seq<u8>) -> RomView {
    let h = header_of(d);
    RomView {
        prg: d.subrange(h.prg_rom_start as int, h.prg_rom_start + h.prg_rom_size),
        chr: if h.chr_rom_size == 0 {
            Seq::new(8192, |i: int| 0u8)
        } else {
            d.subrange(h.chr_rom_start as int, h.chr_rom_start + h.chr_rom_size)
        },
        chr_ram: h.chr_rom_size == 0,
        ram: Seq::new(h.ram_size as nat, |i: int| 0u8),
        mirroring: h.screen_mirroring,
    }
}

/// A read of the cartridge: `$6000..$7FFF` is program RAM, the rest goes to the mapper.
pub open spec fn rom_read(rom: RomView, address: u16) -> Result<u8, NesError> {
    if 0x6000 <= address < 0x8000 {
        Ok(rom.ram[address - 0x6000])
    } else {
        nrom_read(rom, address)
    }
}

/// A write to the cartridge: program RAM and pattern RAM take it, ROM refuses it.
pub open spec fn rom_write(rom: RomView, address: u16, value: u8) -> Result<RomView, NesError> {
    if 0x6000 <= address < 0x8000 {
        Ok(RomView { ram: rom.ram.update(address - 0x6000, value), ..rom })
    } else if address < 0x2000 && rom.chr_ram {
        Ok(RomView { chr: rom.chr.update(address as int, value), ..rom })
    } else {
        Err(NesError::WriteToRom(address))
    }
}

fn copy_range(data: &Vec<u8>, start: usize, len: usize) -> (r: Vec<u8>)
    requires
        start + len <= data@.len(),
    ensures
        r@ == data@.subrange(start as int, start + len),
{
    let n = data.len();
    let mut v: Vec<u8> = Vec::with_capacity(len);
    let mut i: usize = 0;
    while i < len
        invariant
            i <= len,
            n == data@.len(),
            start + len <= data@.len(),
            v@ == data@.subrange(start as int, start + i),
        decreases len - i,
    {
        v.push(data[start + i]);
        i += 1;
        assert(v@ =~= data@.subrange(start as int, start + i));
    }
    v
}

impl ROM {
    pub open spec fn wf(&self) -> bool {
        self@.wf()
    }

    /// Loads an iNES image. Fails with `UnsupportedFormat` unless the image is
    /// `loadable`.
    pub fn new(data: Vec<u8>) -> (r: Result<ROM, NesError>)
        ensures
            r is Ok <==> loadable(data@),
            r is Ok ==> r->Ok_0.wf() && r->Ok_0@ == rom_of(data@),
            r is Err ==> r == Err::<ROM, NesError>(NesError::UnsupportedFormat),
    {
        let header = parse_header(data.as_slice())?;
        if header.mapper != 0 {
            return Err(NesError::UnsupportedFormat);
        }
        if data.len() < header.chr_rom_start || data.len() - header.chr_rom_start
            < header.chr_rom_size {
            return Err(NesError::UnsupportedFormat);
        }
        let prg = copy_range(&data, header.prg_rom_start, header.prg_rom_size);
        let chr_ram = header.chr_rom_size == 0;
        let chr = if chr_ram {
            crate::util::zeros(CHR_ROM_PAGE_SIZE)
        } else {
            copy_range(&data, header.chr_rom_start, header.chr_rom_size)
        };
        Ok(
            ROM {
                prg,
                chr,
                chr_ram,
                ram: crate::util::zeros(header.ram_size),
                mapper: Mapper0 {},
                screen_mirroring: header.screen_mirroring,
            },
        )
    }

    pub fn mirroring(&self) -> (r: Mirroring)
        ensures
            r == self@.mirroring,
    {
        self.screen_mirroring
    }

    pub fn read(&self, address: u16) -> (r: Result<u8, NesError>)
        requires
            self.wf(),
        ensures
            r == rom_read(self@, address),
    {
        if 0x6000 <= address && address < 0x8000 {
            Ok(self.ram[(address - 0x6000) as usize])
        } else {
            self.mapper.read(self, address)
        }
    }

    pub fn write(&mut self, address: u16, value: u8) -> (r: Result<(), NesError>)
        requires
            old(self).wf(),
        ensures
            final(self).wf(),
            match rom_write(old(self)@, address, value) {
                Ok(v) => r is Ok && final(self)@ == v,
                Err(e) => r == Err::<(), NesError>(e) && final(self)@ == old(self)@,
            },
    {
        if 0x6000 <= address && address < 0x8000 {
            self.ram.set((address - 0x6000) as usize, value);
            Ok(())
        } else if address < 0x2000 && self.chr_ram {
            self.chr.set(address as usize, value);
            Ok(())
        } else {
            self.mapper.write(address, value)
        }
    }
}

} // verus!
