use rust_nes::error::NesError;
use rust_nes::rom::{parse_header, Mapper, Mapper0, Mirroring, ROM};

fn header(prg_pages: u8, chr_pages: u8, flags6: u8, flags7: u8) -> Vec<u8> {
    vec![0x4E, 0x45, 0x53, 0x1A, prg_pages, chr_pages, flags6, flags7, 0, 0, 0, 0, 0, 0, 0, 0]
}

fn image(prg_pages: u8, chr_pages: u8, flags6: u8) -> Vec<u8> {
    let mut data = header(prg_pages, chr_pages, flags6, 0);
    if flags6 & 0x04 != 0 {
        data.extend(vec![0xEEu8; 512]);
    }
    for i in 0..(prg_pages as usize * 0x4000) {
        data.push((i / 0x100) as u8);
    }
    for i in 0..(chr_pages as usize * 0x2000) {
        data.push((i % 251) as u8);
    }
    data
}

#[test]
fn header_fields() {
    let h = parse_header(&header(2, 1, 0x01, 0x00)).unwrap();
    assert_eq!(h.prg_rom_start, 16);
    assert_eq!(h.prg_rom_size, 0x8000);
    assert_eq!(h.chr_rom_start, 16 + 0x8000);
    assert_eq!(h.chr_rom_size, 0x2000);
    assert_eq!(h.ram_size, 0x2000);
    assert_eq!(h.mapper, 0);
    assert_eq!(h.screen_mirroring, Mirroring::VERTICAL);
}

#[test]
fn header_trainer_and_mapper_nibbles() {
    let h = parse_header(&header(1, 0, 0x14, 0x20)).unwrap();
    assert_eq!(h.prg_rom_start, 16 + 512);
    assert_eq!(h.chr_rom_start, 16 + 512 + 0x4000);
    assert_eq!(h.mapper, 0x21);
    assert_eq!(h.screen_mirroring, Mirroring::HORIZONTAL);
}

#[test]
fn header_mirroring_modes() {
    assert_eq!(parse_header(&header(1, 1, 0x00, 0)).unwrap().screen_mirroring, Mirroring::HORIZONTAL);
    assert_eq!(parse_header(&header(1, 1, 0x01, 0)).unwrap().screen_mirroring, Mirroring::VERTICAL);
    assert_eq!(parse_header(&header(1, 1, 0x09, 0)).unwrap().screen_mirroring, Mirroring::FOUR_SCREEN);
}

#[test]
fn header_rejections() {
    let mut bad = header(1, 1, 0, 0);
    bad[3] = 0x1B;
    assert_eq!(parse_header(&bad).err(), Some(NesError::UnsupportedFormat));
    assert_eq!(parse_header(&header(1, 1, 0, 0x08)).err(), Some(NesError::UnsupportedFormat));
    assert_eq!(parse_header(&[0x4E, 0x45, 0x53]).err(), Some(NesError::UnsupportedFormat));
    assert_eq!(parse_header(&[]).err(), Some(NesError::UnsupportedFormat));
}

#[test]
fn rom_rejects_other_mappers_and_short_images() {
    let mut other = image(1, 1, 0);
    other[6] = 0x10;
    assert_eq!(ROM::new(other).err(), Some(NesError::UnsupportedFormat));
    let mut short = image(1, 1, 0);
    short.pop();
    assert_eq!(ROM::new(short).err(), Some(NesError::UnsupportedFormat));
}

#[test]
fn single_bank_prg_is_mirrored() {
    let rom = ROM::new(image(1, 1, 0)).unwrap();
    assert_eq!(rom.read(0x8000), Ok(0x00));
    assert_eq!(rom.read(0x8123), Ok(0x01));
    assert_eq!(rom.read(0xC123), Ok(0x01));
    assert_eq!(rom.read(0xFFFF), Ok(0x3F));
}

#[test]
fn two_bank_prg_is_not_mirrored() {
    let rom = ROM::new(image(2, 1, 0)).unwrap();
    assert_eq!(rom.read(0x8123), Ok(0x01));
    assert_eq!(rom.read(0xC123), Ok(0x41));
}

#[test]
fn trainer_is_skipped() {
    let rom = ROM::new(image(1, 1, 0x04)).unwrap();
    assert_eq!(rom.read(0x8000), Ok(0x00));
    assert_eq!(rom.prg.len(), 0x4000);
    assert_eq!(rom.chr[5], 5);
}

#[test]
fn chr_reads_and_rom_writes() {
    let mut rom = ROM::new(image(1, 1, 0)).unwrap();
    assert_eq!(rom.read(0x0000), Ok(0));
    assert_eq!(rom.read(0x0105), Ok((0x105 % 251) as u8));
    assert_eq!(rom.write(0x8000, 1), Err(NesError::WriteToRom(0x8000)));
    assert_eq!(rom.write(0x0010, 1), Err(NesError::WriteToRom(0x0010)));
    assert_eq!(rom.read(0x5000), Err(NesError::OutOfBounds(0x5000)));
}

#[test]
fn prg_ram_is_writable() {
    let mut rom = ROM::new(image(1, 1, 0)).unwrap();
    assert_eq!(rom.read(0x6000), Ok(0));
    rom.write(0x6000, 0xAB).unwrap();
    rom.write(0x7FFF, 0xCD).unwrap();
    assert_eq!(rom.read(0x6000), Ok(0xAB));
    assert_eq!(rom.read(0x7FFF), Ok(0xCD));
}

#[test]
fn empty_chr_means_chr_ram() {
    let mut rom = ROM::new(image(1, 0, 0)).unwrap();
    assert_eq!(rom.chr.len(), 0x2000);
    rom.write(0x0010, 0x5A).unwrap();
    assert_eq!(rom.read(0x0010), Ok(0x5A));
}

#[test]
fn mapper0_translates_addresses() {
    let rom = ROM::new(image(1, 1, 0)).unwrap();
    let m = Mapper0 {};
    assert_eq!(m.read(&rom, 0xC200), Ok(0x02));
    assert_eq!(m.read(&rom, 0x4000), Err(NesError::OutOfBounds(0x4000)));
    assert_eq!(m.write(0x9000, 3), Err(NesError::WriteToRom(0x9000)));
}
