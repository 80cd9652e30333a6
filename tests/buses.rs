use rust_nes::error::NesError;
use rust_nes::memory::CpuMemory;
use rust_nes::ppu::PPU;
use rust_nes::register::{Flags, Register, RegisterWork};
use rust_nes::bus::BUS;

fn with_ppu() -> CpuMemory {
    let mut mem = CpuMemory::new();
    mem.bus = Some(BUS::new(PPU::new()));
    mem
}

#[test]
fn ram_is_mirrored_every_2k() {
    let mut mem = CpuMemory::new();
    mem.storeb(0x0805, 0x11).unwrap();
    for a in [0x0005u16, 0x0805, 0x1005, 0x1805] {
        assert_eq!(mem.read(a), Ok(0x11));
    }
    mem.storeb(0x1FFF, 0x22).unwrap();
    assert_eq!(mem.read(0x07FF), Ok(0x22));
}

#[test]
fn ppu_ports_are_mirrored_every_8_bytes() {
    let mut mem = with_ppu();
    // $3FFE is ADDR, $200F is DATA.
    mem.storeb(0x3FFE, 0x21).unwrap();
    mem.storeb(0x3FFE, 0x05).unwrap();
    mem.storeb(0x200F, 0xAB).unwrap();
    mem.storeb(0x2006, 0x21).unwrap();
    mem.storeb(0x2006, 0x05).unwrap();
    // The first DATA read returns the stale buffer, the second the byte.
    assert_eq!(mem.read(0x3FFF), Ok(0x00));
    assert_eq!(mem.read(0x2007), Ok(0xAB));
    assert_eq!(mem.read(0x2008), Err(NesError::InvalidRead(0x2008)));
    assert_eq!(mem.read(0x3FFE), Err(NesError::InvalidRead(0x3FFE)));
}

#[test]
fn write_only_ports_refuse_reads() {
    let mut mem = with_ppu();
    for a in [0x2000u16, 0x2001, 0x2003, 0x2005, 0x2006] {
        assert_eq!(mem.read(a), Err(NesError::InvalidRead(a)));
    }
    assert_eq!(mem.read(0x4014), Err(NesError::InvalidRead(0x4014)));
    assert_eq!(mem.read(0x2002), Ok(0));
}

#[test]
fn ports_without_ppu_are_out_of_bounds() {
    let mut mem = CpuMemory::new();
    assert_eq!(mem.read(0x2007), Err(NesError::OutOfBounds(0x2007)));
    assert_eq!(mem.storeb(0x3456, 1), Err(NesError::OutOfBounds(0x3456)));
    assert_eq!(mem.read(0x200A), Err(NesError::OutOfBounds(0x200A)));
    assert_eq!(mem.read(0x8000), Err(NesError::OutOfBounds(0x8000)));
    assert_eq!(mem.storeb(0x4020, 1), Err(NesError::OutOfBounds(0x4020)));
}

#[test]
fn input_port_holds_the_host_byte() {
    let mut mem = CpuMemory::new();
    mem.storeb(0x4016, 0x41).unwrap();
    assert_eq!(mem.read(0x4016), Ok(0x41));
}

#[test]
fn loads_advance_the_address() {
    let mut mem = CpuMemory::new();
    mem.storew(0x0010, 0xBEEF).unwrap();
    assert_eq!(mem.read(0x0010), Ok(0xEF));
    assert_eq!(mem.read(0x0011), Ok(0xBE));
    let mut a: u16 = 0x0010;
    assert_eq!(mem.loadb(&mut a), Ok(0xEF));
    assert_eq!(a, 0x0011);
    let mut a: u16 = 0x0010;
    assert_eq!(mem.loadw(&mut a), Ok(0xBEEF));
    assert_eq!(a, 0x0012);
}

#[test]
fn stack_push_then_pop() {
    let mut mem = CpuMemory::new();
    let mut sp = Register::<u8>::new_with_data(0xFD);
    assert_eq!(sp.get_stack_addr(), 0x01FD);
    sp.stack_push_byte(&mut mem, 0x42);
    assert_eq!(sp.data(), 0xFC);
    assert_eq!(mem.read(0x01FD), Ok(0x42));
    assert_eq!(sp.stack_pop_byte(&mut mem), 0x42);
    assert_eq!(sp.data(), 0xFD);
    sp.stack_push_word(&mut mem, 0x1234);
    assert_eq!(mem.read(0x01FD), Ok(0x12));
    assert_eq!(mem.read(0x01FC), Ok(0x34));
    assert_eq!(sp.stack_pop_word(&mut mem), 0x1234);
    assert_eq!(sp.data(), 0xFD);
}

#[test]
fn stack_wraps_inside_page_one() {
    let mut mem = CpuMemory::new();
    let mut sp = Register::<u8>::new_with_data(0x00);
    sp.stack_push_byte(&mut mem, 0x99);
    assert_eq!(sp.data(), 0xFF);
    assert_eq!(mem.read(0x0100), Ok(0x99));
    assert_eq!(sp.stack_pop_byte(&mut mem), 0x99);
}

#[test]
fn flags_set_and_clear() {
    let mut p = Register::<u8>::new();
    p.set_flag(Flags::C, true);
    p.set_flag(Flags::N, true);
    assert_eq!(p.data(), 0x81);
    assert!(p.check_flag(Flags::N));
    p.set_flag(Flags::C, false);
    assert_eq!(p.data(), 0x80);
    assert!(!p.check_flag(Flags::C));
    assert_eq!(Flags::U.mask(), 0x20);
}

#[test]
fn write_only_port_without_ppu_is_invalid_read() {
    let mut mem = CpuMemory::new();
    assert_eq!(mem.read(0x2000), Err(NesError::InvalidRead(0x2000)));
    let mut a: u16 = 0x2000;
    assert_eq!(mem.loadb(&mut a), Err(NesError::InvalidRead(0x2000)));
    for a in [0x2001u16, 0x2003, 0x2005, 0x2006, 0x2008, 0x3FF9] {
        assert_eq!(mem.read(a), Err(NesError::InvalidRead(a)));
    }
    assert_eq!(mem.read(0x2002), Err(NesError::OutOfBounds(0x2002)));
}
