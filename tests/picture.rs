use rust_nes::error::NesError;
use rust_nes::frame::Frame;
use rust_nes::palette::system_rgb;
use rust_nes::ppu::PPU;

fn image_with_chr(chr: &[u8], flags6: u8) -> Vec<u8> {
    let mut data = vec![0x4E, 0x45, 0x53, 0x1A, 1, 1, flags6, 0, 0, 0, 0, 0, 0, 0, 0, 0];
    data.extend(vec![0u8; 0x4000]);
    let mut bank = vec![0u8; 0x2000];
    bank[..chr.len()].copy_from_slice(chr);
    data.extend(bank);
    data
}

fn pixel(frame: &Frame, x: usize, y: usize) -> (u8, u8, u8) {
    let b = 3 * (y * 256 + x);
    (frame.data[b], frame.data[b + 1], frame.data[b + 2])
}

#[test]
fn tile_render() {
    let mut ppu = PPU::new();
    ppu.load_rom(image_with_chr(&[0x00, 0xFF], 0)).unwrap();
    let mut frame = Frame::new(256, 240);
    ppu.render(&mut frame).unwrap();
    for x in 0..8 {
        assert_eq!(pixel(&frame, x, 0), system_rgb(0x01));
        assert_eq!(pixel(&frame, x, 1), system_rgb(0x27));
        for y in 2..8 {
            assert_eq!(pixel(&frame, x, y), system_rgb(0x01));
        }
    }
    assert_eq!(system_rgb(0x01), (0x00, 0x3D, 0xA6));
    assert_eq!(system_rgb(0x27), (0xFF, 0x9C, 0x12));
    // Every cell names tile 0.
    assert_eq!(pixel(&frame, 255, 233), system_rgb(0x27));
}

#[test]
fn render_uses_nametable_and_both_planes() {
    let mut chr = vec![0u8; 32];
    // Tile 1: row 0 high plane 0xF0, low plane 0xCC.
    chr[16] = 0xF0;
    chr[24] = 0xCC;
    let mut ppu = PPU::new();
    ppu.load_rom(image_with_chr(&chr, 0)).unwrap();
    // Name tile 1 at cell (1, 0).
    ppu.write_register(0x2006, 0x20).unwrap();
    ppu.write_register(0x2006, 0x01).unwrap();
    ppu.write_register(0x2007, 0x01).unwrap();
    let mut frame = Frame::new(256, 240);
    ppu.render(&mut frame).unwrap();
    let expect = [0x30, 0x30, 0x27, 0x27, 0x23, 0x23, 0x01, 0x01];
    for x in 0..8 {
        assert_eq!(pixel(&frame, 8 + x, 0), system_rgb(expect[x]));
        assert_eq!(pixel(&frame, x, 0), system_rgb(0x01));
    }
}

#[test]
fn render_without_cartridge_fails() {
    let ppu = PPU::new();
    let mut frame = Frame::new(256, 240);
    assert!(ppu.render(&mut frame).is_err());
    assert!(frame.data.iter().all(|&b| b == 0));
}

#[test]
fn render_clips_to_a_small_frame() {
    let mut ppu = PPU::new();
    ppu.load_rom(image_with_chr(&[0x00, 0xFF], 0)).unwrap();
    let mut frame = Frame::new(4, 2);
    ppu.render(&mut frame).unwrap();
    assert_eq!((frame.data[0], frame.data[1], frame.data[2]), system_rgb(0x01));
    assert_eq!((frame.data[12], frame.data[13], frame.data[14]), system_rgb(0x27));
    assert_eq!(frame.data.len(), 24);
}

#[test]
fn set_pixel_in_and_out_of_range() {
    let mut frame = Frame::new(256, 240);
    frame.set_pixel(3, 2, (1, 2, 3));
    let b = 3 * (2 * 256 + 3);
    assert_eq!(&frame.data[b..b + 3], &[1, 2, 3]);
    let before = frame.data.clone();
    frame.set_pixel(256, 0, (9, 9, 9));
    frame.set_pixel(0, 240, (9, 9, 9));
    assert_eq!(frame.data, before);
    frame.set_pixel(255, 239, (7, 8, 9));
    assert_eq!(&frame.data[3 * (240 * 256) - 3..], &[7, 8, 9]);
}

#[test]
fn data_port_reads_are_buffered() {
    let mut ppu = PPU::new();
    ppu.load_rom(image_with_chr(&[0x10, 0x20, 0x30], 0)).unwrap();
    ppu.write_to_ppu_addr(0x00);
    ppu.write_to_ppu_addr(0x01);
    assert_eq!(ppu.read_data(), Ok(0x00));
    assert_eq!(ppu.read_data(), Ok(0x20));
    assert_eq!(ppu.read_data(), Ok(0x30));
    assert_eq!(ppu.addr, 0x0004);
}

#[test]
fn palette_reads_are_immediate_and_mirrored() {
    let mut ppu = PPU::new();
    ppu.write_to_ppu_addr(0x3F);
    ppu.write_to_ppu_addr(0x10);
    ppu.write_data(0x2C).unwrap();
    ppu.write_to_ppu_addr(0x3F);
    ppu.write_to_ppu_addr(0x00);
    assert_eq!(ppu.read_data(), Ok(0x2C));
}

#[test]
fn nametable_mirroring() {
    // Horizontal: $2400 is $2000.
    let mut ppu = PPU::new();
    ppu.load_rom(image_with_chr(&[], 0)).unwrap();
    ppu.mem.storeb(0x2400, 0x5A).unwrap();
    assert_eq!(ppu.mem.ram[0], 0x5A);
    ppu.mem.storeb(0x2C01, 0x6B).unwrap();
    assert_eq!(ppu.mem.ram[0x401], 0x6B);
    // Vertical: $2800 is $2000; $3000 mirrors $2000.
    let mut ppu = PPU::new();
    ppu.load_rom(image_with_chr(&[], 1)).unwrap();
    ppu.mem.storeb(0x2805, 0x7C).unwrap();
    assert_eq!(ppu.mem.ram[5], 0x7C);
    ppu.mem.loadb(0x3005).unwrap();
    assert_eq!(ppu.mem.loadb(0x2005), Ok(0x7C));
}

#[test]
fn vram_increment_of_32() {
    let mut ppu = PPU::new();
    ppu.write_to_ctrl(0x04);
    ppu.write_to_ppu_addr(0x20);
    ppu.write_to_ppu_addr(0x00);
    ppu.write_data(1).unwrap();
    ppu.write_data(2).unwrap();
    assert_eq!(ppu.mem.ram[0], 1);
    assert_eq!(ppu.mem.ram[32], 2);
    assert_eq!(ppu.addr, 0x2040);
}

#[test]
fn pattern_rom_is_read_only() {
    let mut ppu = PPU::new();
    ppu.load_rom(image_with_chr(&[], 0)).unwrap();
    ppu.write_to_ppu_addr(0x00);
    ppu.write_to_ppu_addr(0x10);
    assert_eq!(ppu.write_data(1), Err(NesError::WriteToRom(0x0010)));
}

#[test]
fn status_read_resets_the_address_latch() {
    let mut ppu = PPU::new();
    ppu.write_to_ppu_addr(0x21);
    assert_eq!(ppu.read_register(0x2002), Ok(0));
    ppu.write_to_ppu_addr(0x23);
    ppu.write_to_ppu_addr(0x45);
    assert_eq!(ppu.addr, 0x2345);
}

#[test]
fn oam_port_writes_and_reads() {
    let mut ppu = PPU::new();
    ppu.write_register(0x2003, 0x10).unwrap();
    ppu.write_register(0x2004, 0x77).unwrap();
    assert_eq!(ppu.oam_addr, 0x11);
    ppu.write_register(0x2003, 0x10).unwrap();
    assert_eq!(ppu.read_register(0x2004), Ok(0x77));
}

#[test]
fn show_tile_draws_one_tile() {
    let mut chr = vec![0u8; 0x2000];
    // Tile 2 of bank 1: row 3 has both planes set in its leftmost pixel.
    chr[0x1000 + 2 * 16 + 3] = 0x80;
    chr[0x1000 + 2 * 16 + 3 + 8] = 0x80;
    let frame = rust_nes::ppu::show_tile(&chr, 1, 2);
    assert_eq!((frame.width, frame.height), (256, 240));
    assert_eq!(pixel(&frame, 0, 3), system_rgb(0x30));
    assert_eq!(pixel(&frame, 1, 3), system_rgb(0x01));
    assert_eq!(pixel(&frame, 0, 0), system_rgb(0x01));
    assert_eq!(pixel(&frame, 8, 0), (0, 0, 0));
    assert_eq!(pixel(&frame, 0, 8), (0, 0, 0));
}
