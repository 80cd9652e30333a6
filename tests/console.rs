use rust_nes::backend::BackEnd;
use rust_nes::error::NesError;

fn snake_like_image() -> Vec<u8> {
    let mut data = vec![0x4E, 0x45, 0x53, 0x1A, 1, 1, 0, 0, 0, 0, 0, 0, 0, 0, 0, 0];
    let mut prg = vec![0u8; 0x4000];
    // LDA $FF; STA $10; JMP $8000
    prg[..7].copy_from_slice(&[0xA5, 0xFF, 0x85, 0x10, 0x4C, 0x00, 0x80]);
    prg[0x3FFD] = 0x80;
    data.extend(prg);
    let mut chr = vec![0u8; 0x2000];
    chr[1] = 0xFF;
    data.extend(chr);
    data
}

#[test]
fn backend_without_cartridge() {
    let b = BackEnd::new();
    assert_eq!(b.width(), 256);
    assert_eq!(b.height(), 240);
    assert_eq!(b.screen().len(), 256 * 240 * 3);
}

#[test]
fn backend_rejects_bad_images() {
    assert_eq!(BackEnd::new_with_data(&[1, 2, 3]).err(), Some(NesError::UnsupportedFormat));
}

#[test]
fn backend_input_reaches_the_program() {
    let mut b = BackEnd::new_with_data(&snake_like_image()).unwrap();
    assert_eq!(b.cpu().pc(), 0x8000);
    b.run(1, 7 + 3 + 3 + 3).unwrap();
    let mut cpu_view = b.cpu.read(0x0010);
    assert_eq!(cpu_view, Ok(0x77));
    b.handle_user_input(4);
    assert_eq!(b.cpu.read(0x00FF), Ok(0x64));
    b.handle_user_input(9);
    assert_eq!(b.cpu.read(0x00FF), Ok(0x64));
    // LDA, STA and JMP take 3 cycles each: the STA that stores the new key
    // comes 12 clocks later.
    b.run(0, 12).unwrap();
    cpu_view = b.cpu.read(0x0010);
    assert_eq!(cpu_view, Ok(0x64));
    // The screen shows the background of tile 0: row 1 of every tile is colour 0x27.
    let row1 = 3 * 256;
    assert_eq!(&b.screen()[row1..row1 + 3], &[0xFF, 0x9C, 0x12]);
}

#[test]
fn backend_reset_error_is_passed_on() {
    // No PRG pages: the image loads, but the reset vector cannot be read.
    let mut data = vec![0x4E, 0x45, 0x53, 0x1A, 0, 1, 0, 0, 0, 0, 0, 0, 0, 0, 0, 0];
    data.extend(vec![0u8; 0x2000]);
    assert_eq!(BackEnd::new_with_data(&data).err(), Some(NesError::OutOfBounds(0xFFFC)));
}

#[test]
fn backend_starts_reset_with_black_screen() {
    let b = BackEnd::new_with_data(&snake_like_image()).unwrap();
    assert_eq!(b.cpu().pc(), 0x8000);
    assert_eq!(b.cpu().sp(), 0xFD);
    assert_eq!(b.cpu().status(), 0x24);
    assert_eq!(b.cpu().deferred_cycles(), 7);
    assert!(b.cpu().ppu().is_some());
    assert!(b.screen().iter().all(|&x| x == 0));
}
