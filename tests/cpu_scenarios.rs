use rust_nes::cpu::CPU;
use rust_nes::error::NesError;
use rust_nes::opcodes::operation;

/// An iNES image with one 16 KiB PRG bank holding `program` at `$8000`, the
/// reset vector pointing at `$8000`, and one zeroed 8 KiB CHR bank.
fn image_with(program: &[u8], patches: &[(usize, u8)]) -> Vec<u8> {
    let mut data = vec![0x4E, 0x45, 0x53, 0x1A, 1, 1, 0, 0, 0, 0, 0, 0, 0, 0, 0, 0];
    let mut prg = vec![0u8; 0x4000];
    prg[..program.len()].copy_from_slice(program);
    prg[0x3FFC] = 0x00;
    prg[0x3FFD] = 0x80;
    for &(off, v) in patches {
        prg[off] = v;
    }
    data.extend_from_slice(&prg);
    data.extend_from_slice(&vec![0u8; 0x2000]);
    data
}

fn cpu_with(program: &[u8], patches: &[(usize, u8)]) -> CPU {
    let mut cpu = CPU::new();
    cpu.load_rom(image_with(program, patches)).unwrap();
    cpu.reset().unwrap();
    cpu
}

/// Runs one instruction and gives the cycles it added.
fn step_cost(cpu: &mut CPU) -> u64 {
    let before = cpu.deferred_cycles();
    cpu.step().unwrap();
    cpu.deferred_cycles() - before
}

#[test]
fn reset_vector() {
    let mut cpu = CPU::new();
    cpu.load_rom(image_with(&[], &[(0x3FFC, 0x34), (0x3FFD, 0x12)])).unwrap();
    cpu.reset().unwrap();
    assert_eq!(cpu.pc(), 0x1234);
    assert_eq!(cpu.sp(), 0xFD);
    assert_eq!(cpu.status(), 0x24);
    assert_eq!((cpu.a(), cpu.x(), cpu.y()), (0, 0, 0));
    assert_eq!(cpu.deferred_cycles(), 7);
}

#[test]
fn lda_immediate_sets_zero_flag() {
    let mut cpu = cpu_with(&[0xA9, 0x00], &[]);
    assert_eq!(step_cost(&mut cpu), 2);
    assert_eq!(cpu.a(), 0);
    assert_eq!(cpu.status() & 0x02, 0x02);
    assert_eq!(cpu.status() & 0x80, 0);
    assert_eq!(cpu.pc(), 0x8002);
}

#[test]
fn jsr_rts_round_trip() {
    let mut cpu = cpu_with(&[0x20, 0x06, 0x80, 0xA9, 0x11, 0x00, 0xA9, 0x22, 0x60], &[]);
    cpu.step().unwrap();
    assert_eq!(cpu.pc(), 0x8006);
    assert_eq!(cpu.sp(), 0xFB);
    cpu.step().unwrap();
    assert_eq!(cpu.a(), 0x22);
    cpu.step().unwrap();
    assert_eq!(cpu.a(), 0x22);
    assert_eq!(cpu.pc(), 0x8003);
    assert_eq!(cpu.sp(), 0xFD);
    cpu.step().unwrap();
    assert_eq!(cpu.a(), 0x11);
}

#[test]
fn adc_overflow() {
    let mut cpu = cpu_with(&[0x69, 0x50], &[]);
    cpu.set_registers(0x50, 0, 0, 0x24);
    cpu.step().unwrap();
    assert_eq!(cpu.a(), 0xA0);
    let p = cpu.status();
    assert_eq!(p & 0x40, 0x40, "V");
    assert_eq!(p & 0x01, 0, "C");
    assert_eq!(p & 0x80, 0x80, "N");
    assert_eq!(p & 0x02, 0, "Z");
}

#[test]
fn adc_carry_out() {
    let mut cpu = cpu_with(&[0x69, 0x01], &[]);
    cpu.set_registers(0xFF, 0, 0, 0x25);
    cpu.step().unwrap();
    assert_eq!(cpu.a(), 0x01);
    assert_eq!(cpu.status() & 0x41, 0x01);
}

#[test]
fn sbc_with_borrow() {
    let mut cpu = cpu_with(&[0xE9, 0xF0], &[]);
    cpu.set_registers(0x50, 0, 0, 0x25);
    cpu.step().unwrap();
    assert_eq!(cpu.a(), 0x60);
    assert_eq!(cpu.status() & 0x01, 0, "C");
    assert_eq!(cpu.status() & 0x40, 0, "V");
}

#[test]
fn page_cross_costs_one_cycle() {
    let mut cpu = cpu_with(&[0xBD, 0xFF, 0x80], &[(0x100, 0x42)]);
    cpu.set_registers(0, 0x01, 0, 0x24);
    assert_eq!(step_cost(&mut cpu), 5);
    assert_eq!(cpu.a(), 0x42);

    let mut cpu = cpu_with(&[0xBD, 0x00, 0x80], &[]);
    cpu.set_registers(0, 0x01, 0, 0x24);
    assert_eq!(step_cost(&mut cpu), 4);
    assert_eq!(cpu.a(), 0x00);
}

#[test]
fn store_absolute_x_pays_no_page_penalty() {
    let mut cpu = cpu_with(&[0x9D, 0xFF, 0x00], &[]);
    cpu.set_registers(0x99, 0x01, 0, 0x24);
    assert_eq!(step_cost(&mut cpu), 5);
    assert_eq!(cpu.read(0x0100), Ok(0x99));
}

#[test]
fn branch_costs() {
    // BNE not taken (Z set by LDA #0): 2 cycles.
    let mut cpu = cpu_with(&[0xA9, 0x00, 0xD0, 0x10], &[]);
    cpu.step().unwrap();
    assert_eq!(step_cost(&mut cpu), 2);
    assert_eq!(cpu.pc(), 0x8004);
    // BEQ taken, same page: 3 cycles.
    let mut cpu = cpu_with(&[0xA9, 0x00, 0xF0, 0x10], &[]);
    cpu.step().unwrap();
    assert_eq!(step_cost(&mut cpu), 3);
    assert_eq!(cpu.pc(), 0x8014);
    // BEQ taken backwards across a page: 4 cycles.
    let mut cpu = cpu_with(&[0xA9, 0x00, 0xF0, 0xF0], &[]);
    cpu.step().unwrap();
    assert_eq!(step_cost(&mut cpu), 4);
    assert_eq!(cpu.pc(), 0x7FF4);
}

#[test]
fn php_plp_keeps_observable_flags() {
    let mut cpu = cpu_with(&[0x08, 0x28], &[]);
    cpu.set_registers(0, 0, 0, 0xC3);
    cpu.step().unwrap();
    assert_eq!(cpu.read(0x01FD), Ok(0xF3));
    cpu.step().unwrap();
    assert_eq!(cpu.status() & 0xCF, 0xC3);
    assert_eq!(cpu.status() & 0x30, 0x20);
    assert_eq!(cpu.sp(), 0xFD);
}

#[test]
fn brk_then_rti() {
    // BRK at $8000; its handler at $8010 is RTI.
    let mut cpu = cpu_with(&[0x00, 0xEA], &[(0x10, 0x40), (0x3FFE, 0x10), (0x3FFF, 0x80)]);
    cpu.set_registers(0, 0, 0, 0xC1);
    assert_eq!(step_cost(&mut cpu), 7);
    assert_eq!(cpu.pc(), 0x8010);
    assert_eq!(cpu.status() & 0x04, 0x04);
    assert_eq!(cpu.read(0x01FB), Ok(0xF1));
    cpu.step().unwrap();
    assert_eq!(cpu.pc(), 0x8002);
    assert_eq!(cpu.status() & 0xCF, 0xC1);
    assert_eq!(cpu.status() & 0x30, 0x20);
    assert_eq!(cpu.sp(), 0xFD);
}

#[test]
fn pha_pla_round_trip() {
    let mut cpu = cpu_with(&[0xA9, 0x5A, 0x48, 0xA9, 0x00, 0x68], &[]);
    for _ in 0..4 {
        cpu.step().unwrap();
    }
    assert_eq!(cpu.a(), 0x5A);
    assert_eq!(cpu.sp(), 0xFD);
}

#[test]
fn jmp_indirect_page_wrap_bug() {
    // JMP ($80FF): low byte from $80FF, high byte from $8000 (the JMP opcode 0x6C).
    let mut cpu = cpu_with(&[0x6C, 0xFF, 0x80], &[(0xFF, 0x34), (0x100, 0x12)]);
    cpu.step().unwrap();
    assert_eq!(cpu.pc(), 0x6C34);
}

#[test]
fn zero_page_x_wraps_in_page_zero() {
    // LDX #$02; LDA #$77; STA $FF,X writes $0001.
    let mut cpu = cpu_with(&[0xA2, 0x02, 0xA9, 0x77, 0x95, 0xFF], &[]);
    for _ in 0..3 {
        cpu.step().unwrap();
    }
    assert_eq!(cpu.read(0x0001), Ok(0x77));
    assert_eq!(cpu.read(0x0101), Ok(0x00));
}

#[test]
fn compare_sets_carry_and_zero() {
    let mut cpu = cpu_with(&[0xC9, 0x10, 0xC9, 0x20, 0xC9, 0x30], &[]);
    cpu.set_registers(0x20, 0, 0, 0x24);
    cpu.step().unwrap();
    assert_eq!(cpu.status() & 0x83, 0x01);
    cpu.step().unwrap();
    assert_eq!(cpu.status() & 0x83, 0x03);
    cpu.step().unwrap();
    assert_eq!(cpu.status() & 0x83, 0x80);
}

#[test]
fn shifts_and_rotates() {
    // ASL A of 0x81 -> 0x02, C=1; ROL A -> 0x05, C=0; ROR A -> 0x02, C=1; LSR A -> 0x01, C=0.
    let mut cpu = cpu_with(&[0x0A, 0x2A, 0x6A, 0x4A], &[]);
    cpu.set_registers(0x81, 0, 0, 0x24);
    cpu.step().unwrap();
    assert_eq!((cpu.a(), cpu.status() & 1), (0x02, 1));
    cpu.step().unwrap();
    assert_eq!((cpu.a(), cpu.status() & 1), (0x05, 0));
    cpu.step().unwrap();
    assert_eq!((cpu.a(), cpu.status() & 1), (0x02, 1));
    cpu.step().unwrap();
    assert_eq!((cpu.a(), cpu.status() & 1), (0x01, 0));
}

#[test]
fn undocumented_read_modify_write() {
    // LDA #$05; STA $10; DCP $10 -> M=4, compare 5 with 4 sets C.
    let mut cpu = cpu_with(&[0xA9, 0x05, 0x85, 0x10, 0xC7, 0x10], &[]);
    for _ in 0..3 {
        cpu.step().unwrap();
    }
    assert_eq!(cpu.read(0x0010), Ok(0x04));
    assert_eq!(cpu.status() & 0x03, 0x01);

    // LAX $10 loads A and X; SAX $11 stores A & X.
    let mut cpu = cpu_with(&[0xA9, 0x3C, 0x85, 0x10, 0xA7, 0x10, 0x87, 0x11], &[]);
    for _ in 0..4 {
        cpu.step().unwrap();
    }
    assert_eq!((cpu.a(), cpu.x()), (0x3C, 0x3C));
    assert_eq!(cpu.read(0x0011), Ok(0x3C));

    // SLO $10 with M=0x81: M=0x02, C=1, A = 0x40 | 0x02.
    let mut cpu = cpu_with(&[0xA9, 0x81, 0x85, 0x10, 0xA9, 0x40, 0x07, 0x10], &[]);
    for _ in 0..4 {
        cpu.step().unwrap();
    }
    assert_eq!(cpu.read(0x0010), Ok(0x02));
    assert_eq!((cpu.a(), cpu.status() & 1), (0x42, 1));

    // ISB $10 with M=0x0F, A=0x20, C=1: M=0x10, A=0x10.
    let mut cpu = cpu_with(&[0xA9, 0x0F, 0x85, 0x10, 0xA9, 0x20, 0x38, 0xE7, 0x10], &[]);
    for _ in 0..5 {
        cpu.step().unwrap();
    }
    assert_eq!(cpu.read(0x0010), Ok(0x10));
    assert_eq!(cpu.a(), 0x10);
}

#[test]
fn illegal_opcode_is_reported() {
    let mut cpu = cpu_with(&[0x02], &[]);
    assert_eq!(cpu.step(), Err(NesError::IllegalOpcode(0x02)));
}

#[test]
fn write_to_rom_is_rejected() {
    let mut cpu = cpu_with(&[0x8D, 0x00, 0x80], &[]);
    assert_eq!(cpu.step(), Err(NesError::WriteToRom(0x8000)));
}

#[test]
fn unmapped_read_is_out_of_bounds() {
    let mut cpu = cpu_with(&[0xAD, 0x00, 0x50], &[]);
    assert_eq!(cpu.step(), Err(NesError::OutOfBounds(0x5000)));
}

#[test]
fn clock_runs_down_deferred_cycles() {
    let mut cpu = cpu_with(&[0xA9, 0x07], &[]);
    for _ in 0..6 {
        cpu.clock().unwrap();
        assert_eq!(cpu.a(), 0);
    }
    cpu.clock().unwrap();
    assert_eq!(cpu.a(), 0x07);
    assert_eq!(cpu.deferred_cycles(), 2);
    assert_eq!(cpu.cycles(), 7);
}

#[test]
fn nmi_pushes_and_jumps() {
    let mut cpu = cpu_with(&[], &[(0x3FFA, 0x00), (0x3FFB, 0x90)]);
    cpu.set_registers(0, 0, 0, 0x30);
    cpu.nmi().unwrap();
    assert_eq!(cpu.pc(), 0x9000);
    assert_eq!(cpu.sp(), 0xFA);
    assert_eq!(cpu.read(0x01FD), Ok(0x80));
    assert_eq!(cpu.read(0x01FC), Ok(0x00));
    assert_eq!(cpu.read(0x01FB), Ok(0x20));
    assert_eq!(cpu.status() & 0x04, 0x04);
}

#[test]
fn irq_is_masked_by_i() {
    let mut cpu = cpu_with(&[], &[(0x3FFE, 0x00), (0x3FFF, 0x90)]);
    cpu.irq().unwrap();
    assert_eq!(cpu.pc(), 0x8000);
    cpu.set_registers(0, 0, 0, 0x20);
    cpu.irq().unwrap();
    assert_eq!(cpu.pc(), 0x9000);
    assert_eq!(cpu.read(0x01FB), Ok(0x20));
}

#[test]
fn run_starts_at_c000() {
    // $C000 mirrors $8000 with a single 16 KiB bank. The seven reset cycles
    // run down first, then LDA #$42 executes.
    let mut cpu = cpu_with(&[0xA9, 0x42], &[]);
    cpu.run(6).unwrap();
    assert_eq!(cpu.a(), 0);
    let mut cpu = cpu_with(&[0xA9, 0x42], &[]);
    cpu.run(7).unwrap();
    assert_eq!(cpu.pc(), 0xC002);
    assert_eq!(cpu.a(), 0x42);
    assert_eq!(cpu.cycles(), 13);
}

#[test]
fn interrupt_priority() {
    let patches = [(0x3FFA, 0x00), (0x3FFB, 0x90), (0x3FFE, 0x00), (0x3FFF, 0xA0)];
    let mut cpu = cpu_with(&[], &patches);
    cpu.set_registers(0, 0, 0, 0x20);
    cpu.service_interrupts(true, true, true).unwrap();
    assert_eq!((cpu.pc(), cpu.status()), (0x8000, 0x24));
    cpu.set_registers(0, 0, 0, 0x20);
    cpu.service_interrupts(false, true, true).unwrap();
    assert_eq!(cpu.pc(), 0x9000);
    let mut cpu = cpu_with(&[], &patches);
    cpu.set_registers(0, 0, 0, 0x20);
    cpu.service_interrupts(false, false, true).unwrap();
    assert_eq!(cpu.pc(), 0xA000);
    cpu.service_interrupts(false, false, true).unwrap();
    assert_eq!(cpu.pc(), 0xA000);
    cpu.service_interrupts(false, false, false).unwrap();
    assert_eq!(cpu.pc(), 0xA000);
}

#[test]
fn ppu_on_the_cpu_bus() {
    let mut cpu = cpu_with(&[0xA9, 0x20, 0x8D, 0x06, 0x20, 0xA9, 0x00, 0x8D, 0x06, 0x20, 0xA9, 0x33, 0x8D, 0x07, 0x20], &[]);
    assert!(cpu.ppu().is_none());
    cpu.load_bus(rust_nes::ppu::PPU::new());
    for _ in 0..6 {
        cpu.step().unwrap();
    }
    let ppu = cpu.ppu().unwrap();
    assert_eq!(ppu.mem.ram[0], 0x33);
    assert_eq!(ppu.addr, 0x2001);
    let mut cpu = cpu_with(&[0xAD, 0x00, 0x20], &[]);
    cpu.load_bus(rust_nes::ppu::PPU::new());
    assert_eq!(cpu.step(), Err(NesError::InvalidRead(0x2000)));
}

#[test]
fn exec_charges_base_and_page_cross() {
    let mut cpu = cpu_with(&[0xBD, 0xFF, 0x80], &[(0x100, 0x42)]);
    cpu.set_registers(0, 0x01, 0, 0x24);
    cpu.set_pc(0x8001);
    let before = cpu.deferred_cycles();
    cpu.exec(&operation(0xBD).unwrap()).unwrap();
    assert_eq!(cpu.deferred_cycles() - before, 5);
    assert_eq!(cpu.a(), 0x42);
    assert_eq!(operation(0x02), Err(NesError::IllegalOpcode(0x02)));
}

#[test]
fn nmi_then_rti() {
    // NMI handler at $8010 is RTI.
    let mut cpu = cpu_with(&[0xEA], &[(0x10, 0x40), (0x3FFA, 0x10), (0x3FFB, 0x80)]);
    cpu.set_registers(0, 0, 0, 0xCB);
    cpu.nmi().unwrap();
    assert_eq!(cpu.read(0x01FB), Ok(0xEB));
    cpu.step().unwrap();
    assert_eq!(cpu.pc(), 0x8000);
    assert_eq!(cpu.status() & 0xCF, 0xCB);
    assert_eq!(cpu.status() & 0x30, 0x20);
    assert_eq!(cpu.sp(), 0xFD);
}
