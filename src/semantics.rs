//! The meaning of every instruction, as a function from the machine state
//! before it to the machine state after it (or the error that stops it).
use vstd::prelude::*;
use crate::error::NesError;
use crate::memory::{cpu_read, cpu_read_word, cpu_write, CpuMemView};
use crate::opcodes::{decode, AddressingModes, InstructionTypes, Operation};
use crate::register::{flag_mask, with_flag, Flags};
use crate::util::word;

verus! {

/// The CPU's registers, cycle counters and bus.
pub ghost struct CpuView {
    pub pc: u16,
    pub a: u8,
    pub x: u8,
    pub y: u8,
    pub sp: u8,
    pub p: u8,
    /// Cycles still owed by the instructions executed so far.
    pub defer: u64,
    /// Clock ticks seen.
    pub now: u64,
    pub mem: CpuMemView,
}

/// `r` and the state `after` are what `res` describes; on an error the
/// instruction stops and the state is left to the host to reset.
pub open spec fn outcome(res: Result<CpuView, NesError>, r: Result<(), NesError>, after: CpuView) -> bool {
    match res {
        Ok(c) => r is Ok && after == c,
        Err(e) => r == Err::<(), NesError>(e),
    }
}

// ---- bus access ----

pub open spec fn rd(c: CpuView, addr: u16) -> Result<(u8, CpuView), NesError> {
    match cpu_read(c.mem, addr) {
        Ok((v, m)) => Ok((v, CpuView { mem: m, ..c })),
        Err(e) => Err(e),
    }
}

pub open spec fn wr(c: CpuView, addr: u16, v: u8) -> Result<CpuView, NesError> {
    match cpu_write(c.mem, addr, v) {
        Ok(m) => Ok(CpuView { mem: m, ..c }),
        Err(e) => Err(e),
    }
}

pub open spec fn rd_word(c: CpuView, addr: u16) -> Result<(u16, CpuView), NesError> {
    match cpu_read_word(c.mem, addr) {
        Ok((v, m)) => Ok((v, CpuView { mem: m, ..c })),
        Err(e) => Err(e),
    }
}

/// The byte at PC; PC moves past it.
pub open spec fn fetch(c: CpuView) -> Result<(u8, CpuView), NesError> {
    match rd(c, c.pc) {
        Ok((v, c1)) => Ok((v, CpuView { pc: c.pc.wrapping_add(1), ..c1 })),
        Err(e) => Err(e),
    }
}

/// The little-endian word at PC; PC moves past it.
pub open spec fn fetch_word(c: CpuView) -> Result<(u16, CpuView), NesError> {
    match fetch(c) {
        Ok((lo, c1)) => match fetch(c1) {
            Ok((hi, c2)) => Ok((word(lo, hi), c2)),
            Err(e) => Err(e),
        },
        Err(e) => Err(e),
    }
}

// ---- stack: page one of RAM, SP post-decrement on push, pre-increment on pop ----

pub open spec fn push(c: CpuView, v: u8) -> CpuView {
    CpuView {
        mem: CpuMemView { ram: c.mem.ram.update(0x100 + c.sp, v), ..c.mem },
        sp: c.sp.wrapping_sub(1),
        ..c
    }
}

pub open spec fn pop(c: CpuView) -> (u8, CpuView) {
    let sp = c.sp.wrapping_add(1);
    (c.mem.ram[0x100 + sp], CpuView { sp, ..c })
}

/// High byte first, so that the low byte ends up at the lower address.
pub open spec fn push_word(c: CpuView, v: u16) -> CpuView {
    push(push(c, (v / 256) as u8), (v % 256) as u8)
}

pub open spec fn pop_word(c: CpuView) -> (u16, CpuView) {
    let (lo, c1) = pop(c);
    let (hi, c2) = pop(c1);
    (word(lo, hi), c2)
}

// ---- flags and arithmetic ----

/// Z from `v == 0`, N from bit 7 of `v`.
pub open spec fn zn(p: u8, v: u8) -> u8 {
    with_flag(with_flag(p, flag_mask(Flags::Z), v == 0), flag_mask(Flags::N), v & 0x80 != 0)
}

pub open spec fn carry_in(p: u8) -> u8 {
    if p & flag_mask(Flags::C) != 0 { 1 } else { 0 }
}

/// A + M + C: the 8-bit result and the flags. C is the carry out of bit 7;
/// V is set when both operands' signs differ from the result's.
pub open spec fn adc_op(p: u8, a: u8, m: u8) -> (u8, u8) {
    let sum = a as int + m as int + carry_in(p) as int;
    let res = (sum % 256) as u8;
    let p1 = with_flag(p, flag_mask(Flags::C), sum > 0xFF);
    let p2 = with_flag(p1, flag_mask(Flags::V), (a ^ res) & (m ^ res) & 0x80 != 0);
    (res, zn(p2, res))
}

pub open spec fn do_adc(c: CpuView, m: u8) -> CpuView {
    CpuView { a: adc_op(c.p, c.a, m).0, p: adc_op(c.p, c.a, m).1, ..c }
}

/// SBC is ADC of the operand's complement; C ends up as "no borrow".
pub open spec fn do_sbc(c: CpuView, m: u8) -> CpuView {
    do_adc(c, m ^ 0xFF)
}

/// R - M: C when R >= M; Z and N from the low byte of the difference.
pub open spec fn compare_p(p: u8, r: u8, m: u8) -> u8 {
    zn(with_flag(p, flag_mask(Flags::C), r >= m), r.wrapping_sub(m))
}

/// A shift or rotate of `v` with carry in `cin` (0 or 1): the result and the carry out.
pub open spec fn shift_op(t: InstructionTypes, v: u8, cin: u8) -> (u8, bool) {
    match t {
        InstructionTypes::ASL => (((v as int * 2) % 256) as u8, v >= 128),
        InstructionTypes::ROL => (((v as int * 2) % 256 + cin) as u8, v >= 128),
        InstructionTypes::ROR => ((v / 2 + cin as int * 128) as u8, v % 2 == 1),
        _ => (v / 2, v % 2 == 1),
    }
}

// ---- addressing ----

pub open spec fn page_crossed(a: u16, b: u16) -> bool {
    a / 256 != b / 256
}

/// The pointer at `p`: the high byte comes from the same page as `p` (the
/// 6502's page-wrap bug of JMP indirect).
pub open spec fn same_page_next(p: u16) -> u16 {
    (p & 0xFF00) | (p.wrapping_add(1) & 0x00FF)
}

/// The effective address of the operand, whether its computation crossed a
/// page, and the state after the operand bytes were consumed.
pub open spec fn operand_addr(c: CpuView, mode: AddressingModes) -> Result<(u16, bool, CpuView), NesError> {
    match mode {
        AddressingModes::Immediate | AddressingModes::Relative => Ok(
            (c.pc, false, CpuView { pc: c.pc.wrapping_add(1), ..c }),
        ),
        AddressingModes::ZeroPage => match fetch(c) {
            Ok((b, c1)) => Ok((b as u16, false, c1)),
            Err(e) => Err(e),
        },
        AddressingModes::ZeroPageX => match fetch(c) {
            Ok((b, c1)) => Ok((b.wrapping_add(c1.x) as u16, false, c1)),
            Err(e) => Err(e),
        },
        AddressingModes::ZeroPageY => match fetch(c) {
            Ok((b, c1)) => Ok((b.wrapping_add(c1.y) as u16, false, c1)),
            Err(e) => Err(e),
        },
        AddressingModes::Absolute => match fetch_word(c) {
            Ok((w, c1)) => Ok((w, false, c1)),
            Err(e) => Err(e),
        },
        AddressingModes::AbsoluteX => match fetch_word(c) {
            Ok((w, c1)) => Ok(
                (w.wrapping_add(c1.x as u16), page_crossed(w, w.wrapping_add(c1.x as u16)), c1),
            ),
            Err(e) => Err(e),
        },
        AddressingModes::AbsoluteY => match fetch_word(c) {
            Ok((w, c1)) => Ok(
                (w.wrapping_add(c1.y as u16), page_crossed(w, w.wrapping_add(c1.y as u16)), c1),
            ),
            Err(e) => Err(e),
        },
        AddressingModes::Indirect => match fetch_word(c) {
            Ok((ptr, c1)) => match rd(c1, ptr) {
                Ok((lo, c2)) => match rd(c2, same_page_next(ptr)) {
                    Ok((hi, c3)) => Ok((word(lo, hi), false, c3)),
                    Err(e) => Err(e),
                },
                Err(e) => Err(e),
            },
            Err(e) => Err(e),
        },
        AddressingModes::IndirectX => match fetch(c) {
            Ok((b, c1)) => match rd(c1, b.wrapping_add(c1.x) as u16) {
                Ok((lo, c2)) => match rd(c2, b.wrapping_add(c1.x).wrapping_add(1) as u16) {
                    Ok((hi, c3)) => Ok((word(lo, hi), false, c3)),
                    Err(e) => Err(e),
                },
                Err(e) => Err(e),
            },
            Err(e) => Err(e),
        },
        AddressingModes::IndirectY => match fetch(c) {
            Ok((b, c1)) => match rd(c1, b as u16) {
                Ok((lo, c2)) => match rd(c2, b.wrapping_add(1) as u16) {
                    Ok((hi, c3)) => Ok(
                        (
                            word(lo, hi).wrapping_add(c3.y as u16),
                            page_crossed(word(lo, hi), word(lo, hi).wrapping_add(c3.y as u16)),
                            c3,
                        ),
                    ),
                    Err(e) => Err(e),
                },
                Err(e) => Err(e),
            },
            Err(e) => Err(e),
        },
        _ => Ok((0, false, c)),
    }
}

/// One extra cycle when an indexed read crosses a page, for the opcodes whose
/// base cost assumes it does not (base cost at most 4, or 5 for `(ind),Y`).
pub open spec fn page_penalty(op: Operation, crossed: bool) -> u64 {
    if crossed && match op.addressing_mode {
        AddressingModes::AbsoluteX | AddressingModes::AbsoluteY => op.cycle <= 4,
        AddressingModes::IndirectY => op.cycle <= 5,
        _ => false,
    } {
        1
    } else {
        0
    }
}

/// The operand's address, with the page-cross penalty charged.
pub open spec fn get_addr_spec(c: CpuView, op: Operation) -> Result<(u16, CpuView), NesError> {
    match operand_addr(c, op.addressing_mode) {
        Ok((a, crossed, c1)) => Ok(
            (a, CpuView { defer: c1.defer.wrapping_add(page_penalty(op, crossed)), ..c1 }),
        ),
        Err(e) => Err(e),
    }
}

/// The operand's value: A for accumulator mode, nothing for implied modes,
/// else the byte at the operand's address.
pub open spec fn get_data_spec(c: CpuView, op: Operation) -> Result<(u8, CpuView), NesError> {
    match op.addressing_mode {
        AddressingModes::Accumulator => Ok((c.a, c)),
        AddressingModes::Implicit | AddressingModes::Empty => Ok((0, c)),
        _ => match get_addr_spec(c, op) {
            Ok((a, c1)) => rd(c1, a),
            Err(e) => Err(e),
        },
    }
}

/// The operand's address and the byte there, for read-modify-write instructions.
pub open spec fn modify_spec(c: CpuView, op: Operation) -> Result<(u16, u8, CpuView), NesError> {
    match get_addr_spec(c, op) {
        Ok((a, c1)) => match rd(c1, a) {
            Ok((v, c2)) => Ok((a, v, c2)),
            Err(e) => Err(e),
        },
        Err(e) => Err(e),
    }
}

// ---- instruction groups ----

pub open spec fn load_spec(c: CpuView, op: Operation) -> Result<CpuView, NesError> {
    match get_data_spec(c, op) {
        Ok((v, c1)) => Ok(
            match op.instruction_type {
                InstructionTypes::LDX => CpuView { x: v, p: zn(c1.p, v), ..c1 },
                InstructionTypes::LDY => CpuView { y: v, p: zn(c1.p, v), ..c1 },
                InstructionTypes::LAX => CpuView { a: v, x: v, p: zn(c1.p, v), ..c1 },
                _ => CpuView { a: v, p: zn(c1.p, v), ..c1 },
            },
        ),
        Err(e) => Err(e),
    }
}

/// What STA, STX, STY and SAX store.
pub open spec fn store_value(c: CpuView, t: InstructionTypes) -> u8 {
    match t {
        InstructionTypes::STX => c.x,
        InstructionTypes::STY => c.y,
        InstructionTypes::SAX => c.a & c.x,
        _ => c.a,
    }
}

pub open spec fn store_spec(c: CpuView, op: Operation) -> Result<CpuView, NesError> {
    match get_addr_spec(c, op) {
        Ok((a, c1)) => wr(c1, a, store_value(c1, op.instruction_type)),
        Err(e) => Err(e),
    }
}

/// AND, ORA, EOR, ADC, SBC, CMP, CPX, CPY and BIT: combine the operand with a register.
pub open spec fn alu(c: CpuView, t: InstructionTypes, m: u8) -> CpuView {
    match t {
        InstructionTypes::AND => CpuView { a: c.a & m, p: zn(c.p, c.a & m), ..c },
        InstructionTypes::ORA => CpuView { a: c.a | m, p: zn(c.p, c.a | m), ..c },
        InstructionTypes::EOR => CpuView { a: c.a ^ m, p: zn(c.p, c.a ^ m), ..c },
        InstructionTypes::ADC => do_adc(c, m),
        InstructionTypes::SBC => do_sbc(c, m),
        InstructionTypes::CPX => CpuView { p: compare_p(c.p, c.x, m), ..c },
        InstructionTypes::CPY => CpuView { p: compare_p(c.p, c.y, m), ..c },
        InstructionTypes::BIT => CpuView {
            p: with_flag(
                with_flag(
                    with_flag(c.p, flag_mask(Flags::Z), c.a & m == 0),
                    flag_mask(Flags::N),
                    m & 0x80 != 0,
                ),
                flag_mask(Flags::V),
                m & 0x40 != 0,
            ),
            ..c
        },
        _ => CpuView { p: compare_p(c.p, c.a, m), ..c },
    }
}

pub open spec fn alu_spec(c: CpuView, op: Operation) -> Result<CpuView, NesError> {
    match get_data_spec(c, op) {
        Ok((m, c1)) => Ok(alu(c1, op.instruction_type, m)),
        Err(e) => Err(e),
    }
}

/// ASL, LSR, ROL and ROR, on A or on memory.
pub open spec fn shift_spec(c: CpuView, op: Operation) -> Result<CpuView, NesError> {
    if op.addressing_mode == AddressingModes::Accumulator {
        let (res, cout) = shift_op(op.instruction_type, c.a, carry_in(c.p));
        Ok(CpuView { a: res, p: with_flag(zn(c.p, res), flag_mask(Flags::C), cout), ..c })
    } else {
        match modify_spec(c, op) {
            Ok((a, v, c1)) => {
                let (res, cout) = shift_op(op.instruction_type, v, carry_in(c1.p));
                wr(
                    CpuView { p: with_flag(zn(c1.p, res), flag_mask(Flags::C), cout), ..c1 },
                    a,
                    res,
                )
            },
            Err(e) => Err(e),
        }
    }
}

/// INC and DEC.
pub open spec fn step_mem_spec(c: CpuView, op: Operation) -> Result<CpuView, NesError> {
    match modify_spec(c, op) {
        Ok((a, v, c1)) => {
            let res = if op.instruction_type == InstructionTypes::INC {
                v.wrapping_add(1)
            } else {
                v.wrapping_sub(1)
            };
            wr(CpuView { p: zn(c1.p, res), ..c1 }, a, res)
        },
        Err(e) => Err(e),
    }
}

/// The undocumented read-modify-write combinations: the memory step, then an
/// ALU step with the new memory value.
pub open spec fn combo_spec(c: CpuView, op: Operation) -> Result<CpuView, NesError> {
    match modify_spec(c, op) {
        Ok((a, v, c1)) => match op.instruction_type {
            InstructionTypes::DCP => match wr(c1, a, v.wrapping_sub(1)) {
                Ok(c2) => Ok(alu(c2, InstructionTypes::CMP, v.wrapping_sub(1))),
                Err(e) => Err(e),
            },
            InstructionTypes::ISB => match wr(c1, a, v.wrapping_add(1)) {
                Ok(c2) => Ok(do_sbc(c2, v.wrapping_add(1))),
                Err(e) => Err(e),
            },
            _ => {
                let shift = match op.instruction_type {
                    InstructionTypes::SLO => InstructionTypes::ASL,
                    InstructionTypes::RLA => InstructionTypes::ROL,
                    InstructionTypes::SRE => InstructionTypes::LSR,
                    _ => InstructionTypes::ROR,
                };
                let (res, cout) = shift_op(shift, v, carry_in(c1.p));
                let c2 = CpuView { p: with_flag(c1.p, flag_mask(Flags::C), cout), ..c1 };
                match wr(c2, a, res) {
                    Ok(c3) => Ok(
                        match op.instruction_type {
                            InstructionTypes::SLO => alu(c3, InstructionTypes::ORA, res),
                            InstructionTypes::RLA => alu(c3, InstructionTypes::AND, res),
                            InstructionTypes::SRE => alu(c3, InstructionTypes::EOR, res),
                            _ => do_adc(c3, res),
                        },
                    ),
                    Err(e) => Err(e),
                }
            },
        },
        Err(e) => Err(e),
    }
}

/// The flag a conditional branch tests, and the value on which it is taken.
pub open spec fn branch_cond(t: InstructionTypes) -> (Flags, bool) {
    match t {
        InstructionTypes::BCC => (Flags::C, false),
        InstructionTypes::BCS => (Flags::C, true),
        InstructionTypes::BEQ => (Flags::Z, true),
        InstructionTypes::BNE => (Flags::Z, false),
        InstructionTypes::BMI => (Flags::N, true),
        InstructionTypes::BPL => (Flags::N, false),
        InstructionTypes::BVC => (Flags::V, false),
        _ => (Flags::V, true),
    }
}

/// PC plus the signed 8-bit offset, modulo 2^16.
pub open spec fn branch_target(pc: u16, off: u8) -> u16 {
    ((pc as int + off as int + if off >= 128 { 0xFF00int } else { 0 }) % 0x10000) as u16
}

/// A taken branch costs one more cycle, and one more again when it lands on another page.
pub open spec fn branch_spec(c: CpuView, op: Operation) -> Result<CpuView, NesError> {
    match get_data_spec(c, op) {
        Ok((off, c1)) => {
            let (f, on) = branch_cond(op.instruction_type);
            if (c1.p & flag_mask(f) != 0) == on {
                let t = branch_target(c1.pc, off);
                let d = c1.defer.wrapping_add(1);
                Ok(
                    CpuView {
                        pc: t,
                        defer: if page_crossed(c1.pc, t) { d.wrapping_add(1) } else { d },
                        ..c1
                    },
                )
            } else {
                Ok(c1)
            }
        },
        Err(e) => Err(e),
    }
}

/// The status byte as PLP and RTI put it back: U forced to 1, B to 0.
pub open spec fn pulled_status(v: u8) -> u8 {
    (v | 0x20) & 0xEF
}

/// The instructions without an operand in memory: transfers, flag changes,
/// register steps and the stack.
pub open spec fn implied_spec(c: CpuView, t: InstructionTypes) -> CpuView {
    match t {
        InstructionTypes::TAX => CpuView { x: c.a, p: zn(c.p, c.a), ..c },
        InstructionTypes::TAY => CpuView { y: c.a, p: zn(c.p, c.a), ..c },
        InstructionTypes::TXA => CpuView { a: c.x, p: zn(c.p, c.x), ..c },
        InstructionTypes::TYA => CpuView { a: c.y, p: zn(c.p, c.y), ..c },
        InstructionTypes::TSX => CpuView { x: c.sp, p: zn(c.p, c.sp), ..c },
        InstructionTypes::TXS => CpuView { sp: c.x, ..c },
        InstructionTypes::INX => CpuView { x: c.x.wrapping_add(1), p: zn(c.p, c.x.wrapping_add(1)), ..c },
        InstructionTypes::INY => CpuView { y: c.y.wrapping_add(1), p: zn(c.p, c.y.wrapping_add(1)), ..c },
        InstructionTypes::DEX => CpuView { x: c.x.wrapping_sub(1), p: zn(c.p, c.x.wrapping_sub(1)), ..c },
        InstructionTypes::DEY => CpuView { y: c.y.wrapping_sub(1), p: zn(c.p, c.y.wrapping_sub(1)), ..c },
        InstructionTypes::CLC => CpuView { p: with_flag(c.p, flag_mask(Flags::C), false), ..c },
        InstructionTypes::SEC => CpuView { p: with_flag(c.p, flag_mask(Flags::C), true), ..c },
        InstructionTypes::CLI => CpuView { p: with_flag(c.p, flag_mask(Flags::I), false), ..c },
        InstructionTypes::SEI => CpuView { p: with_flag(c.p, flag_mask(Flags::I), true), ..c },
        InstructionTypes::CLD => CpuView { p: with_flag(c.p, flag_mask(Flags::D), false), ..c },
        InstructionTypes::SED => CpuView { p: with_flag(c.p, flag_mask(Flags::D), true), ..c },
        InstructionTypes::CLV => CpuView { p: with_flag(c.p, flag_mask(Flags::V), false), ..c },
        InstructionTypes::PHA => push(c, c.a),
        InstructionTypes::PHP => push(c, c.p | 0x30),
        InstructionTypes::PLA => CpuView { a: pop(c).0, p: zn(c.p, pop(c).0), ..pop(c).1 },
        InstructionTypes::PLP => CpuView { p: pulled_status(pop(c).0), ..pop(c).1 },
        InstructionTypes::RTS => CpuView { pc: pop_word(c).0.wrapping_add(1), ..pop_word(c).1 },
        _ => {
            // RTI
            let (v, c1) = pop(c);
            let (pc, c2) = pop_word(CpuView { p: pulled_status(v), ..c1 });
            CpuView { pc, ..c2 }
        },
    }
}

/// JMP, JSR (pushes the address of its own last byte) and BRK (pushes PC+1
/// and P with B and U set, sets I, and jumps through `$FFFE`).
pub open spec fn jump_spec(c: CpuView, op: Operation) -> Result<CpuView, NesError> {
    match op.instruction_type {
        InstructionTypes::JMP => match get_addr_spec(c, op) {
            Ok((a, c1)) => Ok(CpuView { pc: a, ..c1 }),
            Err(e) => Err(e),
        },
        InstructionTypes::JSR => match get_addr_spec(c, op) {
            Ok((a, c1)) => Ok(CpuView { pc: a, ..push_word(c1, c1.pc.wrapping_sub(1)) }),
            Err(e) => Err(e),
        },
        _ => {
            let c1 = push_word(c, c.pc.wrapping_add(1));
            let c2 = push(c1, c1.p | 0x30);
            let c3 = CpuView { p: c2.p | flag_mask(Flags::I), ..c2 };
            match rd_word(c3, 0xFFFE) {
                Ok((t, c4)) => Ok(CpuView { pc: t, ..c4 }),
                Err(e) => Err(e),
            }
        },
    }
}

pub open spec fn is_load(t: InstructionTypes) -> bool {
    t == InstructionTypes::LDA || t == InstructionTypes::LDX || t == InstructionTypes::LDY || t
        == InstructionTypes::LAX
}

pub open spec fn is_store(t: InstructionTypes) -> bool {
    t == InstructionTypes::STA || t == InstructionTypes::STX || t == InstructionTypes::STY || t
        == InstructionTypes::SAX
}

pub open spec fn is_alu(t: InstructionTypes) -> bool {
    t == InstructionTypes::AND || t == InstructionTypes::ORA || t == InstructionTypes::EOR || t
        == InstructionTypes::ADC || t == InstructionTypes::SBC || t == InstructionTypes::CMP || t
        == InstructionTypes::CPX || t == InstructionTypes::CPY || t == InstructionTypes::BIT
}

pub open spec fn is_shift(t: InstructionTypes) -> bool {
    t == InstructionTypes::ASL || t == InstructionTypes::LSR || t == InstructionTypes::ROL || t
        == InstructionTypes::ROR
}

pub open spec fn is_combo(t: InstructionTypes) -> bool {
    t == InstructionTypes::DCP || t == InstructionTypes::ISB || t == InstructionTypes::SLO || t
        == InstructionTypes::RLA || t == InstructionTypes::SRE || t == InstructionTypes::RRA
}

pub open spec fn is_branch(t: InstructionTypes) -> bool {
    t == InstructionTypes::BCC || t == InstructionTypes::BCS || t == InstructionTypes::BEQ || t
        == InstructionTypes::BNE || t == InstructionTypes::BMI || t == InstructionTypes::BPL || t
        == InstructionTypes::BVC || t == InstructionTypes::BVS
}

pub open spec fn is_jump(t: InstructionTypes) -> bool {
    t == InstructionTypes::JMP || t == InstructionTypes::JSR || t == InstructionTypes::BRK
}

/// One instruction, whose opcode has been fetched and whose base cost has
/// been charged.
pub open spec fn exec_spec(c: CpuView, op: Operation) -> Result<CpuView, NesError> {
    let t = op.instruction_type;
    if is_load(t) {
        load_spec(c, op)
    } else if is_store(t) {
        store_spec(c, op)
    } else if is_alu(t) {
        alu_spec(c, op)
    } else if is_shift(t) {
        shift_spec(c, op)
    } else if t == InstructionTypes::INC || t == InstructionTypes::DEC {
        step_mem_spec(c, op)
    } else if is_combo(t) {
        combo_spec(c, op)
    } else if is_branch(t) {
        branch_spec(c, op)
    } else if is_jump(t) {
        jump_spec(c, op)
    } else if t == InstructionTypes::NOP {
        match get_data_spec(c, op) {
            Ok((_, c1)) => Ok(c1),
            Err(e) => Err(e),
        }
    } else {
        Ok(implied_spec(c, t))
    }
}

/// Fetch, decode and execute the instruction at PC.
#[verifier::opaque]
pub open spec fn step_spec(c: CpuView) -> Result<CpuView, NesError> {
    match fetch(c) {
        Ok((opc, c1)) => match decode(opc) {
            Some(op) => exec_spec(CpuView { defer: c1.defer.wrapping_add(op.cycle as u64), ..c1 }, op),
            None => Err(NesError::IllegalOpcode(opc)),
        },
        Err(e) => Err(e),
    }
}

/// NMI and IRQ: push PC, push P with U set and B clear, set I, jump through
/// the vector; seven cycles.
pub open spec fn interrupt_spec(c: CpuView, vector: u16) -> Result<CpuView, NesError> {
    let c1 = push_word(c, c.pc);
    let c2 = push(c1, (c1.p | 0x20) & 0xEF);
    let c3 = CpuView { p: c2.p | flag_mask(Flags::I), ..c2 };
    match rd_word(c3, vector) {
        Ok((t, c4)) => Ok(CpuView { pc: t, defer: c4.defer.wrapping_add(7), ..c4 }),
        Err(e) => Err(e),
    }
}

/// A=X=Y=0, SP=$FD, P=$24, PC from `$FFFC`; seven cycles.
pub open spec fn reset_spec(c: CpuView) -> Result<CpuView, NesError> {
    let c1 = CpuView { a: 0, x: 0, y: 0, sp: 0xFD, p: 0x24, ..c };
    match rd_word(c1, 0xFFFC) {
        Ok((t, c2)) => Ok(CpuView { pc: t, defer: c2.defer.wrapping_add(7), ..c2 }),
        Err(e) => Err(e),
    }
}

// ---- laws ----

/// Pushing a byte and popping right after gives the byte back and restores SP.
pub proof fn lemma_push_pop(c: CpuView, v: u8)
    requires
        c.mem.wf(),
    ensures
        pop(push(c, v)).0 == v,
        pop(push(c, v)).1.sp == c.sp,
        pop(push(c, v)).1.mem.ram.len() == c.mem.ram.len(),
{
}

/// Pushing a word and popping a word right after gives the word back and restores SP.
pub proof fn lemma_push_pop_word(c: CpuView, v: u16)
    requires
        c.mem.wf(),
    ensures
        pop_word(push_word(c, v)).0 == v,
        pop_word(push_word(c, v)).1.sp == c.sp,
{
    let c1 = push(c, (v / 256) as u8);
    let c2 = push(c1, (v % 256) as u8);
    assert(c2.mem.ram[0x100 + c.sp] == (v / 256) as u8);
    assert(c2.mem.ram[0x100 + c.sp.wrapping_sub(1)] == (v % 256) as u8);
}

/// The flags a program can observe: C, Z, I, D, V and N.
pub open spec fn observable_flags(p: u8) -> u8 {
    p & 0xCF
}

/// PHP then PLP gives back the flags C, Z, I, D, V and N, with U set and B clear.
pub proof fn lemma_php_plp(c: CpuView)
    requires
        c.mem.wf(),
    ensures
        observable_flags(
            implied_spec(implied_spec(c, InstructionTypes::PHP), InstructionTypes::PLP).p,
        ) == observable_flags(c.p),
        implied_spec(implied_spec(c, InstructionTypes::PHP), InstructionTypes::PLP).p & 0x30
            == 0x20,
        implied_spec(implied_spec(c, InstructionTypes::PHP), InstructionTypes::PLP).sp == c.sp,
{
    lemma_push_pop(c, c.p | 0x30);
    let p = c.p;
    assert(((((p | 0x30) | 0x20) & 0xEF) & 0xCF) == p & 0xCF && ((((p | 0x30) | 0x20) & 0xEF)
        & 0x30) == 0x20) by (bit_vector);
}

/// BRK then RTI returns past BRK's padding byte with the flags C, Z, I, D,
/// V and N as they were, U set and B clear.
pub proof fn lemma_brk_rti(c: CpuView, op: Operation)
    requires
        c.mem.wf(),
        op.instruction_type == InstructionTypes::BRK,
        jump_spec(c, op) is Ok,
    ensures
        ({
            let after = implied_spec(jump_spec(c, op)->Ok_0, InstructionTypes::RTI);
            &&& observable_flags(after.p) == observable_flags(c.p)
            &&& after.p & 0x30 == 0x20
            &&& after.pc == c.pc.wrapping_add(1)
            &&& after.sp == c.sp
        }),
{
    let c1 = push_word(c, c.pc.wrapping_add(1));
    let c2 = push(c1, c1.p | 0x30);
    let c3 = CpuView { p: c2.p | flag_mask(Flags::I), ..c2 };
    let (t, c4) = rd_word(c3, 0xFFFE)->Ok_0;
    assert(c4.mem.ram == c3.mem.ram);
    lemma_push_pop(c1, c1.p | 0x30);
    lemma_push_pop_word(c, c.pc.wrapping_add(1));
    let p = c.p;
    assert(((((p | 0x30) | 0x20) & 0xEF) & 0xCF) == p & 0xCF && ((((p | 0x30) | 0x20) & 0xEF)
        & 0x30) == 0x20) by (bit_vector);
}

/// An NMI or IRQ entry followed by RTI returns to the interrupted PC with the
/// flags C, Z, I, D, V and N as they were, U set and B clear, and SP restored.
pub proof fn lemma_interrupt_rti(c: CpuView, vector: u16)
    requires
        c.mem.wf(),
        interrupt_spec(c, vector) is Ok,
    ensures
        ({
            let after = implied_spec(interrupt_spec(c, vector)->Ok_0, InstructionTypes::RTI);
            &&& observable_flags(after.p) == observable_flags(c.p)
            &&& after.p & 0x30 == 0x20
            &&& after.pc == c.pc
            &&& after.sp == c.sp
        }),
{
    let c1 = push_word(c, c.pc);
    let c2 = push(c1, (c1.p | 0x20) & 0xEF);
    let c3 = CpuView { p: c2.p | flag_mask(Flags::I), ..c2 };
    let (t, c4) = rd_word(c3, vector)->Ok_0;
    assert(c4.mem.ram == c3.mem.ram);
    lemma_push_pop(c1, (c1.p | 0x20) & 0xEF);
    lemma_push_pop_word(c, c.pc);
    let p = c.p;
    assert(((((((p | 0x20) & 0xEF) | 0x20) & 0xEF) & 0xCF) == p & 0xCF) && ((((((p | 0x20)
        & 0xEF) | 0x20) & 0xEF) & 0x30) == 0x20)) by (bit_vector);
}

/// Whether the operand address of `op` was computed across a page boundary.
pub open spec fn crossed_page(c: CpuView, op: Operation) -> bool {
    match operand_addr(c, op.addressing_mode) {
        Ok((_, crossed, _)) => crossed,
        Err(_) => false,
    }
}

/// The instructions that compute an operand address (the others are implied
/// or stack instructions, and BRK).
pub open spec fn addresses_operand(t: InstructionTypes) -> bool {
    is_load(t) || is_store(t) || is_alu(t) || is_shift(t) || t == InstructionTypes::INC || t
        == InstructionTypes::DEC || is_combo(t) || is_branch(t) || t == InstructionTypes::JMP || t
        == InstructionTypes::JSR || t == InstructionTypes::NOP
}

/// The extra cycle that an indexed read pays when its address crosses a page.
pub open spec fn page_cross_cost(c: CpuView, op: Operation) -> int {
    if addresses_operand(op.instruction_type) {
        page_penalty(op, crossed_page(c, op)) as int
    } else {
        0
    }
}

/// A taken branch costs one cycle, two when it lands on another page.
pub open spec fn branch_cost(c: CpuView, op: Operation) -> int {
    if is_branch(op.instruction_type) {
        match get_data_spec(c, op) {
            Ok((off, c1)) => {
                let (f, on) = branch_cond(op.instruction_type);
                if (c1.p & flag_mask(f) != 0) != on {
                    0
                } else if page_crossed(c1.pc, branch_target(c1.pc, off)) {
                    2
                } else {
                    1
                }
            },
            Err(_) => 0,
        }
    } else {
        0
    }
}

/// The state once the base cost of `op` is charged.
pub open spec fn charged(c: CpuView, op: Operation) -> CpuView {
    CpuView { defer: c.defer.wrapping_add(op.cycle as u64), ..c }
}

/// The deferred count after `op` when its operand costs what `crossed_page` says.
pub open spec fn after_operand(d: CpuView, op: Operation) -> u64 {
    d.defer.wrapping_add(page_penalty(op, crossed_page(d, op)))
}

proof fn lemma_operand_addr_ignores_defer(c: CpuView, d: CpuView, mode: AddressingModes)
    requires
        d == (CpuView { defer: d.defer, ..c }),
    ensures
        match (operand_addr(c, mode), operand_addr(d, mode)) {
            (Ok((a1, x1, c1)), Ok((a2, x2, c2))) => a1 == a2 && x1 == x2 && c2 == (CpuView {
                defer: d.defer,
                ..c1
            }) && c1.defer == c.defer,
            (Err(e1), Err(e2)) => e1 == e2,
            _ => false,
        },
{
}

proof fn lemma_get_data_ignores_defer(c: CpuView, d: CpuView, op: Operation)
    requires
        d == (CpuView { defer: d.defer, ..c }),
    ensures
        match (get_data_spec(c, op), get_data_spec(d, op)) {
            (Ok((v1, c1)), Ok((v2, c2))) => v1 == v2 && c1.pc == c2.pc && c1.p == c2.p,
            (Err(e1), Err(e2)) => e1 == e2,
            _ => false,
        },
{
    lemma_operand_addr_ignores_defer(c, d, op.addressing_mode);
}

proof fn lemma_operand_defer(d: CpuView, op: Operation)
    ensures
        get_addr_spec(d, op) matches Ok((_, d1)) ==> d1.defer == after_operand(d, op),
        get_data_spec(d, op) matches Ok((_, d1)) ==> d1.defer == if op.addressing_mode
            == AddressingModes::Accumulator || op.addressing_mode == AddressingModes::Implicit
            || op.addressing_mode == AddressingModes::Empty {
            d.defer
        } else {
            after_operand(d, op)
        },
        modify_spec(d, op) matches Ok((_, _, d1)) ==> d1.defer == after_operand(d, op),
        op.addressing_mode == AddressingModes::Accumulator || op.addressing_mode
            == AddressingModes::Implicit || op.addressing_mode == AddressingModes::Empty
            ==> after_operand(d, op) == d.defer,
{
}

proof fn lemma_group_defer(d: CpuView, op: Operation)
    requires
        addresses_operand(op.instruction_type),
        !is_branch(op.instruction_type),
    ensures
        exec_spec(d, op) matches Ok(c2) ==> c2.defer == after_operand(d, op),
{
    lemma_operand_defer(d, op);
    let t = op.instruction_type;
    if is_load(t) {
        assert(exec_spec(d, op) == load_spec(d, op));
    } else if is_store(t) {
        assert(exec_spec(d, op) == store_spec(d, op));
    } else if is_alu(t) {
        assert(exec_spec(d, op) == alu_spec(d, op));
    } else if is_shift(t) {
        assert(exec_spec(d, op) == shift_spec(d, op));
    } else if t == InstructionTypes::INC || t == InstructionTypes::DEC {
        assert(exec_spec(d, op) == step_mem_spec(d, op));
    } else if is_combo(t) {
        assert(exec_spec(d, op) == combo_spec(d, op));
    } else if t == InstructionTypes::JMP || t == InstructionTypes::JSR {
        assert(exec_spec(d, op) == jump_spec(d, op));
    } else {
    }
}

proof fn lemma_branch_defer(c: CpuView, op: Operation)
    requires
        is_branch(op.instruction_type),
    ensures
        exec_spec(charged(c, op), op) matches Ok(c2) ==> c2.defer == if branch_cost(c, op) == 0 {
            after_operand(charged(c, op), op)
        } else if branch_cost(c, op) == 1 {
            after_operand(charged(c, op), op).wrapping_add(1)
        } else {
            after_operand(charged(c, op), op).wrapping_add(1).wrapping_add(1)
        },
{
    let d = charged(c, op);
    lemma_operand_defer(d, op);
    lemma_get_data_ignores_defer(c, d, op);
    assert(exec_spec(d, op) == branch_spec(d, op));
}

proof fn lemma_wrapping_sum(x: u64, a: int, b: int, k: int)
    requires
        0 <= a < 256,
        0 <= b <= 1,
        0 <= k <= 2,
    ensures
        x.wrapping_add(a as u64).wrapping_add(b as u64).wrapping_add(k as u64) == ((x as int + a + b
            + k) % 0x1_0000_0000_0000_0000) as u64,
        x.wrapping_add(a as u64).wrapping_add(b as u64).wrapping_add(1).wrapping_add(1) == ((x as int
            + a + b + 2) % 0x1_0000_0000_0000_0000) as u64,
{
}

/// Every instruction adds to the deferred cycles its base cost, the
/// page-cross penalty and the branch penalty, and nothing else (modulo 2^64).
pub proof fn lemma_cycle_cost(c: CpuView, op: Operation)
    ensures
        exec_spec(charged(c, op), op) matches Ok(c2) ==> c2.defer == ((c.defer as int + op.cycle
            + page_cross_cost(c, op) + branch_cost(c, op)) % 0x1_0000_0000_0000_0000) as u64,
{
    let d = charged(c, op);
    let t = op.instruction_type;
    lemma_operand_addr_ignores_defer(c, d, op.addressing_mode);
    lemma_wrapping_sum(c.defer, op.cycle as int, page_cross_cost(c, op), branch_cost(c, op));
    if is_branch(t) {
        lemma_branch_defer(c, op);
    } else if addresses_operand(t) {
        lemma_group_defer(d, op);
    } else {
        lemma_wrapping_sum(c.defer, op.cycle as int, 0, 0);
        assert(exec_spec(d, op) matches Ok(c2) ==> c2.defer == d.defer) by {
            if is_jump(t) {
                assert(t == InstructionTypes::BRK);
            }
        }
    }
}

} // verus!
