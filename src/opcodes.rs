//! The opcode table: each opcode byte's mnemonic, addressing mode and base cost.
use vstd::prelude::*;
use crate::error::NesError;

verus! {

/// The instruction mnemonics: the documented set and the stable undocumented
/// LAX, SAX, DCP, ISB, SLO, RLA, SRE and RRA.
#[derive(Debug, Clone, Copy, PartialEq, Eq, Structural)]
pub enum InstructionTypes {
    ADC,
    AND,
    ASL,
    BCC,
    BCS,
    BEQ,
    BIT,
    BMI,
    BNE,
    BPL,
    BRK,
    BVC,
    BVS,
    CLC,
    CLD,
    CLI,
    CLV,
    CMP,
    CPX,
    CPY,
    DCP,
    DEC,
    DEX,
    DEY,
    EOR,
    INC,
    INX,
    INY,
    ISB,
    JMP,
    JSR,
    LAX,
    LDA,
    LDX,
    LDY,
    LSR,
    NOP,
    ORA,
    PHA,
    PHP,
    PLA,
    PLP,
    RLA,
    ROL,
    ROR,
    RRA,
    RTI,
    RTS,
    SAX,
    SBC,
    SEC,
    SED,
    SEI,
    SLO,
    SRE,
    STA,
    STX,
    STY,
    TAX,
    TAY,
    TSX,
    TXA,
    TXS,
    TYA,
}

/// Where an instruction finds its operand.
#[derive(Debug, Clone, Copy, PartialEq, Eq, Structural)]
pub enum AddressingModes {
    Implicit,
    Accumulator,
    Immediate,
    ZeroPage,
    ZeroPageX,
    ZeroPageY,
    Relative,
    Absolute,
    AbsoluteX,
    AbsoluteY,
    Indirect,
    IndirectX,
    IndirectY,
    Empty,
}

/// One decoded opcode.
#[derive(Debug, Clone, Copy, PartialEq, Eq, Structural)]
pub struct Operation {
    pub instruction_type: InstructionTypes,
    /// The base cost in cycles.
    pub cycle: u8,
    pub addressing_mode: AddressingModes,
    pub opc: u8,
}

/// The row of the opcode table for `opc`, if the opcode is known.
pub open spec fn table_row(opc: u8) -> Option<(InstructionTypes, u8, AddressingModes)> {
    match opc {
        0x00 => Some((InstructionTypes::BRK, 7, AddressingModes::Implicit)),
        0x01 => Some((InstructionTypes::ORA, 6, AddressingModes::IndirectX)),
        0x03 => Some((InstructionTypes::SLO, 8, AddressingModes::IndirectX)),
        0x04 => Some((InstructionTypes::NOP, 3, AddressingModes::ZeroPage)),
        0x05 => Some((InstructionTypes::ORA, 3, AddressingModes::ZeroPage)),
        0x06 => Some((InstructionTypes::ASL, 5, AddressingModes::ZeroPage)),
        0x07 => Some((InstructionTypes::SLO, 5, AddressingModes::ZeroPage)),
        0x08 => Some((InstructionTypes::PHP, 3, AddressingModes::Implicit)),
        0x09 => Some((InstructionTypes::ORA, 2, AddressingModes::Immediate)),
        0x0a => Some((InstructionTypes::ASL, 2, AddressingModes::Accumulator)),
        0x0c => Some((InstructionTypes::NOP, 4, AddressingModes::Absolute)),
        0x0d => Some((InstructionTypes::ORA, 4, AddressingModes::Absolute)),
        0x0e => Some((InstructionTypes::ASL, 6, AddressingModes::Absolute)),
        0x0f => Some((InstructionTypes::SLO, 6, AddressingModes::Absolute)),
        0x10 => Some((InstructionTypes::BPL, 2, AddressingModes::Relative)),
        0x11 => Some((InstructionTypes::ORA, 5, AddressingModes::IndirectY)),
        0x13 => Some((InstructionTypes::SLO, 8, AddressingModes::IndirectY)),
        0x14 => Some((InstructionTypes::NOP, 4, AddressingModes::ZeroPageX)),
        0x15 => Some((InstructionTypes::ORA, 4, AddressingModes::ZeroPageX)),
        0x16 => Some((InstructionTypes::ASL, 6, AddressingModes::ZeroPageX)),
        0x17 => Some((InstructionTypes::SLO, 6, AddressingModes::ZeroPageX)),
        0x18 => Some((InstructionTypes::CLC, 2, AddressingModes::Implicit)),
        0x19 => Some((InstructionTypes::ORA, 4, AddressingModes::AbsoluteY)),
        0x1a => Some((InstructionTypes::NOP, 2, AddressingModes::Empty)),
        0x1b => Some((InstructionTypes::SLO, 7, AddressingModes::AbsoluteY)),
        0x1c => Some((InstructionTypes::NOP, 4, AddressingModes::AbsoluteX)),
        0x1d => Some((InstructionTypes::ORA, 4, AddressingModes::AbsoluteX)),
        0x1e => Some((InstructionTypes::ASL, 7, AddressingModes::AbsoluteX)),
        0x1f => Some((InstructionTypes::SLO, 7, AddressingModes::AbsoluteX)),
        0x20 => Some((InstructionTypes::JSR, 6, AddressingModes::Absolute)),
        0x21 => Some((InstructionTypes::AND, 6, AddressingModes::IndirectX)),
        0x23 => Some((InstructionTypes::RLA, 8, AddressingModes::IndirectX)),
        0x24 => Some((InstructionTypes::BIT, 3, AddressingModes::ZeroPage)),
        0x25 => Some((InstructionTypes::AND, 3, AddressingModes::ZeroPage)),
        0x26 => Some((InstructionTypes::ROL, 5, AddressingModes::ZeroPage)),
        0x27 => Some((InstructionTypes::RLA, 5, AddressingModes::ZeroPage)),
        0x28 => Some((InstructionTypes::PLP, 4, AddressingModes::Implicit)),
        0x29 => Some((InstructionTypes::AND, 2, AddressingModes::Immediate)),
        0x2a => Some((InstructionTypes::ROL, 2, AddressingModes::Accumulator)),
        0x2c => Some((InstructionTypes::BIT, 4, AddressingModes::Absolute)),
        0x2d => Some((InstructionTypes::AND, 4, AddressingModes::Absolute)),
        0x2e => Some((InstructionTypes::ROL, 6, AddressingModes::Absolute)),
        0x2f => Some((InstructionTypes::RLA, 6, AddressingModes::Absolute)),
        0x30 => Some((InstructionTypes::BMI, 2, AddressingModes::Relative)),
        0x31 => Some((InstructionTypes::AND, 5, AddressingModes::IndirectY)),
        0x33 => Some((InstructionTypes::RLA, 8, AddressingModes::IndirectY)),
        0x34 => Some((InstructionTypes::NOP, 4, AddressingModes::ZeroPageX)),
        0x35 => Some((InstructionTypes::AND, 4, AddressingModes::ZeroPageX)),
        0x36 => Some((InstructionTypes::ROL, 6, AddressingModes::ZeroPageX)),
        0x37 => Some((InstructionTypes::RLA, 6, AddressingModes::ZeroPageX)),
        0x38 => Some((InstructionTypes::SEC, 2, AddressingModes::Implicit)),
        0x39 => Some((InstructionTypes::AND, 4, AddressingModes::AbsoluteY)),
        0x3a => Some((InstructionTypes::NOP, 2, AddressingModes::Empty)),
        0x3b => Some((InstructionTypes::RLA, 7, AddressingModes::AbsoluteY)),
        0x3c => Some((InstructionTypes::NOP, 4, AddressingModes::AbsoluteX)),
        0x3d => Some((InstructionTypes::AND, 4, AddressingModes::AbsoluteX)),
        0x3e => Some((InstructionTypes::ROL, 7, AddressingModes::AbsoluteX)),
        0x3f => Some((InstructionTypes::RLA, 7, AddressingModes::AbsoluteX)),
        0x40 => Some((InstructionTypes::RTI, 6, AddressingModes::Implicit)),
        0x41 => Some((InstructionTypes::EOR, 6, AddressingModes::IndirectX)),
        0x43 => Some((InstructionTypes::SRE, 8, AddressingModes::IndirectX)),
        0x44 => Some((InstructionTypes::NOP, 3, AddressingModes::ZeroPage)),
        0x45 => Some((InstructionTypes::EOR, 3, AddressingModes::ZeroPage)),
        0x46 => Some((InstructionTypes::LSR, 5, AddressingModes::ZeroPage)),
        0x47 => Some((InstructionTypes::SRE, 5, AddressingModes::ZeroPage)),
        0x48 => Some((InstructionTypes::PHA, 3, AddressingModes::Implicit)),
        0x49 => Some((InstructionTypes::EOR, 2, AddressingModes::Immediate)),
        0x4a => Some((InstructionTypes::LSR, 2, AddressingModes::Accumulator)),
        0x4c => Some((InstructionTypes::JMP, 3, AddressingModes::Absolute)),
        0x4d => Some((InstructionTypes::EOR, 4, AddressingModes::Absolute)),
        0x4e => Some((InstructionTypes::LSR, 6, AddressingModes::Absolute)),
        0x4f => Some((InstructionTypes::SRE, 6, AddressingModes::Absolute)),
        0x50 => Some((InstructionTypes::BVC, 2, AddressingModes::Relative)),
        0x51 => Some((InstructionTypes::EOR, 5, AddressingModes::IndirectY)),
        0x53 => Some((InstructionTypes::SRE, 8, AddressingModes::IndirectY)),
        0x54 => Some((InstructionTypes::NOP, 4, AddressingModes::ZeroPageX)),
        0x55 => Some((InstructionTypes::EOR, 4, AddressingModes::ZeroPageX)),
        0x56 => Some((InstructionTypes::LSR, 6, AddressingModes::ZeroPageX)),
        0x57 => Some((InstructionTypes::SRE, 6, AddressingModes::ZeroPageX)),
        0x58 => Some((InstructionTypes::CLI, 2, AddressingModes::Implicit)),
        0x59 => Some((InstructionTypes::EOR, 4, AddressingModes::AbsoluteY)),
        0x5a => Some((InstructionTypes::NOP, 2, AddressingModes::Empty)),
        0x5b => Some((InstructionTypes::SRE, 7, AddressingModes::AbsoluteY)),
        0x5c => Some((InstructionTypes::NOP, 4, AddressingModes::AbsoluteX)),
        0x5d => Some((InstructionTypes::EOR, 4, AddressingModes::AbsoluteX)),
        0x5e => Some((InstructionTypes::LSR, 7, AddressingModes::AbsoluteX)),
        0x5f => Some((InstructionTypes::SRE, 7, AddressingModes::AbsoluteX)),
        0x60 => Some((InstructionTypes::RTS, 6, AddressingModes::Implicit)),
        0x61 => Some((InstructionTypes::ADC, 6, AddressingModes::IndirectX)),
        0x63 => Some((InstructionTypes::RRA, 8, AddressingModes::IndirectX)),
        0x64 => Some((InstructionTypes::NOP, 3, AddressingModes::ZeroPage)),
        0x65 => Some((InstructionTypes::ADC, 3, AddressingModes::ZeroPage)),
        0x66 => Some((InstructionTypes::ROR, 5, AddressingModes::ZeroPage)),
        0x67 => Some((InstructionTypes::RRA, 5, AddressingModes::ZeroPage)),
        0x68 => Some((InstructionTypes::PLA, 4, AddressingModes::Implicit)),
        0x69 => Some((InstructionTypes::ADC, 2, AddressingModes::Immediate)),
        0x6a => Some((InstructionTypes::ROR, 2, AddressingModes::Accumulator)),
        0x6c => Some((InstructionTypes::JMP, 5, AddressingModes::Indirect)),
        0x6d => Some((InstructionTypes::ADC, 4, AddressingModes::Absolute)),
        0x6e => Some((InstructionTypes::ROR, 6, AddressingModes::Absolute)),
        0x6f => Some((InstructionTypes::RRA, 6, AddressingModes::Absolute)),
        0x70 => Some((InstructionTypes::BVS, 2, AddressingModes::Relative)),
        0x71 => Some((InstructionTypes::ADC, 5, AddressingModes::IndirectY)),
        0x73 => Some((InstructionTypes::RRA, 8, AddressingModes::IndirectY)),
        0x74 => Some((InstructionTypes::NOP, 4, AddressingModes::ZeroPageX)),
        0x75 => Some((InstructionTypes::ADC, 4, AddressingModes::ZeroPageX)),
        0x76 => Some((InstructionTypes::ROR, 6, AddressingModes::ZeroPageX)),
        0x77 => Some((InstructionTypes::RRA, 6, AddressingModes::ZeroPageX)),
        0x78 => Some((InstructionTypes::SEI, 2, AddressingModes::Implicit)),
        0x79 => Some((InstructionTypes::ADC, 4, AddressingModes::AbsoluteY)),
        0x7a => Some((InstructionTypes::NOP, 2, AddressingModes::Empty)),
        0x7b => Some((InstructionTypes::RRA, 7, AddressingModes::AbsoluteY)),
        0x7c => Some((InstructionTypes::NOP, 4, AddressingModes::AbsoluteX)),
        0x7d => Some((InstructionTypes::ADC, 4, AddressingModes::AbsoluteX)),
        0x7e => Some((InstructionTypes::ROR, 7, AddressingModes::AbsoluteX)),
        0x7f => Some((InstructionTypes::RRA, 7, AddressingModes::AbsoluteX)),
        0x80 => Some((InstructionTypes::NOP, 2, AddressingModes::Immediate)),
        0x81 => Some((InstructionTypes::STA, 6, AddressingModes::IndirectX)),
        0x82 => Some((InstructionTypes::NOP, 2, AddressingModes::Immediate)),
        0x83 => Some((InstructionTypes::SAX, 6, AddressingModes::IndirectX)),
        0x84 => Some((InstructionTypes::STY, 3, AddressingModes::ZeroPage)),
        0x85 => Some((InstructionTypes::STA, 3, AddressingModes::ZeroPage)),
        0x86 => Some((InstructionTypes::STX, 3, AddressingModes::ZeroPage)),
        0x87 => Some((InstructionTypes::SAX, 3, AddressingModes::ZeroPage)),
        0x88 => Some((InstructionTypes::DEY, 2, AddressingModes::Implicit)),
        0x89 => Some((InstructionTypes::NOP, 2, AddressingModes::Immediate)),
        0x8a => Some((InstructionTypes::TXA, 2, AddressingModes::Implicit)),
        0x8c => Some((InstructionTypes::STY, 4, AddressingModes::Absolute)),
        0x8d => Some((InstructionTypes::STA, 4, AddressingModes::Absolute)),
        0x8e => Some((InstructionTypes::STX, 4, AddressingModes::Absolute)),
        0x8f => Some((InstructionTypes::SAX, 4, AddressingModes::Absolute)),
        0x90 => Some((InstructionTypes::BCC, 2, AddressingModes::Relative)),
        0x91 => Some((InstructionTypes::STA, 6, AddressingModes::IndirectY)),
        0x94 => Some((InstructionTypes::STY, 4, AddressingModes::ZeroPageX)),
        0x95 => Some((InstructionTypes::STA, 4, AddressingModes::ZeroPageX)),
        0x96 => Some((InstructionTypes::STX, 4, AddressingModes::ZeroPageY)),
        0x97 => Some((InstructionTypes::SAX, 4, AddressingModes::ZeroPageY)),
        0x98 => Some((InstructionTypes::TYA, 2, AddressingModes::Implicit)),
        0x99 => Some((InstructionTypes::STA, 5, AddressingModes::AbsoluteY)),
        0x9a => Some((InstructionTypes::TXS, 2, AddressingModes::Implicit)),
        0x9d => Some((InstructionTypes::STA, 5, AddressingModes::AbsoluteX)),
        0xa0 => Some((InstructionTypes::LDY, 2, AddressingModes::Immediate)),
        0xa1 => Some((InstructionTypes::LDA, 6, AddressingModes::IndirectX)),
        0xa2 => Some((InstructionTypes::LDX, 2, AddressingModes::Immediate)),
        0xa3 => Some((InstructionTypes::LAX, 6, AddressingModes::IndirectX)),
        0xa4 => Some((InstructionTypes::LDY, 3, AddressingModes::ZeroPage)),
        0xa5 => Some((InstructionTypes::LDA, 3, AddressingModes::ZeroPage)),
        0xa6 => Some((InstructionTypes::LDX, 3, AddressingModes::ZeroPage)),
        0xa7 => Some((InstructionTypes::LAX, 3, AddressingModes::ZeroPage)),
        0xa8 => Some((InstructionTypes::TAY, 2, AddressingModes::Implicit)),
        0xa9 => Some((InstructionTypes::LDA, 2, AddressingModes::Immediate)),
        0xaa => Some((InstructionTypes::TAX, 2, AddressingModes::Implicit)),
        0xac => Some((InstructionTypes::LDY, 4, AddressingModes::Absolute)),
        0xad => Some((InstructionTypes::LDA, 4, AddressingModes::Absolute)),
        0xae => Some((InstructionTypes::LDX, 4, AddressingModes::Absolute)),
        0xaf => Some((InstructionTypes::LAX, 4, AddressingModes::Absolute)),
        0xb0 => Some((InstructionTypes::BCS, 2, AddressingModes::Relative)),
        0xb1 => Some((InstructionTypes::LDA, 5, AddressingModes::IndirectY)),
        0xb3 => Some((InstructionTypes::LAX, 5, AddressingModes::IndirectY)),
        0xb4 => Some((InstructionTypes::LDY, 4, AddressingModes::ZeroPageX)),
        0xb5 => Some((InstructionTypes::LDA, 4, AddressingModes::ZeroPageX)),
        0xb6 => Some((InstructionTypes::LDX, 4, AddressingModes::ZeroPageY)),
        0xb7 => Some((InstructionTypes::LAX, 4, AddressingModes::ZeroPageY)),
        0xb8 => Some((InstructionTypes::CLV, 2, AddressingModes::Implicit)),
        0xb9 => Some((InstructionTypes::LDA, 4, AddressingModes::AbsoluteY)),
        0xba => Some((InstructionTypes::TSX, 2, AddressingModes::Implicit)),
        0xbc => Some((InstructionTypes::LDY, 4, AddressingModes::AbsoluteX)),
        0xbd => Some((InstructionTypes::LDA, 4, AddressingModes::AbsoluteX)),
        0xbe => Some((InstructionTypes::LDX, 4, AddressingModes::AbsoluteY)),
        0xbf => Some((InstructionTypes::LAX, 4, AddressingModes::AbsoluteY)),
        0xc0 => Some((InstructionTypes::CPY, 2, AddressingModes::Immediate)),
        0xc1 => Some((InstructionTypes::CMP, 6, AddressingModes::IndirectX)),
        0xc2 => Some((InstructionTypes::NOP, 2, AddressingModes::Immediate)),
        0xc3 => Some((InstructionTypes::DCP, 8, AddressingModes::IndirectX)),
        0xc4 => Some((InstructionTypes::CPY, 3, AddressingModes::ZeroPage)),
        0xc5 => Some((InstructionTypes::CMP, 3, AddressingModes::ZeroPage)),
        0xc6 => Some((InstructionTypes::DEC, 5, AddressingModes::ZeroPage)),
        0xc7 => Some((InstructionTypes::DCP, 5, AddressingModes::ZeroPage)),
        0xc8 => Some((InstructionTypes::INY, 2, AddressingModes::Implicit)),
        0xc9 => Some((InstructionTypes::CMP, 2, AddressingModes::Immediate)),
        0xca => Some((InstructionTypes::DEX, 2, AddressingModes::Implicit)),
        0xcc => Some((InstructionTypes::CPY, 4, AddressingModes::Absolute)),
        0xcd => Some((InstructionTypes::CMP, 4, AddressingModes::Absolute)),
        0xce => Some((InstructionTypes::DEC, 6, AddressingModes::Absolute)),
        0xcf => Some((InstructionTypes::DCP, 6, AddressingModes::Absolute)),
        0xd0 => Some((InstructionTypes::BNE, 2, AddressingModes::Relative)),
        0xd1 => Some((InstructionTypes::CMP, 5, AddressingModes::IndirectY)),
        0xd3 => Some((InstructionTypes::DCP, 8, AddressingModes::IndirectY)),
        0xd4 => Some((InstructionTypes::NOP, 4, AddressingModes::ZeroPageX)),
        0xd5 => Some((InstructionTypes::CMP, 4, AddressingModes::ZeroPageX)),
        0xd6 => Some((InstructionTypes::DEC, 6, AddressingModes::ZeroPageX)),
        0xd7 => Some((InstructionTypes::DCP, 6, AddressingModes::ZeroPageX)),
        0xd8 => Some((InstructionTypes::CLD, 2, AddressingModes::Implicit)),
        0xd9 => Some((InstructionTypes::CMP, 4, AddressingModes::AbsoluteY)),
        0xda => Some((InstructionTypes::NOP, 2, AddressingModes::Empty)),
        0xdb => Some((InstructionTypes::DCP, 7, AddressingModes::AbsoluteY)),
        0xdc => Some((InstructionTypes::NOP, 4, AddressingModes::AbsoluteX)),
        0xdd => Some((InstructionTypes::CMP, 4, AddressingModes::AbsoluteX)),
        0xde => Some((InstructionTypes::DEC, 7, AddressingModes::AbsoluteX)),
        0xdf => Some((InstructionTypes::DCP, 7, AddressingModes::AbsoluteX)),
        0xe0 => Some((InstructionTypes::CPX, 2, AddressingModes::Immediate)),
        0xe1 => Some((InstructionTypes::SBC, 6, AddressingModes::IndirectX)),
        0xe2 => Some((InstructionTypes::NOP, 2, AddressingModes::Immediate)),
        0xe3 => Some((InstructionTypes::ISB, 8, AddressingModes::IndirectX)),
        0xe4 => Some((InstructionTypes::CPX, 3, AddressingModes::ZeroPage)),
        0xe5 => Some((InstructionTypes::SBC, 3, AddressingModes::ZeroPage)),
        0xe6 => Some((InstructionTypes::INC, 5, AddressingModes::ZeroPage)),
        0xe7 => Some((InstructionTypes::ISB, 5, AddressingModes::ZeroPage)),
        0xe8 => Some((InstructionTypes::INX, 2, AddressingModes::Implicit)),
        0xe9 => Some((InstructionTypes::SBC, 2, AddressingModes::Immediate)),
        0xea => Some((InstructionTypes::NOP, 2, AddressingModes::Empty)),
        0xeb => Some((InstructionTypes::SBC, 2, AddressingModes::Immediate)),
        0xec => Some((InstructionTypes::CPX, 4, AddressingModes::Absolute)),
        0xed => Some((InstructionTypes::SBC, 4, AddressingModes::Absolute)),
        0xee => Some((InstructionTypes::INC, 6, AddressingModes::Absolute)),
        0xef => Some((InstructionTypes::ISB, 6, AddressingModes::Absolute)),
        0xf0 => Some((InstructionTypes::BEQ, 2, AddressingModes::Relative)),
        0xf1 => Some((InstructionTypes::SBC, 5, AddressingModes::IndirectY)),
        0xf3 => Some((InstructionTypes::ISB, 8, AddressingModes::IndirectY)),
        0xf4 => Some((InstructionTypes::NOP, 4, AddressingModes::ZeroPageX)),
        0xf5 => Some((InstructionTypes::SBC, 4, AddressingModes::ZeroPageX)),
        0xf6 => Some((InstructionTypes::INC, 6, AddressingModes::ZeroPageX)),
        0xf7 => Some((InstructionTypes::ISB, 6, AddressingModes::ZeroPageX)),
        0xf8 => Some((InstructionTypes::SED, 2, AddressingModes::Implicit)),
        0xf9 => Some((InstructionTypes::SBC, 4, AddressingModes::AbsoluteY)),
        0xfa => Some((InstructionTypes::NOP, 2, AddressingModes::Empty)),
        0xfb => Some((InstructionTypes::ISB, 7, AddressingModes::AbsoluteY)),
        0xfc => Some((InstructionTypes::NOP, 4, AddressingModes::AbsoluteX)),
        0xfd => Some((InstructionTypes::SBC, 4, AddressingModes::AbsoluteX)),
        0xfe => Some((InstructionTypes::INC, 7, AddressingModes::AbsoluteX)),
        0xff => Some((InstructionTypes::ISB, 7, AddressingModes::AbsoluteX)),
        _ => None,
    }
}

/// The decoded form of `opc`.
pub open spec fn decode(opc: u8) -> Option<Operation> {
    match table_row(opc) {
        Some((t, c, m)) => Some(Operation { instruction_type: t, cycle: c, addressing_mode: m, opc }),
        None => None,
    }
}

fn row(t: InstructionTypes, cycle: u8, m: AddressingModes, opc: u8) -> (r: Result<Operation, NesError>)
    ensures
        r == Ok::<Operation, NesError>(Operation { instruction_type: t, cycle, addressing_mode: m, opc }),
{
    Ok(Operation { instruction_type: t, cycle, addressing_mode: m, opc })
}

/// Looks `opc` up in the opcode table; an opcode not in it is `IllegalOpcode`.
pub fn operation(opc: u8) -> (r: Result<Operation, NesError>)
    ensures
        match decode(opc) {
            Some(op) => r == Ok::<Operation, NesError>(op),
            None => r == Err::<Operation, NesError>(NesError::IllegalOpcode(opc)),
        },
{
    match opc {
        0x00 => row(InstructionTypes::BRK, 7, AddressingModes::Implicit, opc),
        0x01 => row(InstructionTypes::ORA, 6, AddressingModes::IndirectX, opc),
        0x03 => row(InstructionTypes::SLO, 8, AddressingModes::IndirectX, opc),
        0x04 => row(InstructionTypes::NOP, 3, AddressingModes::ZeroPage, opc),
        0x05 => row(InstructionTypes::ORA, 3, AddressingModes::ZeroPage, opc),
        0x06 => row(InstructionTypes::ASL, 5, AddressingModes::ZeroPage, opc),
        0x07 => row(InstructionTypes::SLO, 5, AddressingModes::ZeroPage, opc),
        0x08 => row(InstructionTypes::PHP, 3, AddressingModes::Implicit, opc),
        0x09 => row(InstructionTypes::ORA, 2, AddressingModes::Immediate, opc),
        0x0a => row(InstructionTypes::ASL, 2, AddressingModes::Accumulator, opc),
        0x0c => row(InstructionTypes::NOP, 4, AddressingModes::Absolute, opc),
        0x0d => row(InstructionTypes::ORA, 4, AddressingModes::Absolute, opc),
        0x0e => row(InstructionTypes::ASL, 6, AddressingModes::Absolute, opc),
        0x0f => row(InstructionTypes::SLO, 6, AddressingModes::Absolute, opc),
        0x10 => row(InstructionTypes::BPL, 2, AddressingModes::Relative, opc),
        0x11 => row(InstructionTypes::ORA, 5, AddressingModes::IndirectY, opc),
        0x13 => row(InstructionTypes::SLO, 8, AddressingModes::IndirectY, opc),
        0x14 => row(InstructionTypes::NOP, 4, AddressingModes::ZeroPageX, opc),
        0x15 => row(InstructionTypes::ORA, 4, AddressingModes::ZeroPageX, opc),
        0x16 => row(InstructionTypes::ASL, 6, AddressingModes::ZeroPageX, opc),
        0x17 => row(InstructionTypes::SLO, 6, AddressingModes::ZeroPageX, opc),
        0x18 => row(InstructionTypes::CLC, 2, AddressingModes::Implicit, opc),
        0x19 => row(InstructionTypes::ORA, 4, AddressingModes::AbsoluteY, opc),
        0x1a => row(InstructionTypes::NOP, 2, AddressingModes::Empty, opc),
        0x1b => row(InstructionTypes::SLO, 7, AddressingModes::AbsoluteY, opc),
        0x1c => row(InstructionTypes::NOP, 4, AddressingModes::AbsoluteX, opc),
        0x1d => row(InstructionTypes::ORA, 4, AddressingModes::AbsoluteX, opc),
        0x1e => row(InstructionTypes::ASL, 7, AddressingModes::AbsoluteX, opc),
        0x1f => row(InstructionTypes::SLO, 7, AddressingModes::AbsoluteX, opc),
        0x20 => row(InstructionTypes::JSR, 6, AddressingModes::Absolute, opc),
        0x21 => row(InstructionTypes::AND, 6, AddressingModes::IndirectX, opc),
        0x23 => row(InstructionTypes::RLA, 8, AddressingModes::IndirectX, opc),
        0x24 => row(InstructionTypes::BIT, 3, AddressingModes::ZeroPage, opc),
        0x25 => row(InstructionTypes::AND, 3, AddressingModes::ZeroPage, opc),
        0x26 => row(InstructionTypes::ROL, 5, AddressingModes::ZeroPage, opc),
        0x27 => row(InstructionTypes::RLA, 5, AddressingModes::ZeroPage, opc),
        0x28 => row(InstructionTypes::PLP, 4, AddressingModes::Implicit, opc),
        0x29 => row(InstructionTypes::AND, 2, AddressingModes::Immediate, opc),
        0x2a => row(InstructionTypes::ROL, 2, AddressingModes::Accumulator, opc),
        0x2c => row(InstructionTypes::BIT, 4, AddressingModes::Absolute, opc),
        0x2d => row(InstructionTypes::AND, 4, AddressingModes::Absolute, opc),
        0x2e => row(InstructionTypes::ROL, 6, AddressingModes::Absolute, opc),
        0x2f => row(InstructionTypes::RLA, 6, AddressingModes::Absolute, opc),
        0x30 => row(InstructionTypes::BMI, 2, AddressingModes::Relative, opc),
        0x31 => row(InstructionTypes::AND, 5, AddressingModes::IndirectY, opc),
        0x33 => row(InstructionTypes::RLA, 8, AddressingModes::IndirectY, opc),
        0x34 => row(InstructionTypes::NOP, 4, AddressingModes::ZeroPageX, opc),
        0x35 => row(InstructionTypes::AND, 4, AddressingModes::ZeroPageX, opc),
        0x36 => row(InstructionTypes::ROL, 6, AddressingModes::ZeroPageX, opc),
        0x37 => row(InstructionTypes::RLA, 6, AddressingModes::ZeroPageX, opc),
        0x38 => row(InstructionTypes::SEC, 2, AddressingModes::Implicit, opc),
        0x39 => row(InstructionTypes::AND, 4, AddressingModes::AbsoluteY, opc),
        0x3a => row(InstructionTypes::NOP, 2, AddressingModes::Empty, opc),
        0x3b => row(InstructionTypes::RLA, 7, AddressingModes::AbsoluteY, opc),
        0x3c => row(InstructionTypes::NOP, 4, AddressingModes::AbsoluteX, opc),
        0x3d => row(InstructionTypes::AND, 4, AddressingModes::AbsoluteX, opc),
        0x3e => row(InstructionTypes::ROL, 7, AddressingModes::AbsoluteX, opc),
        0x3f => row(InstructionTypes::RLA, 7, AddressingModes::AbsoluteX, opc),
        0x40 => row(InstructionTypes::RTI, 6, AddressingModes::Implicit, opc),
        0x41 => row(InstructionTypes::EOR, 6, AddressingModes::IndirectX, opc),
        0x43 => row(InstructionTypes::SRE, 8, AddressingModes::IndirectX, opc),
        0x44 => row(InstructionTypes::NOP, 3, AddressingModes::ZeroPage, opc),
        0x45 => row(InstructionTypes::EOR, 3, AddressingModes::ZeroPage, opc),
        0x46 => row(InstructionTypes::LSR, 5, AddressingModes::ZeroPage, opc),
        0x47 => row(InstructionTypes::SRE, 5, AddressingModes::ZeroPage, opc),
        0x48 => row(InstructionTypes::PHA, 3, AddressingModes::Implicit, opc),
        0x49 => row(InstructionTypes::EOR, 2, AddressingModes::Immediate, opc),
        0x4a => row(InstructionTypes::LSR, 2, AddressingModes::Accumulator, opc),
        0x4c => row(InstructionTypes::JMP, 3, AddressingModes::Absolute, opc),
        0x4d => row(InstructionTypes::EOR, 4, AddressingModes::Absolute, opc),
        0x4e => row(InstructionTypes::LSR, 6, AddressingModes::Absolute, opc),
        0x4f => row(InstructionTypes::SRE, 6, AddressingModes::Absolute, opc),
        0x50 => row(InstructionTypes::BVC, 2, AddressingModes::Relative, opc),
        0x51 => row(InstructionTypes::EOR, 5, AddressingModes::IndirectY, opc),
        0x53 => row(InstructionTypes::SRE, 8, AddressingModes::IndirectY, opc),
        0x54 => row(InstructionTypes::NOP, 4, AddressingModes::ZeroPageX, opc),
        0x55 => row(InstructionTypes::EOR, 4, AddressingModes::ZeroPageX, opc),
        0x56 => row(InstructionTypes::LSR, 6, AddressingModes::ZeroPageX, opc),
        0x57 => row(InstructionTypes::SRE, 6, AddressingModes::ZeroPageX, opc),
        0x58 => row(InstructionTypes::CLI, 2, AddressingModes::Implicit, opc),
        0x59 => row(InstructionTypes::EOR, 4, AddressingModes::AbsoluteY, opc),
        0x5a => row(InstructionTypes::NOP, 2, AddressingModes::Empty, opc),
        0x5b => row(InstructionTypes::SRE, 7, AddressingModes::AbsoluteY, opc),
        0x5c => row(InstructionTypes::NOP, 4, AddressingModes::AbsoluteX, opc),
        0x5d => row(InstructionTypes::EOR, 4, AddressingModes::AbsoluteX, opc),
        0x5e => row(InstructionTypes::LSR, 7, AddressingModes::AbsoluteX, opc),
        0x5f => row(InstructionTypes::SRE, 7, AddressingModes::AbsoluteX, opc),
        0x60 => row(InstructionTypes::RTS, 6, AddressingModes::Implicit, opc),
        0x61 => row(InstructionTypes::ADC, 6, AddressingModes::IndirectX, opc),
        0x63 => row(InstructionTypes::RRA, 8, AddressingModes::IndirectX, opc),
        0x64 => row(InstructionTypes::NOP, 3, AddressingModes::ZeroPage, opc),
        0x65 => row(InstructionTypes::ADC, 3, AddressingModes::ZeroPage, opc),
        0x66 => row(InstructionTypes::ROR, 5, AddressingModes::ZeroPage, opc),
        0x67 => row(InstructionTypes::RRA, 5, AddressingModes::ZeroPage, opc),
        0x68 => row(InstructionTypes::PLA, 4, AddressingModes::Implicit, opc),
        0x69 => row(InstructionTypes::ADC, 2, AddressingModes::Immediate, opc),
        0x6a => row(InstructionTypes::ROR, 2, AddressingModes::Accumulator, opc),
        0x6c => row(InstructionTypes::JMP, 5, AddressingModes::Indirect, opc),
        0x6d => row(InstructionTypes::ADC, 4, AddressingModes::Absolute, opc),
        0x6e => row(InstructionTypes::ROR, 6, AddressingModes::Absolute, opc),
        0x6f => row(InstructionTypes::RRA, 6, AddressingModes::Absolute, opc),
        0x70 => row(InstructionTypes::BVS, 2, AddressingModes::Relative, opc),
        0x71 => row(InstructionTypes::ADC, 5, AddressingModes::IndirectY, opc),
        0x73 => row(InstructionTypes::RRA, 8, AddressingModes::IndirectY, opc),
        0x74 => row(InstructionTypes::NOP, 4, AddressingModes::ZeroPageX, opc),
        0x75 => row(InstructionTypes::ADC, 4, AddressingModes::ZeroPageX, opc),
        0x76 => row(InstructionTypes::ROR, 6, AddressingModes::ZeroPageX, opc),
        0x77 => row(InstructionTypes::RRA, 6, AddressingModes::ZeroPageX, opc),
        0x78 => row(InstructionTypes::SEI, 2, AddressingModes::Implicit, opc),
        0x79 => row(InstructionTypes::ADC, 4, AddressingModes::AbsoluteY, opc),
        0x7a => row(InstructionTypes::NOP, 2, AddressingModes::Empty, opc),
        0x7b => row(InstructionTypes::RRA, 7, AddressingModes::AbsoluteY, opc),
        0x7c => row(InstructionTypes::NOP, 4, AddressingModes::AbsoluteX, opc),
        0x7d => row(InstructionTypes::ADC, 4, AddressingModes::AbsoluteX, opc),
        0x7e => row(InstructionTypes::ROR, 7, AddressingModes::AbsoluteX, opc),
        0x7f => row(InstructionTypes::RRA, 7, AddressingModes::AbsoluteX, opc),
        0x80 => row(InstructionTypes::NOP, 2, AddressingModes::Immediate, opc),
        0x81 => row(InstructionTypes::STA, 6, AddressingModes::IndirectX, opc),
        0x82 => row(InstructionTypes::NOP, 2, AddressingModes::Immediate, opc),
        0x83 => row(InstructionTypes::SAX, 6, AddressingModes::IndirectX, opc),
        0x84 => row(InstructionTypes::STY, 3, AddressingModes::ZeroPage, opc),
        0x85 => row(InstructionTypes::STA, 3, AddressingModes::ZeroPage, opc),
        0x86 => row(InstructionTypes::STX, 3, AddressingModes::ZeroPage, opc),
        0x87 => row(InstructionTypes::SAX, 3, AddressingModes::ZeroPage, opc),
        0x88 => row(InstructionTypes::DEY, 2, AddressingModes::Implicit, opc),
        0x89 => row(InstructionTypes::NOP, 2, AddressingModes::Immediate, opc),
        0x8a => row(InstructionTypes::TXA, 2, AddressingModes::Implicit, opc),
        0x8c => row(InstructionTypes::STY, 4, AddressingModes::Absolute, opc),
        0x8d => row(InstructionTypes::STA, 4, AddressingModes::Absolute, opc),
        0x8e => row(InstructionTypes::STX, 4, AddressingModes::Absolute, opc),
        0x8f => row(InstructionTypes::SAX, 4, AddressingModes::Absolute, opc),
        0x90 => row(InstructionTypes::BCC, 2, AddressingModes::Relative, opc),
        0x91 => row(InstructionTypes::STA, 6, AddressingModes::IndirectY, opc),
        0x94 => row(InstructionTypes::STY, 4, AddressingModes::ZeroPageX, opc),
        0x95 => row(InstructionTypes::STA, 4, AddressingModes::ZeroPageX, opc),
        0x96 => row(InstructionTypes::STX, 4, AddressingModes::ZeroPageY, opc),
        0x97 => row(InstructionTypes::SAX, 4, AddressingModes::ZeroPageY, opc),
        0x98 => row(InstructionTypes::TYA, 2, AddressingModes::Implicit, opc),
        0x99 => row(InstructionTypes::STA, 5, AddressingModes::AbsoluteY, opc),
        0x9a => row(InstructionTypes::TXS, 2, AddressingModes::Implicit, opc),
        0x9d => row(InstructionTypes::STA, 5, AddressingModes::AbsoluteX, opc),
        0xa0 => row(InstructionTypes::LDY, 2, AddressingModes::Immediate, opc),
        0xa1 => row(InstructionTypes::LDA, 6, AddressingModes::IndirectX, opc),
        0xa2 => row(InstructionTypes::LDX, 2, AddressingModes::Immediate, opc),
        0xa3 => row(InstructionTypes::LAX, 6, AddressingModes::IndirectX, opc),
        0xa4 => row(InstructionTypes::LDY, 3, AddressingModes::ZeroPage, opc),
        0xa5 => row(InstructionTypes::LDA, 3, AddressingModes::ZeroPage, opc),
        0xa6 => row(InstructionTypes::LDX, 3, AddressingModes::ZeroPage, opc),
        0xa7 => row(InstructionTypes::LAX, 3, AddressingModes::ZeroPage, opc),
        0xa8 => row(InstructionTypes::TAY, 2, AddressingModes::Implicit, opc),
        0xa9 => row(InstructionTypes::LDA, 2, AddressingModes::Immediate, opc),
        0xaa => row(InstructionTypes::TAX, 2, AddressingModes::Implicit, opc),
        0xac => row(InstructionTypes::LDY, 4, AddressingModes::Absolute, opc),
        0xad => row(InstructionTypes::LDA, 4, AddressingModes::Absolute, opc),
        0xae => row(InstructionTypes::LDX, 4, AddressingModes::Absolute, opc),
        0xaf => row(InstructionTypes::LAX, 4, AddressingModes::Absolute, opc),
        0xb0 => row(InstructionTypes::BCS, 2, AddressingModes::Relative, opc),
        0xb1 => row(InstructionTypes::LDA, 5, AddressingModes::IndirectY, opc),
        0xb3 => row(InstructionTypes::LAX, 5, AddressingModes::IndirectY, opc),
        0xb4 => row(InstructionTypes::LDY, 4, AddressingModes::ZeroPageX, opc),
        0xb5 => row(InstructionTypes::LDA, 4, AddressingModes::ZeroPageX, opc),
        0xb6 => row(InstructionTypes::LDX, 4, AddressingModes::ZeroPageY, opc),
        0xb7 => row(InstructionTypes::LAX, 4, AddressingModes::ZeroPageY, opc),
        0xb8 => row(InstructionTypes::CLV, 2, AddressingModes::Implicit, opc),
        0xb9 => row(InstructionTypes::LDA, 4, AddressingModes::AbsoluteY, opc),
        0xba => row(InstructionTypes::TSX, 2, AddressingModes::Implicit, opc),
        0xbc => row(InstructionTypes::LDY, 4, AddressingModes::AbsoluteX, opc),
        0xbd => row(InstructionTypes::LDA, 4, AddressingModes::AbsoluteX, opc),
        0xbe => row(InstructionTypes::LDX, 4, AddressingModes::AbsoluteY, opc),
        0xbf => row(InstructionTypes::LAX, 4, AddressingModes::AbsoluteY, opc),
        0xc0 => row(InstructionTypes::CPY, 2, AddressingModes::Immediate, opc),
        0xc1 => row(InstructionTypes::CMP, 6, AddressingModes::IndirectX, opc),
        0xc2 => row(InstructionTypes::NOP, 2, AddressingModes::Immediate, opc),
        0xc3 => row(InstructionTypes::DCP, 8, AddressingModes::IndirectX, opc),
        0xc4 => row(InstructionTypes::CPY, 3, AddressingModes::ZeroPage, opc),
        0xc5 => row(InstructionTypes::CMP, 3, AddressingModes::ZeroPage, opc),
        0xc6 => row(InstructionTypes::DEC, 5, AddressingModes::ZeroPage, opc),
        0xc7 => row(InstructionTypes::DCP, 5, AddressingModes::ZeroPage, opc),
        0xc8 => row(InstructionTypes::INY, 2, AddressingModes::Implicit, opc),
        0xc9 => row(InstructionTypes::CMP, 2, AddressingModes::Immediate, opc),
        0xca => row(InstructionTypes::DEX, 2, AddressingModes::Implicit, opc),
        0xcc => row(InstructionTypes::CPY, 4, AddressingModes::Absolute, opc),
        0xcd => row(InstructionTypes::CMP, 4, AddressingModes::Absolute, opc),
        0xce => row(InstructionTypes::DEC, 6, AddressingModes::Absolute, opc),
        0xcf => row(InstructionTypes::DCP, 6, AddressingModes::Absolute, opc),
        0xd0 => row(InstructionTypes::BNE, 2, AddressingModes::Relative, opc),
        0xd1 => row(InstructionTypes::CMP, 5, AddressingModes::IndirectY, opc),
        0xd3 => row(InstructionTypes::DCP, 8, AddressingModes::IndirectY, opc),
        0xd4 => row(InstructionTypes::NOP, 4, AddressingModes::ZeroPageX, opc),
        0xd5 => row(InstructionTypes::CMP, 4, AddressingModes::ZeroPageX, opc),
        0xd6 => row(InstructionTypes::DEC, 6, AddressingModes::ZeroPageX, opc),
        0xd7 => row(InstructionTypes::DCP, 6, AddressingModes::ZeroPageX, opc),
        0xd8 => row(InstructionTypes::CLD, 2, AddressingModes::Implicit, opc),
        0xd9 => row(InstructionTypes::CMP, 4, AddressingModes::AbsoluteY, opc),
        0xda => row(InstructionTypes::NOP, 2, AddressingModes::Empty, opc),
        0xdb => row(InstructionTypes::DCP, 7, AddressingModes::AbsoluteY, opc),
        0xdc => row(InstructionTypes::NOP, 4, AddressingModes::AbsoluteX, opc),
        0xdd => row(InstructionTypes::CMP, 4, AddressingModes::AbsoluteX, opc),
        0xde => row(InstructionTypes::DEC, 7, AddressingModes::AbsoluteX, opc),
        0xdf => row(InstructionTypes::DCP, 7, AddressingModes::AbsoluteX, opc),
        0xe0 => row(InstructionTypes::CPX, 2, AddressingModes::Immediate, opc),
        0xe1 => row(InstructionTypes::SBC, 6, AddressingModes::IndirectX, opc),
        0xe2 => row(InstructionTypes::NOP, 2, AddressingModes::Immediate, opc),
        0xe3 => row(InstructionTypes::ISB, 8, AddressingModes::IndirectX, opc),
        0xe4 => row(InstructionTypes::CPX, 3, AddressingModes::ZeroPage, opc),
        0xe5 => row(InstructionTypes::SBC, 3, AddressingModes::ZeroPage, opc),
        0xe6 => row(InstructionTypes::INC, 5, AddressingModes::ZeroPage, opc),
        0xe7 => row(InstructionTypes::ISB, 5, AddressingModes::ZeroPage, opc),
        0xe8 => row(InstructionTypes::INX, 2, AddressingModes::Implicit, opc),
        0xe9 => row(InstructionTypes::SBC, 2, AddressingModes::Immediate, opc),
        0xea => row(InstructionTypes::NOP, 2, AddressingModes::Empty, opc),
        0xeb => row(InstructionTypes::SBC, 2, AddressingModes::Immediate, opc),
        0xec => row(InstructionTypes::CPX, 4, AddressingModes::Absolute, opc),
        0xed => row(InstructionTypes::SBC, 4, AddressingModes::Absolute, opc),
        0xee => row(InstructionTypes::INC, 6, AddressingModes::Absolute, opc),
        0xef => row(InstructionTypes::ISB, 6, AddressingModes::Absolute, opc),
        0xf0 => row(InstructionTypes::BEQ, 2, AddressingModes::Relative, opc),
        0xf1 => row(InstructionTypes::SBC, 5, AddressingModes::IndirectY, opc),
        0xf3 => row(InstructionTypes::ISB, 8, AddressingModes::IndirectY, opc),
        0xf4 => row(InstructionTypes::NOP, 4, AddressingModes::ZeroPageX, opc),
        0xf5 => row(InstructionTypes::SBC, 4, AddressingModes::ZeroPageX, opc),
        0xf6 => row(InstructionTypes::INC, 6, AddressingModes::ZeroPageX, opc),
        0xf7 => row(InstructionTypes::ISB, 6, AddressingModes::ZeroPageX, opc),
        0xf8 => row(InstructionTypes::SED, 2, AddressingModes::Implicit, opc),
        0xf9 => row(InstructionTypes::SBC, 4, AddressingModes::AbsoluteY, opc),
        0xfa => row(InstructionTypes::NOP, 2, AddressingModes::Empty, opc),
        0xfb => row(InstructionTypes::ISB, 7, AddressingModes::AbsoluteY, opc),
        0xfc => row(InstructionTypes::NOP, 4, AddressingModes::AbsoluteX, opc),
        0xfd => row(InstructionTypes::SBC, 4, AddressingModes::AbsoluteX, opc),
        0xfe => row(InstructionTypes::INC, 7, AddressingModes::AbsoluteX, opc),
        0xff => row(InstructionTypes::ISB, 7, AddressingModes::AbsoluteX, opc),
        _ => Err(NesError::IllegalOpcode(opc)),
    }
}

} // verus!
