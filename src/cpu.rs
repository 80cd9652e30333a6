//! The 6502 interpreter: fetch, decode, execute, interrupts and the clock.
use vstd::prelude::*;
use crate::bus::BUS;
use crate::consts::{IRQ_ADDR, NMI_ADDR, RESET_ADDR};
use crate::error::NesError;
use crate::memory::{cpu_mem_init, CpuMemView, CpuMemory};
use crate::opcodes::{operation, AddressingModes, InstructionTypes, Operation};
use crate::ppu::PPU;
use crate::register::{flag_mask, with_flag, Flags, Register, RegisterWork};
use crate::rom::ROM;
use crate::semantics::{
    alu, alu_spec, branch_cond, branch_cost, charged, lemma_cycle_cost, page_cross_cost, branch_spec, carry_in, combo_spec, compare_p, do_adc,
    exec_spec, fetch, fetch_word, get_addr_spec, get_data_spec, implied_spec, interrupt_spec,
    is_alu, is_branch, is_combo, is_jump, is_load, is_shift, is_store, jump_spec, load_spec,
    outcome, pop, pop_word, push, push_word, rd, rd_word, reset_spec, shift_op, shift_spec,
    step_mem_spec, step_spec, store_spec, wr, zn, CpuView,
};

verus! {

/// One clock tick: the deferred-cycle counter runs down, and when it reaches
/// zero the next instruction executes.
pub open spec fn clock_spec(c: CpuView) -> Result<CpuView, NesError> {
    let d = if c.defer > 0 { (c.defer - 1) as u64 } else { 0 };
    let c1 = CpuView { now: c.now.wrapping_add(1), defer: d, ..c };
    if d == 0 { step_spec(c1) } else { Ok(c1) }
}

/// `n` clock ticks, stopping at the first error.
pub open spec fn run_spec(c: CpuView, n: nat) -> Result<CpuView, NesError>
    decreases n,
{
    if n == 0 {
        Ok(c)
    } else {
        match clock_spec(c) {
            Ok(c1) => run_spec(c1, (n - 1) as nat),
            Err(e) => Err(e),
        }
    }
}

pub open spec fn cpu_init() -> CpuView {
    CpuView { pc: 0, a: 0, x: 0, y: 0, sp: 0xFD, p: 0x24, defer: 0, now: 0, mem: cpu_mem_init() }
}

/// The processor: registers, bus and cycle counters.
#[derive(Debug)]
pub struct CPU {
    pub program_counter: Register<u16>,
    pub register_a: Register<u8>,
    pub register_x: Register<u8>,
    pub register_y: Register<u8>,
    pub register_sp: Register<u8>,
    pub register_p: Register<u8>,
    pub mem: CpuMemory,
    pub defer_cycles: u64,
    pub now_cycles: u64,
}

impl View for CPU {
    type V = CpuView;

    open spec fn view(&self) -> CpuView {
        CpuView {
            pc: self.program_counter.data,
            a: self.register_a.data,
            x: self.register_x.data,
            y: self.register_y.data,
            sp: self.register_sp.data,
            p: self.register_p.data,
            defer: self.defer_cycles,
            now: self.now_cycles,
            mem: self.mem@,
        }
    }
}

impl CPU {
    pub open spec fn wf(&self) -> bool {
        self@.mem.wf()
    }

    pub fn new() -> (r: Self)
        ensures
            r.wf(),
            r@ == cpu_init(),
    {
        CPU {
            program_counter: Register::<u16>::new(),
            register_a: Register::<u8>::new(),
            register_x: Register::<u8>::new(),
            register_y: Register::<u8>::new(),
            register_sp: Register::<u8>::new_with_data(0xfd),
            register_p: Register::<u8>::new_with_data(0x24),
            mem: CpuMemory::new(),
            defer_cycles: 0,
            now_cycles: 0,
        }
    }

    /// Inserts the cartridge whose image is `data`.
    pub fn load_rom(&mut self, data: Vec<u8>) -> (r: Result<(), NesError>)
        requires
            old(self).wf(),
        ensures
            final(self).wf(),
            r is Ok <==> crate::rom::loadable(data@),
            r is Ok ==> final(self)@ == (CpuView {
                mem: CpuMemView { rom: Some(crate::rom::rom_of(data@)), ..old(self)@.mem },
                ..old(self)@
            }),
            r is Err ==> r == Err::<(), NesError>(NesError::UnsupportedFormat) && final(self)@
                == old(self)@,
    {
        let rom = ROM::new(data)?;
        self.mem.rom = Some(rom);
        Ok(())
    }

    /// Connects the PPU, whose registers then answer at `$2000..$3FFF`.
    pub fn load_bus(&mut self, ppu: PPU)
        requires
            old(self).wf(),
            ppu.wf(),
        ensures
            final(self).wf(),
            final(self)@ == (CpuView {
                mem: CpuMemView { ppu: Some(ppu@), ..old(self)@.mem },
                ..old(self)@
            }),
    {
        self.mem.bus = Some(BUS::new(ppu));
    }

    /// The PPU on the bus, if one is connected.
    pub fn ppu(&self) -> (r: Option<&PPU>)
        ensures
            match r {
                Some(p) => self@.mem.ppu == Some(p@),
                None => self@.mem.ppu is None,
            },
    {
        match &self.mem.bus {
            Some(b) => Some(&b.ppu),
            None => None,
        }
    }

    pub fn pc(&self) -> (r: u16)
        ensures
            r == self@.pc,
    {
        self.program_counter.data()
    }

    pub fn set_pc(&mut self, pc: u16)
        ensures
            final(self)@ == (CpuView { pc, ..old(self)@ }),
    {
        self.program_counter.set_data(pc);
    }

    pub fn a(&self) -> (r: u8)
        ensures
            r == self@.a,
    {
        self.register_a.data
    }

    pub fn x(&self) -> (r: u8)
        ensures
            r == self@.x,
    {
        self.register_x.data
    }

    pub fn y(&self) -> (r: u8)
        ensures
            r == self@.y,
    {
        self.register_y.data
    }

    pub fn sp(&self) -> (r: u8)
        ensures
            r == self@.sp,
    {
        self.register_sp.data
    }

    pub fn status(&self) -> (r: u8)
        ensures
            r == self@.p,
    {
        self.register_p.data
    }

    /// Sets A, X, Y and P, as a host or a test prepares a state.
    pub fn set_registers(&mut self, a: u8, x: u8, y: u8, p: u8)
        ensures
            final(self)@ == (CpuView { a, x, y, p, ..old(self)@ }),
    {
        self.register_a.data = a;
        self.register_x.data = x;
        self.register_y.data = y;
        self.register_p.data = p;
    }

    /// Cycles still owed by the instructions executed so far.
    pub fn deferred_cycles(&self) -> (r: u64)
        ensures
            r == self@.defer,
    {
        self.defer_cycles
    }

    /// Clock ticks seen.
    pub fn cycles(&self) -> (r: u64)
        ensures
            r == self@.now,
    {
        self.now_cycles
    }

    // ---- bus access ----

    /// Reads the byte at `addr`.
    pub fn read(&mut self, addr: u16) -> (r: Result<u8, NesError>)
        requires
            old(self).wf(),
        ensures
            final(self).wf(),
            match rd(old(self)@, addr) {
                Ok((v, c)) => r == Ok::<u8, NesError>(v) && final(self)@ == c,
                Err(e) => r == Err::<u8, NesError>(e),
            },
    {
        self.mem.read(addr)
    }

    /// Writes `v` at `addr`.
    pub fn write(&mut self, addr: u16, v: u8) -> (r: Result<(), NesError>)
        requires
            old(self).wf(),
        ensures
            final(self).wf(),
            outcome(wr(old(self)@, addr, v), r, final(self)@),
    {
        self.mem.storeb(addr, v)
    }

    fn read_word(&mut self, addr: u16) -> (r: Result<u16, NesError>)
        requires
            old(self).wf(),
        ensures
            final(self).wf(),
            match rd_word(old(self)@, addr) {
                Ok((v, c)) => r == Ok::<u16, NesError>(v) && final(self)@ == c,
                Err(e) => r == Err::<u16, NesError>(e),
            },
    {
        let mut a = addr;
        self.mem.loadw(&mut a)
    }

    fn fetch(&mut self) -> (r: Result<u8, NesError>)
        requires
            old(self).wf(),
        ensures
            final(self).wf(),
            match fetch(old(self)@) {
                Ok((v, c)) => r == Ok::<u8, NesError>(v) && final(self)@ == c,
                Err(e) => r == Err::<u8, NesError>(e),
            },
    {
        let mut pc = self.program_counter.data;
        let r = self.mem.loadb(&mut pc);
        self.program_counter.data = pc;
        r
    }

    fn fetch_word(&mut self) -> (r: Result<u16, NesError>)
        requires
            old(self).wf(),
        ensures
            final(self).wf(),
            match fetch_word(old(self)@) {
                Ok((v, c)) => r == Ok::<u16, NesError>(v) && final(self)@ == c,
                Err(e) => r == Err::<u16, NesError>(e),
            },
    {
        let lo = self.fetch()? as u16;
        let hi = self.fetch()? as u16;
        Ok(hi * 256 + lo)
    }

    fn push(&mut self, v: u8)
        requires
            old(self).wf(),
        ensures
            final(self).wf(),
            final(self)@ == push(old(self)@, v),
    {
        self.register_sp.stack_push_byte(&mut self.mem, v);
    }

    fn push_word(&mut self, v: u16)
        requires
            old(self).wf(),
        ensures
            final(self).wf(),
            final(self)@ == push_word(old(self)@, v),
    {
        self.register_sp.stack_push_word(&mut self.mem, v);
    }

    fn pop(&mut self) -> (r: u8)
        requires
            old(self).wf(),
        ensures
            final(self).wf(),
            (r, final(self)@) == pop(old(self)@),
    {
        self.register_sp.stack_pop_byte(&mut self.mem)
    }

    fn pop_word(&mut self) -> (r: u16)
        requires
            old(self).wf(),
        ensures
            final(self).wf(),
            (r, final(self)@) == pop_word(old(self)@),
    {
        self.register_sp.stack_pop_word(&mut self.mem)
    }

    // ---- addressing ----

    /// The operand's effective address; indexed modes that cross a page
    /// charge one more cycle where the opcode's base cost does not cover it.
    pub fn get_addr(&mut self, op: &Operation) -> (r: Result<u16, NesError>)
        requires
            old(self).wf(),
        ensures
            final(self).wf(),
            match get_addr_spec(old(self)@, *op) {
                Ok((a, c)) => r == Ok::<u16, NesError>(a) && final(self)@ == c,
                Err(e) => r == Err::<u16, NesError>(e),
            },
    {
        match op.addressing_mode {
            AddressingModes::Immediate | AddressingModes::Relative => {
                let a = self.program_counter.data;
                self.program_counter.data = a.wrapping_add(1);
                Ok(a)
            },
            AddressingModes::ZeroPage => Ok(self.fetch()? as u16),
            AddressingModes::ZeroPageX => {
                let b = self.fetch()?;
                Ok(b.wrapping_add(self.register_x.data) as u16)
            },
            AddressingModes::ZeroPageY => {
                let b = self.fetch()?;
                Ok(b.wrapping_add(self.register_y.data) as u16)
            },
            AddressingModes::Absolute => self.fetch_word(),
            AddressingModes::AbsoluteX | AddressingModes::AbsoluteY => {
                let base = self.fetch_word()?;
                let index = if op.addressing_mode == AddressingModes::AbsoluteX {
                    self.register_x.data
                } else {
                    self.register_y.data
                };
                let a = base.wrapping_add(index as u16);
                if base / 256 != a / 256 && op.cycle <= 4 {
                    self.defer_cycles = self.defer_cycles.wrapping_add(1);
                }
                Ok(a)
            },
            AddressingModes::Indirect => {
                let ptr = self.fetch_word()?;
                let lo = self.read(ptr)? as u16;
                let hi = self.read((ptr & 0xFF00) | (ptr.wrapping_add(1) & 0x00FF))? as u16;
                Ok(hi * 256 + lo)
            },
            AddressingModes::IndirectX => {
                let b = self.fetch()?;
                let ptr = b.wrapping_add(self.register_x.data);
                let lo = self.read(ptr as u16)? as u16;
                let hi = self.read(ptr.wrapping_add(1) as u16)? as u16;
                Ok(hi * 256 + lo)
            },
            AddressingModes::IndirectY => {
                let b = self.fetch()?;
                let lo = self.read(b as u16)? as u16;
                let hi = self.read(b.wrapping_add(1) as u16)? as u16;
                let base = hi * 256 + lo;
                let a = base.wrapping_add(self.register_y.data as u16);
                if base / 256 != a / 256 && op.cycle <= 5 {
                    self.defer_cycles = self.defer_cycles.wrapping_add(1);
                }
                Ok(a)
            },
            _ => Ok(0),
        }
    }

    /// The operand's value.
    pub fn get_data(&mut self, op: &Operation) -> (r: Result<u8, NesError>)
        requires
            old(self).wf(),
        ensures
            final(self).wf(),
            match get_data_spec(old(self)@, *op) {
                Ok((v, c)) => r == Ok::<u8, NesError>(v) && final(self)@ == c,
                Err(e) => r == Err::<u8, NesError>(e),
            },
    {
        match op.addressing_mode {
            AddressingModes::Accumulator => Ok(self.register_a.data),
            AddressingModes::Implicit | AddressingModes::Empty => Ok(0),
            _ => {
                let a = self.get_addr(op)?;
                self.read(a)
            },
        }
    }

    // ---- flags and arithmetic ----

    fn set_zn(&mut self, val: u8)
        ensures
            final(self)@ == (CpuView { p: zn(old(self)@.p, val), ..old(self)@ }),
    {
        self.register_p.set_flag(Flags::Z, val == 0);
        self.register_p.set_flag(Flags::N, (val & 0x80) != 0);
    }

    fn set_flag(&mut self, flag: Flags, on: bool)
        ensures
            final(self)@ == (CpuView { p: with_flag(old(self)@.p, flag_mask(flag), on), ..old(self)@ }),
    {
        self.register_p.set_flag(flag, on);
    }

    fn carry(&self) -> (r: u8)
        ensures
            r == carry_in(self@.p),
            r <= 1,
    {
        if self.register_p.check_flag(Flags::C) {
            1
        } else {
            0
        }
    }

    fn add_with_carry(&mut self, m: u8)
        ensures
            final(self)@ == do_adc(old(self)@, m),
    {
        let a = self.register_a.data;
        let sum: u16 = a as u16 + m as u16 + self.carry() as u16;
        let res = (sum % 256) as u8;
        self.set_flag(Flags::C, sum > 0xFF);
        self.set_flag(Flags::V, (a ^ res) & (m ^ res) & 0x80 != 0);
        self.set_zn(res);
        self.register_a.data = res;
    }

    fn compare(&mut self, r: u8, m: u8)
        ensures
            final(self)@ == (CpuView { p: compare_p(old(self)@.p, r, m), ..old(self)@ }),
    {
        self.set_flag(Flags::C, r >= m);
        self.set_zn(r.wrapping_sub(m));
    }

    fn shift_value(t: InstructionTypes, v: u8, cin: u8) -> (r: (u8, bool))
        requires
            cin <= 1,
        ensures
            r == shift_op(t, v, cin),
    {
        match t {
            InstructionTypes::ASL => (((v as u16 * 2) % 256) as u8, v >= 128),
            InstructionTypes::ROL => (((v as u16 * 2) % 256 + cin as u16) as u8, v >= 128),
            InstructionTypes::ROR => ((v / 2 + cin * 128) as u8, v % 2 == 1),
            _ => (v / 2, v % 2 == 1),
        }
    }

    // ---- instruction groups ----

    fn load(&mut self, op: &Operation) -> (r: Result<(), NesError>)
        requires
            old(self).wf(),
            is_load(op.instruction_type),
        ensures
            final(self).wf(),
            outcome(load_spec(old(self)@, *op), r, final(self)@),
    {
        let v = self.get_data(op)?;
        match op.instruction_type {
            InstructionTypes::LDX => {
                self.register_x.data = v;
            },
            InstructionTypes::LDY => {
                self.register_y.data = v;
            },
            InstructionTypes::LAX => {
                self.register_a.data = v;
                self.register_x.data = v;
            },
            _ => {
                self.register_a.data = v;
            },
        }
        self.set_zn(v);
        Ok(())
    }

    fn store(&mut self, op: &Operation) -> (r: Result<(), NesError>)
        requires
            old(self).wf(),
            is_store(op.instruction_type),
        ensures
            final(self).wf(),
            outcome(store_spec(old(self)@, *op), r, final(self)@),
    {
        let addr = self.get_addr(op)?;
        let v = match op.instruction_type {
            InstructionTypes::STX => self.register_x.data,
            InstructionTypes::STY => self.register_y.data,
            InstructionTypes::SAX => self.register_a.data & self.register_x.data,
            _ => self.register_a.data,
        };
        self.write(addr, v)
    }

    fn alu_with(&mut self, t: InstructionTypes, m: u8)
        ensures
            final(self)@ == alu(old(self)@, t, m),
    {
        match t {
            InstructionTypes::AND => {
                self.register_a.data = self.register_a.data & m;
                self.set_zn(self.register_a.data);
            },
            InstructionTypes::ORA => {
                self.register_a.data = self.register_a.data | m;
                self.set_zn(self.register_a.data);
            },
            InstructionTypes::EOR => {
                self.register_a.data = self.register_a.data ^ m;
                self.set_zn(self.register_a.data);
            },
            InstructionTypes::ADC => self.add_with_carry(m),
            InstructionTypes::SBC => self.add_with_carry(m ^ 0xFF),
            InstructionTypes::CPX => self.compare(self.register_x.data, m),
            InstructionTypes::CPY => self.compare(self.register_y.data, m),
            InstructionTypes::BIT => {
                self.set_flag(Flags::Z, self.register_a.data & m == 0);
                self.set_flag(Flags::N, m & 0x80 != 0);
                self.set_flag(Flags::V, m & 0x40 != 0);
            },
            _ => self.compare(self.register_a.data, m),
        }
    }

    fn alu(&mut self, op: &Operation) -> (r: Result<(), NesError>)
        requires
            old(self).wf(),
            is_alu(op.instruction_type),
        ensures
            final(self).wf(),
            outcome(alu_spec(old(self)@, *op), r, final(self)@),
    {
        let m = self.get_data(op)?;
        self.alu_with(op.instruction_type, m);
        Ok(())
    }

    fn shift(&mut self, op: &Operation) -> (r: Result<(), NesError>)
        requires
            old(self).wf(),
            is_shift(op.instruction_type),
        ensures
            final(self).wf(),
            outcome(shift_spec(old(self)@, *op), r, final(self)@),
    {
        if op.addressing_mode == AddressingModes::Accumulator {
            let (res, cout) = Self::shift_value(
                op.instruction_type,
                self.register_a.data,
                self.carry(),
            );
            self.set_zn(res);
            self.set_flag(Flags::C, cout);
            self.register_a.data = res;
            Ok(())
        } else {
            let addr = self.get_addr(op)?;
            let v = self.read(addr)?;
            let (res, cout) = Self::shift_value(op.instruction_type, v, self.carry());
            self.set_zn(res);
            self.set_flag(Flags::C, cout);
            self.write(addr, res)
        }
    }

    fn step_mem(&mut self, op: &Operation) -> (r: Result<(), NesError>)
        requires
            old(self).wf(),
            op.instruction_type == InstructionTypes::INC || op.instruction_type
                == InstructionTypes::DEC,
        ensures
            final(self).wf(),
            outcome(step_mem_spec(old(self)@, *op), r, final(self)@),
    {
        let addr = self.get_addr(op)?;
        let v = self.read(addr)?;
        let res = if op.instruction_type == InstructionTypes::INC {
            v.wrapping_add(1)
        } else {
            v.wrapping_sub(1)
        };
        self.set_zn(res);
        self.write(addr, res)
    }

    fn combo(&mut self, op: &Operation) -> (r: Result<(), NesError>)
        requires
            old(self).wf(),
            is_combo(op.instruction_type),
        ensures
            final(self).wf(),
            outcome(combo_spec(old(self)@, *op), r, final(self)@),
    {
        let addr = self.get_addr(op)?;
        let v = self.read(addr)?;
        match op.instruction_type {
            InstructionTypes::DCP => {
                self.write(addr, v.wrapping_sub(1))?;
                self.alu_with(InstructionTypes::CMP, v.wrapping_sub(1));
            },
            InstructionTypes::ISB => {
                self.write(addr, v.wrapping_add(1))?;
                self.alu_with(InstructionTypes::SBC, v.wrapping_add(1));
            },
            _ => {
                let kind = match op.instruction_type {
                    InstructionTypes::SLO => InstructionTypes::ASL,
                    InstructionTypes::RLA => InstructionTypes::ROL,
                    InstructionTypes::SRE => InstructionTypes::LSR,
                    _ => InstructionTypes::ROR,
                };
                let (res, cout) = Self::shift_value(kind, v, self.carry());
                self.set_flag(Flags::C, cout);
                self.write(addr, res)?;
                let then = match op.instruction_type {
                    InstructionTypes::SLO => InstructionTypes::ORA,
                    InstructionTypes::RLA => InstructionTypes::AND,
                    InstructionTypes::SRE => InstructionTypes::EOR,
                    _ => InstructionTypes::ADC,
                };
                self.alu_with(then, res);
            },
        }
        Ok(())
    }

    /// A conditional branch on `flag` being `on`.
    pub fn jmp_by_flag(&mut self, op: &Operation, flag: Flags, on: bool) -> (r: Result<(), NesError>)
        requires
            old(self).wf(),
            is_branch(op.instruction_type),
            branch_cond(op.instruction_type) == (flag, on),
        ensures
            final(self).wf(),
            outcome(branch_spec(old(self)@, *op), r, final(self)@),
    {
        let off = self.get_data(op)?;
        if self.register_p.check_flag(flag) == on {
            self.defer_cycles = self.defer_cycles.wrapping_add(1);
            let old_pc = self.program_counter.data;
            let ext: u32 = if off >= 128 { 0xFF00 } else { 0 };
            let t = ((old_pc as u32 + off as u32 + ext) % 0x10000) as u16;
            self.program_counter.data = t;
            if old_pc / 256 != t / 256 {
                self.defer_cycles = self.defer_cycles.wrapping_add(1);
            }
        }
        Ok(())
    }

    fn jump(&mut self, op: &Operation) -> (r: Result<(), NesError>)
        requires
            old(self).wf(),
            is_jump(op.instruction_type),
        ensures
            final(self).wf(),
            outcome(jump_spec(old(self)@, *op), r, final(self)@),
    {
        match op.instruction_type {
            InstructionTypes::JMP => {
                let a = self.get_addr(op)?;
                self.program_counter.data = a;
            },
            InstructionTypes::JSR => {
                let a = self.get_addr(op)?;
                self.push_word(self.program_counter.data.wrapping_sub(1));
                self.program_counter.data = a;
            },
            _ => {
                self.push_word(self.program_counter.data.wrapping_add(1));
                self.push(self.register_p.data | 0x30);
                self.register_p.data = self.register_p.data | Flags::I.mask();
                let t = self.read_word(IRQ_ADDR)?;
                self.program_counter.data = t;
            },
        }
        Ok(())
    }

    fn implied(&mut self, t: InstructionTypes)
        requires
            old(self).wf(),
        ensures
            final(self).wf(),
            final(self)@ == implied_spec(old(self)@, t),
    {
        match t {
            InstructionTypes::TAX => {
                self.register_x.data = self.register_a.data;
                self.set_zn(self.register_x.data);
            },
            InstructionTypes::TAY => {
                self.register_y.data = self.register_a.data;
                self.set_zn(self.register_y.data);
            },
            InstructionTypes::TXA => {
                self.register_a.data = self.register_x.data;
                self.set_zn(self.register_a.data);
            },
            InstructionTypes::TYA => {
                self.register_a.data = self.register_y.data;
                self.set_zn(self.register_a.data);
            },
            InstructionTypes::TSX => {
                self.register_x.data = self.register_sp.data;
                self.set_zn(self.register_x.data);
            },
            InstructionTypes::TXS => {
                self.register_sp.data = self.register_x.data;
            },
            InstructionTypes::INX => {
                self.register_x.data = self.register_x.data.wrapping_add(1);
                self.set_zn(self.register_x.data);
            },
            InstructionTypes::INY => {
                self.register_y.data = self.register_y.data.wrapping_add(1);
                self.set_zn(self.register_y.data);
            },
            InstructionTypes::DEX => {
                self.register_x.data = self.register_x.data.wrapping_sub(1);
                self.set_zn(self.register_x.data);
            },
            InstructionTypes::DEY => {
                self.register_y.data = self.register_y.data.wrapping_sub(1);
                self.set_zn(self.register_y.data);
            },
            InstructionTypes::CLC => self.set_flag(Flags::C, false),
            InstructionTypes::SEC => self.set_flag(Flags::C, true),
            InstructionTypes::CLI => self.set_flag(Flags::I, false),
            InstructionTypes::SEI => self.set_flag(Flags::I, true),
            InstructionTypes::CLD => self.set_flag(Flags::D, false),
            InstructionTypes::SED => self.set_flag(Flags::D, true),
            InstructionTypes::CLV => self.set_flag(Flags::V, false),
            InstructionTypes::PHA => self.push(self.register_a.data),
            InstructionTypes::PHP => self.push(self.register_p.data | 0x30),
            InstructionTypes::PLA => {
                let v = self.pop();
                self.register_a.data = v;
                self.set_zn(v);
            },
            InstructionTypes::PLP => {
                let v = self.pop();
                self.register_p.data = (v | 0x20) & 0xEF;
            },
            InstructionTypes::RTS => {
                let v = self.pop_word();
                self.program_counter.data = v.wrapping_add(1);
            },
            _ => {
                let v = self.pop();
                self.register_p.data = (v | 0x20) & 0xEF;
                let pc = self.pop_word();
                self.program_counter.data = pc;
            },
        }
    }

    // ---- dispatch, clock and interrupts ----

    /// Charges the base cost of `op`, then executes it. The cycles it adds
    /// are the base cost, the page-cross penalty and the branch penalty.
    pub fn exec(&mut self, op: &Operation) -> (r: Result<(), NesError>)
        requires
            old(self).wf(),
        ensures
            final(self).wf(),
            outcome(
                exec_spec(
                    CpuView { defer: old(self)@.defer.wrapping_add(op.cycle as u64), ..old(self)@ },
                    *op,
                ),
                r,
                final(self)@,
            ),
            r is Ok ==> final(self)@.defer == ((old(self)@.defer as int + op.cycle
                + page_cross_cost(old(self)@, *op) + branch_cost(old(self)@, *op))
                % 0x1_0000_0000_0000_0000) as u64,
    {
        proof {
            lemma_cycle_cost(self@, *op);
            assert(charged(self@, *op) == CpuView {
                defer: self@.defer.wrapping_add(op.cycle as u64),
                ..self@
            });
        }
        self.defer_cycles = self.defer_cycles.wrapping_add(op.cycle as u64);
        match op.instruction_type {
            InstructionTypes::LDA | InstructionTypes::LDX | InstructionTypes::LDY
            | InstructionTypes::LAX => self.load(op),
            InstructionTypes::STA | InstructionTypes::STX | InstructionTypes::STY
            | InstructionTypes::SAX => self.store(op),
            InstructionTypes::AND | InstructionTypes::ORA | InstructionTypes::EOR
            | InstructionTypes::ADC | InstructionTypes::SBC | InstructionTypes::CMP
            | InstructionTypes::CPX | InstructionTypes::CPY | InstructionTypes::BIT => self.alu(op),
            InstructionTypes::ASL | InstructionTypes::LSR | InstructionTypes::ROL
            | InstructionTypes::ROR => self.shift(op),
            InstructionTypes::INC | InstructionTypes::DEC => self.step_mem(op),
            InstructionTypes::DCP | InstructionTypes::ISB | InstructionTypes::SLO
            | InstructionTypes::RLA | InstructionTypes::SRE | InstructionTypes::RRA => self.combo(op),
            InstructionTypes::BCC => self.jmp_by_flag(op, Flags::C, false),
            InstructionTypes::BCS => self.jmp_by_flag(op, Flags::C, true),
            InstructionTypes::BEQ => self.jmp_by_flag(op, Flags::Z, true),
            InstructionTypes::BNE => self.jmp_by_flag(op, Flags::Z, false),
            InstructionTypes::BMI => self.jmp_by_flag(op, Flags::N, true),
            InstructionTypes::BPL => self.jmp_by_flag(op, Flags::N, false),
            InstructionTypes::BVC => self.jmp_by_flag(op, Flags::V, false),
            InstructionTypes::BVS => self.jmp_by_flag(op, Flags::V, true),
            InstructionTypes::JMP | InstructionTypes::JSR | InstructionTypes::BRK => self.jump(op),
            InstructionTypes::NOP => {
                self.get_data(op)?;
                Ok(())
            },
            _ => {
                self.implied(op.instruction_type);
                Ok(())
            },
        }
    }

    /// Fetches the opcode at PC, decodes it and executes it.
    pub fn step(&mut self) -> (r: Result<(), NesError>)
        requires
            old(self).wf(),
        ensures
            final(self).wf(),
            outcome(step_spec(old(self)@), r, final(self)@),
    {
        reveal(step_spec);
        let opc = self.fetch()?;
        let op = operation(opc)?;
        self.exec(&op)
    }

    /// One clock tick.
    pub fn clock(&mut self) -> (r: Result<(), NesError>)
        requires
            old(self).wf(),
        ensures
            final(self).wf(),
            outcome(clock_spec(old(self)@), r, final(self)@),
    {
        self.now_cycles = self.now_cycles.wrapping_add(1);
        if self.defer_cycles > 0 {
            self.defer_cycles -= 1;
        }
        if self.defer_cycles == 0 {
            self.step()
        } else {
            Ok(())
        }
    }

    fn interrupt(&mut self, vector: u16) -> (r: Result<(), NesError>)
        requires
            old(self).wf(),
        ensures
            final(self).wf(),
            outcome(interrupt_spec(old(self)@, vector), r, final(self)@),
    {
        self.push_word(self.program_counter.data);
        self.push((self.register_p.data | 0x20) & 0xEF);
        self.register_p.data = self.register_p.data | Flags::I.mask();
        let t = self.read_word(vector)?;
        self.program_counter.data = t;
        self.defer_cycles = self.defer_cycles.wrapping_add(7);
        Ok(())
    }

    /// A maskable interrupt request: ignored while I is set.
    pub fn irq(&mut self) -> (r: Result<(), NesError>)
        requires
            old(self).wf(),
        ensures
            final(self).wf(),
            old(self)@.p & flag_mask(Flags::I) != 0 ==> r is Ok && final(self)@ == old(self)@,
            old(self)@.p & flag_mask(Flags::I) == 0 ==> outcome(
                interrupt_spec(old(self)@, 0xFFFE),
                r,
                final(self)@,
            ),
    {
        if self.register_p.check_flag(Flags::I) {
            return Ok(());
        }
        self.interrupt(IRQ_ADDR)
    }

    /// A non-maskable interrupt.
    pub fn nmi(&mut self) -> (r: Result<(), NesError>)
        requires
            old(self).wf(),
        ensures
            final(self).wf(),
            outcome(interrupt_spec(old(self)@, 0xFFFA), r, final(self)@),
    {
        self.interrupt(NMI_ADDR)
    }

    /// The reset sequence.
    pub fn reset(&mut self) -> (r: Result<(), NesError>)
        requires
            old(self).wf(),
        ensures
            final(self).wf(),
            outcome(reset_spec(old(self)@), r, final(self)@),
    {
        self.register_a.set_data(0);
        self.register_x.set_data(0);
        self.register_y.set_data(0);
        self.register_sp.set_data(0xfd);
        self.register_p.set_data(0x24);
        let t = self.read_word(RESET_ADDR)?;
        self.program_counter.set_data(t);
        self.defer_cycles = self.defer_cycles.wrapping_add(7);
        Ok(())
    }

    /// Services the interrupt lines the host raised before this clock
    /// boundary, highest priority first: reset, then NMI, then IRQ.
    pub fn service_interrupts(&mut self, reset: bool, nmi: bool, irq: bool) -> (r: Result<(), NesError>)
        requires
            old(self).wf(),
        ensures
            final(self).wf(),
            reset ==> outcome(reset_spec(old(self)@), r, final(self)@),
            !reset && nmi ==> outcome(interrupt_spec(old(self)@, 0xFFFA), r, final(self)@),
            !reset && !nmi && irq && old(self)@.p & flag_mask(Flags::I) == 0 ==> outcome(
                interrupt_spec(old(self)@, 0xFFFE),
                r,
                final(self)@,
            ),
            !reset && !nmi && (!irq || old(self)@.p & flag_mask(Flags::I) != 0) ==> r is Ok
                && final(self)@ == old(self)@,
    {
        if reset {
            self.reset()
        } else if nmi {
            self.nmi()
        } else if irq {
            self.irq()
        } else {
            Ok(())
        }
    }

    /// Starts at `$C000` with the cycle count at 6, as the automated mode of
    /// the common CPU test ROMs expects, and runs `clocks` ticks, stopping at
    /// the first error.
    pub fn run(&mut self, clocks: u64) -> (r: Result<(), NesError>)
        requires
            old(self).wf(),
        ensures
            final(self).wf(),
            outcome(
                run_spec(CpuView { pc: 0xC000, now: 6, ..old(self)@ }, clocks as nat),
                r,
                final(self)@,
            ),
    {
        let ghost initial = self@;
        self.program_counter.set_data(0xC000);
        self.now_cycles = 6;
        let ghost start = self@;
        assert(start == CpuView { pc: 0xC000, now: 6, ..initial });
        let mut i: u64 = 0;
        while i < clocks
            invariant
                self.wf(),
                i <= clocks,
                start == (CpuView { pc: 0xC000, now: 6, ..initial }),
                initial == old(self)@,
                run_spec(start, clocks as nat) == run_spec(self@, (clocks - i) as nat),
            decreases clocks - i,
        {
            let ghost before = self@;
            let r = self.clock();
            if let Err(e) = r {
                assert(run_spec(before, (clocks - i) as nat) == Err::<CpuView, NesError>(e));
                return Err(e);
            }
            i += 1;
        }
        Ok(())
    }
}

} // verus!
