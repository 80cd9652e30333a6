use vstd::prelude::*;
use crate::consts::STACK_BASE;
use crate::memory::{CpuMemView, CpuMemory};

verus! {

/// The status-register flags, by bit position C=0 .. N=7.
#[derive(Debug, Clone, Copy, PartialEq, Eq, Structural)]
pub enum Flags {
    C,
    Z,
    I,
    D,
    B,
    U,
    V,
    N,
}

/// The one-bit mask of a flag.
pub open spec fn flag_mask(f: Flags) -> u8 {
    match f {
        Flags::C => 0x01,
        Flags::Z => 0x02,
        Flags::I => 0x04,
        Flags::D => 0x08,
        Flags::B => 0x10,
        Flags::U => 0x20,
        Flags::V => 0x40,
        Flags::N => 0x80,
    }
}

/// `p` with the bits of `mask` set when `on`, cleared otherwise.
pub open spec fn with_flag(p: u8, mask: u8, on: bool) -> u8 {
    if on { p | mask } else { p & !mask }
}

impl Flags {
    pub fn mask(self) -> (r: u8)
        ensures
            r == flag_mask(self),
    {
        match self {
            Flags::C => 0x01,
            Flags::Z => 0x02,
            Flags::I => 0x04,
            Flags::D => 0x08,
            Flags::B => 0x10,
            Flags::U => 0x20,
            Flags::V => 0x40,
            Flags::N => 0x80,
        }
    }
}

/// A typed CPU register.
#[derive(Debug, Clone, Copy)]
pub struct Register<T> {
    pub data: T,
}

/// Construction and access shared by the 8- and 16-bit registers.
pub trait RegisterWork<T>: Sized {
    /// The value the register holds.
    spec fn value(&self) -> T;

    /// The value of a fresh register.
    spec fn zero() -> T;

    fn new() -> (r: Register<T>)
        ensures
            r.data == Self::zero(),
    ;

    fn data(&self) -> (r: T)
        ensures
            r == self.value(),
    ;

    fn set_data(&mut self, data: T)
        ensures
            final(self).value() == data,
    ;

    fn new_with_data(data: T) -> (r: Register<T>)
        ensures
            r.data == data,
    ;
}

impl RegisterWork<u8> for Register<u8> {
    open spec fn value(&self) -> u8 {
        self.data
    }

    open spec fn zero() -> u8 {
        0
    }

    fn new() -> (r: Register<u8>) {
        Register { data: 0 }
    }

    fn data(&self) -> (r: u8) {
        self.data
    }

    fn set_data(&mut self, data: u8) {
        self.data = data;
    }

    fn new_with_data(data: u8) -> (r: Register<u8>) {
        Register { data }
    }
}

impl RegisterWork<u16> for Register<u16> {
    open spec fn value(&self) -> u16 {
        self.data
    }

    open spec fn zero() -> u16 {
        0
    }

    fn new() -> (r: Register<u16>) {
        Register { data: 0 }
    }

    fn data(&self) -> (r: u16) {
        self.data
    }

    fn set_data(&mut self, data: u16) {
        self.data = data;
    }

    fn new_with_data(data: u16) -> (r: Register<u16>) {
        Register { data }
    }
}

impl Register<u8> {
    pub fn set_flag(&mut self, flag: Flags, on: bool)
        ensures
            final(self).data == with_flag(old(self).data, flag_mask(flag), on),
    {
        if on {
            self.data = self.data | flag.mask();
        } else {
            self.data = self.data & !flag.mask();
        }
    }

    pub fn check_flag(&self, flag: Flags) -> (r: bool)
        ensures
            r == (self.data & flag_mask(flag) != 0),
    {
        self.data & flag.mask() != 0
    }
}

/// The bus after a byte is written at `$0100 + sp`.
pub open spec fn stack_written(m: CpuMemView, sp: u8, data: u8) -> CpuMemView {
    CpuMemView { ram: m.ram.update(0x100 + sp, data), ..m }
}

impl Register<u8> {
    /// The address of the stack slot SP points at.
    pub fn get_stack_addr(&self) -> (r: u16)
        ensures
            r == 0x100 + self.data,
    {
        STACK_BASE.wrapping_add(self.data as u16)
    }

    /// Writes `data` at `$0100 + SP`, then decrements SP.
    pub fn stack_push_byte(&mut self, mem: &mut CpuMemory, data: u8)
        requires
            old(mem).wf(),
        ensures
            final(mem).wf(),
            final(mem)@ == stack_written(old(mem)@, old(self).data, data),
            final(self).data == old(self).data.wrapping_sub(1),
    {
        let _ = mem.storeb(self.get_stack_addr(), data);
        self.data = self.data.wrapping_sub(1);
    }

    /// Pushes the high byte, then the low byte.
    pub fn stack_push_word(&mut self, mem: &mut CpuMemory, data: u16)
        requires
            old(mem).wf(),
        ensures
            final(mem).wf(),
            final(mem)@ == stack_written(
                stack_written(old(mem)@, old(self).data, (data / 256) as u8),
                old(self).data.wrapping_sub(1),
                (data % 256) as u8,
            ),
            final(self).data == old(self).data.wrapping_sub(1).wrapping_sub(1),
    {
        self.stack_push_byte(mem, (data / 256) as u8);
        self.stack_push_byte(mem, (data % 256) as u8);
    }

    /// Increments SP, then reads the byte at `$0100 + SP`.
    pub fn stack_pop_byte(&mut self, mem: &mut CpuMemory) -> (r: u8)
        requires
            old(mem).wf(),
        ensures
            final(mem)@ == old(mem)@,
            final(self).data == old(self).data.wrapping_add(1),
            r == old(mem)@.ram[0x100 + final(self).data],
    {
        self.data = self.data.wrapping_add(1);
        match mem.read(self.get_stack_addr()) {
            Ok(v) => v,
            Err(_) => 0,
        }
    }

    /// Pops the low byte, then the high byte.
    pub fn stack_pop_word(&mut self, mem: &mut CpuMemory) -> (r: u16)
        requires
            old(mem).wf(),
        ensures
            final(mem)@ == old(mem)@,
            final(self).data == old(self).data.wrapping_add(1).wrapping_add(1),
            r == crate::util::word(
                old(mem)@.ram[0x100 + old(self).data.wrapping_add(1)],
                old(mem)@.ram[0x100 + old(self).data.wrapping_add(1).wrapping_add(1)],
            ),
    {
        let low = self.stack_pop_byte(mem) as u16;
        let high = self.stack_pop_byte(mem) as u16;
        high * 256 + low
    }
}

} // verus!
