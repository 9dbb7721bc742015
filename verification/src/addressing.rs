use vstd::prelude::*;

use crate::cpu::CPU;
use crate::cpu_bus::CpuBus;

verus! {

/// The thirteen 6502 addressing modes.
#[derive(Clone, Copy, PartialEq, Eq, Structural, Debug)]
pub enum AddressingMode {
    Implicit,
    Accumulator,
    Immediate,
    ZeroPage,
    ZeroPageX,
    ZeroPageY,
    Relative,
    Absolute,
    AbsoluteX,
    AbsoluteY,
    Indirect,
    IndirectX,
    IndirectY,
}

impl AddressingMode {
    /// Modes whose operand is found through an effective address; immediate
    /// and relative operands live in the instruction itself.
    pub open spec fn has_address(self) -> bool {
        !(self is Immediate || self is Relative)
    }
}

impl<B: CpuBus> CPU<B> {
    pub fn get_immediate(&self) -> (r: u8)
        requires
            self.wf(),
        ensures
            r == self.bus.byte_at(self.program_counter),
    {
        self.mem_read(self.program_counter)
    }

    pub fn get_zero_page_address(&self) -> (r: u16)
        requires
            self.wf(),
        ensures
            r == self.spec_operand_addr(AddressingMode::ZeroPage),
    {
        self.mem_read(self.program_counter) as u16
    }

    pub fn get_zero_page(&self) -> (r: u8)
        requires
            self.wf(),
        ensures
            r == self.spec_operand(AddressingMode::ZeroPage),
    {
        let address = self.get_zero_page_address();
        self.mem_read(address)
    }

    pub fn get_zero_page_x_address(&self) -> (r: u16)
        requires
            self.wf(),
        ensures
            r == self.spec_operand_addr(AddressingMode::ZeroPageX),
    {
        self.mem_read(self.program_counter).wrapping_add(self.register_x) as u16
    }

    pub fn get_zero_page_x(&self) -> (r: u8)
        requires
            self.wf(),
        ensures
            r == self.spec_operand(AddressingMode::ZeroPageX),
    {
        let address = self.get_zero_page_x_address();
        self.mem_read(address)
    }

    pub fn get_zero_page_y_address(&self) -> (r: u16)
        requires
            self.wf(),
        ensures
            r == self.spec_operand_addr(AddressingMode::ZeroPageY),
    {
        self.mem_read(self.program_counter).wrapping_add(self.register_y) as u16
    }

    pub fn get_zero_page_y(&self) -> (r: u8)
        requires
            self.wf(),
        ensures
            r == self.spec_operand(AddressingMode::ZeroPageY),
    {
        let address = self.get_zero_page_y_address();
        self.mem_read(address)
    }

    pub fn get_absolute_address(&self) -> (r: u16)
        requires
            self.wf(),
        ensures
            r == self.spec_operand_addr(AddressingMode::Absolute),
    {
        let low = self.mem_read(self.program_counter) as u16;
        let high = self.mem_read(self.program_counter.wrapping_add(1)) as u16;
        high * 256 + low
    }

    pub fn get_absolute(&self) -> (r: u8)
        requires
            self.wf(),
        ensures
            r == self.spec_operand(AddressingMode::Absolute),
    {
        let address = self.get_absolute_address();
        self.mem_read(address)
    }

    pub fn get_absolute_x_address(&self) -> (r: u16)
        requires
            self.wf(),
        ensures
            r == self.spec_operand_addr(AddressingMode::AbsoluteX),
    {
        self.get_absolute_address().wrapping_add(self.register_x as u16)
    }

    pub fn get_absolute_x(&self) -> (r: u8)
        requires
            self.wf(),
        ensures
            r == self.spec_operand(AddressingMode::AbsoluteX),
    {
        let address = self.get_absolute_x_address();
        self.mem_read(address)
    }

    pub fn get_absolute_y_address(&self) -> (r: u16)
        requires
            self.wf(),
        ensures
            r == self.spec_operand_addr(AddressingMode::AbsoluteY),
    {
        self.get_absolute_address().wrapping_add(self.register_y as u16)
    }

    pub fn get_absolute_y(&self) -> (r: u8)
        requires
            self.wf(),
        ensures
            r == self.spec_operand(AddressingMode::AbsoluteY),
    {
        let address = self.get_absolute_y_address();
        self.mem_read(address)
    }

    pub fn get_indirect_address(&self) -> (r: u16)
        requires
            self.wf(),
        ensures
            r == self.spec_operand_addr(AddressingMode::Indirect),
    {
        let ptr = self.get_absolute_address();
        let low = self.mem_read(ptr) as u16;
        let high = self.mem_read(ptr.wrapping_add(1)) as u16;
        high * 256 + low
    }

    pub fn get_indirect(&self) -> (r: u8)
        requires
            self.wf(),
        ensures
            r == self.spec_operand(AddressingMode::Indirect),
    {
        let address = self.get_indirect_address();
        self.mem_read(address)
    }

    pub fn get_indirect_x_address(&self) -> (r: u16)
        requires
            self.wf(),
        ensures
            r == self.spec_operand_addr(AddressingMode::IndirectX),
    {
        let base = self.mem_read(self.program_counter);
        let ptr = base.wrapping_add(self.register_x);
        let low = self.mem_read(ptr as u16) as u16;
        let high = self.mem_read(ptr.wrapping_add(1) as u16) as u16;
        high * 256 + low
    }

    pub fn get_indirect_x(&self) -> (r: u8)
        requires
            self.wf(),
        ensures
            r == self.spec_operand(AddressingMode::IndirectX),
    {
        let address = self.get_indirect_x_address();
        self.mem_read(address)
    }

    pub fn get_indirect_y_address(&self) -> (r: u16)
        requires
            self.wf(),
        ensures
            r == self.spec_operand_addr(AddressingMode::IndirectY),
    {
        let base = self.mem_read(self.program_counter);
        let low = self.mem_read(base as u16) as u16;
        let high = self.mem_read(base.wrapping_add(1) as u16) as u16;
        let deref_base = high * 256 + low;
        deref_base.wrapping_add(self.register_y as u16)
    }

    pub fn get_indirect_y(&self) -> (r: u8)
        requires
            self.wf(),
        ensures
            r == self.spec_operand(AddressingMode::IndirectY),
    {
        let address = self.get_indirect_y_address();
        self.mem_read(address)
    }

    pub fn get_relative(&self) -> (r: u8)
        requires
            self.wf(),
        ensures
            r == self.bus.byte_at(self.program_counter),
    {
        self.mem_read(self.program_counter)
    }

    pub fn get_accumulator(&self) -> (r: u8)
        ensures
            r == self.register_a,
    {
        self.register_a
    }

    /// The operand for `mode`, read without side effects.
    pub fn get_operand(&self, mode: &AddressingMode) -> (r: u8)
        requires
            self.wf(),
        ensures
            r == self.spec_operand(*mode),
    {
        match mode {
            AddressingMode::Implicit => 0,
            AddressingMode::Accumulator => self.get_accumulator(),
            AddressingMode::Immediate => self.get_immediate(),
            AddressingMode::ZeroPage => self.get_zero_page(),
            AddressingMode::ZeroPageX => self.get_zero_page_x(),
            AddressingMode::ZeroPageY => self.get_zero_page_y(),
            AddressingMode::Relative => self.get_relative(),
            AddressingMode::Absolute => self.get_absolute(),
            AddressingMode::AbsoluteX => self.get_absolute_x(),
            AddressingMode::AbsoluteY => self.get_absolute_y(),
            AddressingMode::Indirect => self.get_indirect(),
            AddressingMode::IndirectX => self.get_indirect_x(),
            AddressingMode::IndirectY => self.get_indirect_y(),
        }
    }

    /// The effective address for `mode`, read without side effects.
    pub fn get_address(&self, mode: &AddressingMode) -> (r: u16)
        requires
            self.wf(),
            mode.has_address(),
        ensures
            r == self.spec_operand_addr(*mode),
    {
        match mode {
            AddressingMode::Implicit => 0,
            AddressingMode::Accumulator => 0,
            AddressingMode::ZeroPage => self.get_zero_page_address(),
            AddressingMode::ZeroPageX => self.get_zero_page_x_address(),
            AddressingMode::ZeroPageY => self.get_zero_page_y_address(),
            AddressingMode::Absolute => self.get_absolute_address(),
            AddressingMode::AbsoluteX => self.get_absolute_x_address(),
            AddressingMode::AbsoluteY => self.get_absolute_y_address(),
            AddressingMode::Indirect => self.get_indirect_address(),
            AddressingMode::IndirectX => self.get_indirect_x_address(),
            AddressingMode::IndirectY => self.get_indirect_y_address(),
            _ => 0,
        }
    }
}

} // verus!
