use vstd::prelude::*;

use crate::bus::CpuBus;
use crate::cpu::semantics::CpuState;
use crate::errors::{access_error, ErrorKind, NesError};
use crate::opcodes::AddressingMode;
use crate::status::Status;
use crate::memory::Mem;

mod control;
pub mod cycles;
mod instructions;
mod run;
pub mod semantics;
pub mod stack;
pub mod trace;

verus! {

/// The 6502 core: registers, status flags, and the bus it owns.
pub struct CPU {
    pub register_a: u8,
    pub register_x: u8,
    pub register_y: u8,
    pub status: Status,
    pub program_counter: u16,
    pub stack_pointer: u8,
    pub bus: CpuBus,
}

impl View for CPU {
    type V = CpuState;

    open spec fn view(&self) -> CpuState {
        CpuState {
            a: self.register_a,
            x: self.register_x,
            y: self.register_y,
            p: self.status,
            pc: self.program_counter,
            sp: self.stack_pointer,
            bus: self.bus@,
        }
    }
}

impl CPU {
    pub open spec fn wf(&self) -> bool {
        self.bus.wf()
    }

    /// A CPU on `bus` with zeroed registers, the stack pointer at the top of page one, and the
    /// power-on flags.
    pub fn new(bus: CpuBus) -> (r: CPU)
        requires
            bus.wf(),
        ensures
            r.wf(),
            r@ == (CpuState {
                a: 0,
                x: 0,
                y: 0,
                p: Status::initial(),
                pc: 0,
                sp: 0xfd,
                bus: bus@,
            }),
    {
        CPU {
            register_a: 0,
            register_x: 0,
            register_y: 0,
            status: Status::new(),
            program_counter: 0,
            stack_pointer: 0xfd,
            bus,
        }
    }

    /// The reset sequence: registers zeroed, `SP = 0xFD`, the power-on flags, and `PC` loaded
    /// from the reset vector at `0xFFFC`.
    pub fn reset(&mut self)
        requires
            old(self).wf(),
        ensures
            final(self).wf(),
            old(self)@.bus.read_u16(0xfffc) is Some,
            final(self)@ == (CpuState {
                a: 0,
                x: 0,
                y: 0,
                p: Status::initial(),
                pc: old(self)@.bus.read_u16(0xfffc)->Some_0,
                sp: 0xfd,
                bus: old(self)@.bus,
            }),
    {
        self.register_a = 0;
        self.register_x = 0;
        self.register_y = 0;
        self.stack_pointer = 0xfd;
        self.status.reset();
        let vector = self.bus.mem_read_u16(0xfffc);
        match vector {
            Ok(pc) => {
                self.program_counter = pc;
            },
            Err(_) => {},
        }
    }

    pub fn mem_write(&mut self, address: u16, value: u8) -> (r: Result<(), NesError>)
        requires
            old(self).wf(),
        ensures
            final(self).wf(),
            (r is Ok),
            final(self)@ == (CpuState { bus: old(self)@.bus.write(address, value), ..old(self)@ }),
    {
        self.bus.mem_write(address, value)
    }

    pub fn mem_read(&self, address: u16) -> (r: Result<u8, NesError>)
        requires
            self.wf(),
        ensures
            match self@.bus.read(address) {
                Some(v) => r is Ok && r->Ok_0 == v,
                None => r is Err && access_error(r->Err_0.kind),
            },
    {
        self.bus.mem_read(address)
    }

    /// The effective address of the operand of the instruction at `program_counter`.
    pub fn get_operand_address(&self, mode: &AddressingMode) -> (r: Result<u16, NesError>)
        requires
            self.wf(),
        ensures
            match self@.operand_address(*mode) {
                Some(a) => r is Ok && r->Ok_0 == a,
                None => r is Err && access_error(r->Err_0.kind),
            },
            (*mode == AddressingMode::Implied || *mode == AddressingMode::Accumulator) ==> r is Err
                && r->Err_0.kind == ErrorKind::AddressingModeHasNoAddress(*mode),
    {
        reveal(CpuState::operand_address);
        let base = self.program_counter.wrapping_add(1);
        match mode {
            AddressingMode::Immediate | AddressingMode::Relative => Ok(base),
            AddressingMode::ZeroPage => Ok(self.bus.mem_read(base)? as u16),
            AddressingMode::ZeroPageX => Ok(self.bus.mem_read(base)?.wrapping_add(self.register_x) as u16),
            AddressingMode::ZeroPageY => Ok(self.bus.mem_read(base)?.wrapping_add(self.register_y) as u16),
            AddressingMode::Absolute => self.bus.mem_read_u16(base),
            AddressingMode::AbsoluteX => Ok(
                self.bus.mem_read_u16(base)?.wrapping_add(self.register_x as u16),
            ),
            AddressingMode::AbsoluteY => Ok(
                self.bus.mem_read_u16(base)?.wrapping_add(self.register_y as u16),
            ),
            AddressingMode::Indirect => {
                let pointer = self.bus.mem_read_u16(base)?;
                self.bus.mem_read_u16_wrapping_boundary(pointer)
            },
            AddressingMode::IndirectX => {
                let pointer = self.bus.mem_read(base)?.wrapping_add(self.register_x) as u16;
                self.bus.mem_read_u16_wrapping_boundary(pointer)
            },
            AddressingMode::IndirectY => {
                let pointer = self.bus.mem_read(base)? as u16;
                let address = self.bus.mem_read_u16_wrapping_boundary(pointer)?;
                Ok(address.wrapping_add(self.register_y as u16))
            },
            AddressingMode::Implied | AddressingMode::Accumulator => Err(
                NesError::new(
                    ErrorKind::AddressingModeHasNoAddress(*mode),
                    "the addressing mode has no memory address",
                ),
            ),
        }
    }

    /// The operand byte: the accumulator in accumulator mode, else the byte at the effective
    /// address.
    pub fn get_operand_address_value(&self, mode: &AddressingMode) -> (r: Result<u8, NesError>)
        requires
            self.wf(),
        ensures
            match self@.operand_value(*mode) {
                Some(v) => r is Ok && r->Ok_0 == v,
                None => r is Err && access_error(r->Err_0.kind),
            },
    {
        match mode {
            AddressingMode::Accumulator => Ok(self.register_a),
            _ => {
                let address = self.get_operand_address(mode)?;
                self.bus.mem_read(address)
            },
        }
    }
}

} // verus!
