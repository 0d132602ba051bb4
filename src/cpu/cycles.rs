use vstd::prelude::*;

use crate::cpu::semantics::{sign_extend, CpuState};
use crate::cpu::CPU;
use crate::errors::NesError;
use crate::opcodes::{opcode_table, AddressingMode, Instruction, OpCodeDetail};
use crate::status::Status;
use crate::memory::Mem;

verus! {

/// `a` and `b` lie in different 256-byte pages.
pub open spec fn page_crossed(a: u16, b: u16) -> bool {
    (a & 0xff00) != (b & 0xff00)
}

/// Reads through an indexed mode take a cycle more when the index carries into the next page;
/// stores and read-modify-writes on those modes have the penalty in their base count.
pub open spec fn pays_page_penalty(i: Instruction) -> bool {
    matches!(
        i,
        Instruction::ADC | Instruction::AND | Instruction::CMP | Instruction::EOR | Instruction::LDA
            | Instruction::LDX | Instruction::LDY | Instruction::ORA | Instruction::SBC
    )
}

pub open spec fn is_indexed(mode: AddressingMode) -> bool {
    matches!(mode, AddressingMode::AbsoluteX | AddressingMode::AbsoluteY | AddressingMode::IndirectY)
}

/// Whether a branch instruction is taken with flags `p`; `None` for other instructions.
pub open spec fn branch_taken(i: Instruction, p: Status) -> Option<bool> {
    match i {
        Instruction::BCC => Some(!p.carry),
        Instruction::BCS => Some(p.carry),
        Instruction::BEQ => Some(p.zero),
        Instruction::BNE => Some(!p.zero),
        Instruction::BMI => Some(p.negative),
        Instruction::BPL => Some(!p.negative),
        Instruction::BVC => Some(!p.overflow),
        Instruction::BVS => Some(p.overflow),
        _ => None,
    }
}

/// The address that an indexed mode adds its index to.
pub open spec fn indexed_base(s: CpuState, mode: AddressingMode) -> Option<u16> {
    let base = s.pc.wrapping_add(1);
    match mode {
        AddressingMode::AbsoluteX | AddressingMode::AbsoluteY => s.bus.read_u16(base),
        AddressingMode::IndirectY => match s.bus.read(base) {
            Some(z) => s.bus.read_u16_page_wrap(z as u16),
            None => None,
        },
        _ => None,
    }
}

/// Cycles of the instruction `d` at `s.pc`: the base count, one more for an indexed read that
/// crosses a page, and for a taken branch one more, plus one if the target is on another page
/// than the next instruction.
pub open spec fn cycles_spec(s: CpuState, d: OpCodeDetail) -> Option<u8> {
    match branch_taken(d.instruction, s.p) {
        Some(true) => match s.bus.read(s.pc.wrapping_add(1)) {
            Some(off) => {
                let next = s.pc.wrapping_add(d.bytes as u16);
                let target = next.wrapping_add(sign_extend(off));
                Some(
                    d.cycles.wrapping_add(
                        if page_crossed(next, target) {
                            2
                        } else {
                            1
                        },
                    ),
                )
            },
            None => None,
        },
        Some(false) => Some(d.cycles),
        None => if pays_page_penalty(d.instruction) && is_indexed(d.address_mode) {
            match (indexed_base(s, d.address_mode), s.operand_address(d.address_mode)) {
                (Some(b), Some(a)) => Some(
                    d.cycles.wrapping_add(
                        if page_crossed(b, a) {
                            1
                        } else {
                            0
                        },
                    ),
                ),
                _ => None,
            }
        } else {
            Some(d.cycles)
        },
    }
}

/// Cycles of the instruction at `s.pc`, once fetched and decoded.
pub open spec fn step_cycles(s: CpuState) -> Option<u8> {
    match s.bus.read(s.pc) {
        Some(code) => match opcode_table(code) {
            Some(d) => cycles_spec(s, d),
            None => None,
        },
        None => None,
    }
}

/// Whether adding `value` to `address` moves into another page.
pub fn check_boundary_crossed(address: u16, value: u8) -> (r: bool)
    ensures
        r == page_crossed(address, address.wrapping_add(value as u16)),
{
    let updated_address = address.wrapping_add(value as u16);
    (updated_address & 0xff00) != (address & 0xff00)
}

impl CPU {
    /// The cycles that the instruction `opcode` at `program_counter` takes from this state.
    pub fn major_cycles(&self, opcode: &OpCodeDetail) -> (r: Result<u8, NesError>)
        requires
            self.wf(),
        ensures
            match cycles_spec(self@, *opcode) {
                Some(c) => r is Ok && r->Ok_0 == c,
                None => r is Err,
            },
    {
        let taken = match opcode.instruction {
            Instruction::BCC => Some(!self.status.carry),
            Instruction::BCS => Some(self.status.carry),
            Instruction::BEQ => Some(self.status.zero),
            Instruction::BNE => Some(!self.status.zero),
            Instruction::BMI => Some(self.status.negative),
            Instruction::BPL => Some(!self.status.negative),
            Instruction::BVC => Some(!self.status.overflow),
            Instruction::BVS => Some(self.status.overflow),
            _ => None,
        };
        match taken {
            Some(true) => {
                let off = self.bus.mem_read(self.program_counter.wrapping_add(1))?;
                let next = self.program_counter.wrapping_add(opcode.bytes as u16);
                let offset: u16 = if off < 0x80 { off as u16 } else { (off as u16) | 0xff00 };
                let target = next.wrapping_add(offset);
                let extra: u8 = if (next & 0xff00) != (target & 0xff00) { 2 } else { 1 };
                Ok(opcode.cycles.wrapping_add(extra))
            },
            Some(false) => Ok(opcode.cycles),
            None => {
                let penalty = match opcode.instruction {
                    Instruction::ADC | Instruction::AND | Instruction::CMP | Instruction::EOR
                    | Instruction::LDA | Instruction::LDX | Instruction::LDY | Instruction::ORA
                    | Instruction::SBC => true,
                    _ => false,
                };
                let base = self.program_counter.wrapping_add(1);
                if !penalty {
                    return Ok(opcode.cycles);
                }
                let (start, index) = match opcode.address_mode {
                    AddressingMode::AbsoluteX => (self.bus.mem_read_u16(base)?, self.register_x),
                    AddressingMode::AbsoluteY => (self.bus.mem_read_u16(base)?, self.register_y),
                    AddressingMode::IndirectY => {
                        let z = self.bus.mem_read(base)?;
                        (self.bus.mem_read_u16_wrapping_boundary(z as u16)?, self.register_y)
                    },
                    _ => {
                        return Ok(opcode.cycles);
                    },
                };
                let address = self.get_operand_address(&opcode.address_mode)?;
                proof {
                    reveal(CpuState::operand_address);
                }
                let crossed = check_boundary_crossed(start, index);
                let extra: u8 = if crossed { 1 } else { 0 };
                Ok(opcode.cycles.wrapping_add(extra))
            },
        }
    }
}

} // verus!
