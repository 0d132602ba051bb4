use vstd::prelude::*;

use crate::cpu::semantics::{
    exec_branch, exec_brk, exec_jmp, exec_jsr, exec_plp, exec_rti, exec_rts, outcome,
    pushed_status, transfer_a, transfer_x, transfer_y,
};
use crate::cpu::CPU;
use crate::errors::NesError;
use crate::opcodes::AddressingMode;
use crate::status::Status;

verus! {

impl CPU {
    /// Takes the branch: the signed offset after the opcode is added to the address of the next
    /// instruction.
    fn move_pointer_on_branch(&mut self, mode: &AddressingMode, bytes: u8) -> (r: Result<
        (),
        NesError,
    >)
        requires
            old(self).wf(),
        ensures
            final(self).wf(),
            outcome(r, exec_branch(old(self)@, true, *mode, bytes), old(self)@, final(self)@),
    {
        let value = self.get_operand_address_value(mode)?;
        let offset: u16 = if value < 0x80 { value as u16 } else { (value as u16) | 0xff00 };
        self.program_counter = self.program_counter.wrapping_add(bytes as u16).wrapping_add(offset);
        Ok(())
    }

    fn branch(&mut self, taken: bool, mode: &AddressingMode, bytes: u8) -> (r: Result<(), NesError>)
        requires
            old(self).wf(),
        ensures
            final(self).wf(),
            outcome(r, exec_branch(old(self)@, taken, *mode, bytes), old(self)@, final(self)@),
    {
        if taken {
            self.move_pointer_on_branch(mode, bytes)
        } else {
            self.apply_bytes_to_program_counter(bytes);
            Ok(())
        }
    }

    /// Branch if carry clear.
    pub fn bcc(&mut self, mode: &AddressingMode, bytes: u8) -> (r: Result<(), NesError>)
        requires
            old(self).wf(),
        ensures
            final(self).wf(),
            outcome(r, exec_branch(old(self)@, !old(self).status.carry, *mode, bytes), old(self)@, final(self)@),
    {
        let taken = !self.status.carry;
        self.branch(taken, mode, bytes)
    }

    /// Branch if carry set.
    pub fn bcs(&mut self, mode: &AddressingMode, bytes: u8) -> (r: Result<(), NesError>)
        requires
            old(self).wf(),
        ensures
            final(self).wf(),
            outcome(r, exec_branch(old(self)@, old(self).status.carry, *mode, bytes), old(self)@, final(self)@),
    {
        let taken = self.status.carry;
        self.branch(taken, mode, bytes)
    }

    /// Branch if equal (zero set).
    pub fn beq(&mut self, mode: &AddressingMode, bytes: u8) -> (r: Result<(), NesError>)
        requires
            old(self).wf(),
        ensures
            final(self).wf(),
            outcome(r, exec_branch(old(self)@, old(self).status.zero, *mode, bytes), old(self)@, final(self)@),
    {
        let taken = self.status.zero;
        self.branch(taken, mode, bytes)
    }

    /// Branch if not equal (zero clear).
    pub fn bne(&mut self, mode: &AddressingMode, bytes: u8) -> (r: Result<(), NesError>)
        requires
            old(self).wf(),
        ensures
            final(self).wf(),
            outcome(r, exec_branch(old(self)@, !old(self).status.zero, *mode, bytes), old(self)@, final(self)@),
    {
        let taken = !self.status.zero;
        self.branch(taken, mode, bytes)
    }

    /// Branch if minus (negative set).
    pub fn bmi(&mut self, mode: &AddressingMode, bytes: u8) -> (r: Result<(), NesError>)
        requires
            old(self).wf(),
        ensures
            final(self).wf(),
            outcome(r, exec_branch(old(self)@, old(self).status.negative, *mode, bytes), old(self)@, final(self)@),
    {
        let taken = self.status.negative;
        self.branch(taken, mode, bytes)
    }

    /// Branch if plus (negative clear).
    pub fn bpl(&mut self, mode: &AddressingMode, bytes: u8) -> (r: Result<(), NesError>)
        requires
            old(self).wf(),
        ensures
            final(self).wf(),
            outcome(
                r,
                exec_branch(old(self)@, !old(self).status.negative, *mode, bytes),
                old(self)@,
                final(self)@,
            ),
    {
        let taken = !self.status.negative;
        self.branch(taken, mode, bytes)
    }

    /// Branch if overflow clear.
    pub fn bvc(&mut self, mode: &AddressingMode, bytes: u8) -> (r: Result<(), NesError>)
        requires
            old(self).wf(),
        ensures
            final(self).wf(),
            outcome(
                r,
                exec_branch(old(self)@, !old(self).status.overflow, *mode, bytes),
                old(self)@,
                final(self)@,
            ),
    {
        let taken = !self.status.overflow;
        self.branch(taken, mode, bytes)
    }

    /// Branch if overflow set.
    pub fn bvs(&mut self, mode: &AddressingMode, bytes: u8) -> (r: Result<(), NesError>)
        requires
            old(self).wf(),
        ensures
            final(self).wf(),
            outcome(r, exec_branch(old(self)@, old(self).status.overflow, *mode, bytes), old(self)@, final(self)@),
    {
        let taken = self.status.overflow;
        self.branch(taken, mode, bytes)
    }

    pub fn jmp(&mut self, mode: &AddressingMode) -> (r: Result<(), NesError>)
        requires
            old(self).wf(),
        ensures
            final(self).wf(),
            outcome(r, exec_jmp(old(self)@, *mode), old(self)@, final(self)@),
    {
        let address = self.get_operand_address(mode)?;
        self.program_counter = address;
        Ok(())
    }

    /// Jump to subroutine: pushes the address of the last byte of the `JSR`, then jumps.
    pub fn jsr(&mut self, mode: &AddressingMode) -> (r: Result<(), NesError>)
        requires
            old(self).wf(),
        ensures
            final(self).wf(),
            outcome(r, exec_jsr(old(self)@, *mode), old(self)@, final(self)@),
    {
        let address = self.get_operand_address(mode)?;
        self.push_to_stack_u16(self.program_counter.wrapping_add(2));
        self.program_counter = address;
        Ok(())
    }

    /// Return from subroutine: pulls an address and continues after it.
    pub fn rts(&mut self)
        requires
            old(self).wf(),
        ensures
            final(self).wf(),
            final(self)@ == exec_rts(old(self)@),
    {
        let address = self.pull_from_stack_u16();
        self.program_counter = address.wrapping_add(1);
    }

    /// Software interrupt: pushes `PC + 2` and the flags with `B` and `U` set, sets `I`, and
    /// jumps through the vector at `0xFFFE`.
    pub fn brk(&mut self)
        requires
            old(self).wf(),
        ensures
            final(self).wf(),
            exec_brk(old(self)@) == Some(final(self)@),
    {
        let vector = self.bus.mem_read_u16(0xfffe);
        let target = match vector {
            Ok(t) => t,
            Err(_) => 0,
        };
        self.push_to_stack_u16(self.program_counter.wrapping_add(2));
        let status = self.status.get_status_byte() | 0x30;
        self.push_to_stack(status);
        self.status.interrupt = true;
        self.program_counter = target;
    }

    /// Pulls the flags, keeping `B` and `U` as they are in the running register.
    pub fn plp(&mut self)
        requires
            old(self).wf(),
        ensures
            final(self).wf(),
            final(self)@ == exec_plp(old(self)@),
    {
        let break_flag = self.status.break_flag;
        let ignored = self.status.ignored;
        let value = self.pull_from_stack();
        self.status.set_from_byte(value);
        self.status.break_flag = break_flag;
        self.status.ignored = ignored;
    }

    /// Return from interrupt: pulls the flags as `PLP` does, then the program counter.
    pub fn rti(&mut self)
        requires
            old(self).wf(),
        ensures
            final(self).wf(),
            final(self)@ == exec_rti(old(self)@),
    {
        self.plp();
        let address = self.pull_from_stack_u16();
        self.program_counter = address;
    }

    pub fn pha(&mut self)
        requires
            old(self).wf(),
        ensures
            final(self).wf(),
            final(self)@ == old(self)@.push(old(self).register_a),
    {
        let value = self.register_a;
        self.push_to_stack(value);
    }

    /// Pushes the flags with `B` and `U` set; the running register is left as it is.
    pub fn php(&mut self)
        requires
            old(self).wf(),
        ensures
            final(self).wf(),
            final(self)@ == old(self)@.push(pushed_status(old(self).status)),
    {
        let status = self.status.get_status_byte() | 0x30;
        self.push_to_stack(status);
    }

    pub fn pla(&mut self)
        requires
            old(self).wf(),
        ensures
            final(self).wf(),
            final(self)@ == transfer_a(old(self)@.pop(), old(self)@.top(), 0),
    {
        let value = self.pull_from_stack();
        self.register_a = value;
        self.status.set_zn_flags(value);
    }

    pub fn clc(&mut self)
        ensures
            *final(self) == (CPU { status: Status { carry: false, ..old(self).status }, ..*old(self) }),
    {
        self.status.carry = false;
    }

    pub fn cld(&mut self)
        ensures
            *final(self) == (CPU { status: Status { decimal: false, ..old(self).status }, ..*old(self) }),
    {
        self.status.decimal = false;
    }

    pub fn cli(&mut self)
        ensures
            *final(self) == (CPU {
                status: Status { interrupt: false, ..old(self).status },
                ..*old(self)
            }),
    {
        self.status.interrupt = false;
    }

    pub fn clv(&mut self)
        ensures
            *final(self) == (CPU { status: Status { overflow: false, ..old(self).status }, ..*old(self) }),
    {
        self.status.overflow = false;
    }

    pub fn sec(&mut self)
        ensures
            *final(self) == (CPU { status: Status { carry: true, ..old(self).status }, ..*old(self) }),
    {
        self.status.carry = true;
    }

    pub fn sed(&mut self)
        ensures
            *final(self) == (CPU { status: Status { decimal: true, ..old(self).status }, ..*old(self) }),
    {
        self.status.decimal = true;
    }

    pub fn sei(&mut self)
        ensures
            *final(self) == (CPU { status: Status { interrupt: true, ..old(self).status }, ..*old(self) }),
    {
        self.status.interrupt = true;
    }

    pub fn tax(&mut self)
        requires
            old(self).wf(),
        ensures
            final(self).wf(),
            final(self)@ == transfer_x(old(self)@, old(self).register_a, 0),
    {
        let value = self.register_a;
        self.register_x = value;
        self.status.set_zn_flags(value);
    }

    pub fn tay(&mut self)
        requires
            old(self).wf(),
        ensures
            final(self).wf(),
            final(self)@ == transfer_y(old(self)@, old(self).register_a, 0),
    {
        let value = self.register_a;
        self.register_y = value;
        self.status.set_zn_flags(value);
    }

    pub fn tsx(&mut self)
        requires
            old(self).wf(),
        ensures
            final(self).wf(),
            final(self)@ == transfer_x(old(self)@, old(self).stack_pointer, 0),
    {
        let value = self.stack_pointer;
        self.register_x = value;
        self.status.set_zn_flags(value);
    }

    pub fn txa(&mut self)
        requires
            old(self).wf(),
        ensures
            final(self).wf(),
            final(self)@ == transfer_a(old(self)@, old(self).register_x, 0),
    {
        let value = self.register_x;
        self.register_a = value;
        self.status.set_zn_flags(value);
    }

    pub fn tya(&mut self)
        requires
            old(self).wf(),
        ensures
            final(self).wf(),
            final(self)@ == transfer_a(old(self)@, old(self).register_y, 0),
    {
        let value = self.register_y;
        self.register_a = value;
        self.status.set_zn_flags(value);
    }

    /// Copies X into the stack pointer; no flag changes.
    pub fn txs(&mut self)
        ensures
            *final(self) == (CPU { stack_pointer: old(self).register_x, ..*old(self) }),
    {
        self.stack_pointer = self.register_x;
    }

    pub fn inx(&mut self)
        requires
            old(self).wf(),
        ensures
            final(self).wf(),
            final(self)@ == transfer_x(old(self)@, old(self).register_x.wrapping_add(1), 0),
    {
        let value = self.register_x;
        self.register_x = self.status.set_increment_flags(value);
    }

    pub fn iny(&mut self)
        requires
            old(self).wf(),
        ensures
            final(self).wf(),
            final(self)@ == transfer_y(old(self)@, old(self).register_y.wrapping_add(1), 0),
    {
        let value = self.register_y;
        self.register_y = self.status.set_increment_flags(value);
    }

    pub fn dex(&mut self)
        requires
            old(self).wf(),
        ensures
            final(self).wf(),
            final(self)@ == transfer_x(old(self)@, old(self).register_x.wrapping_sub(1), 0),
    {
        let value = self.register_x;
        self.register_x = self.status.set_decrement_flags(value);
    }

    pub fn dey(&mut self)
        requires
            old(self).wf(),
        ensures
            final(self).wf(),
            final(self)@ == transfer_y(old(self)@, old(self).register_y.wrapping_sub(1), 0),
    {
        let value = self.register_y;
        self.register_y = self.status.set_decrement_flags(value);
    }
}

} // verus!
