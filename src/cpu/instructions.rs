use vstd::prelude::*;

use crate::cpu::semantics::{
    add_with_carry, exec_adc, exec_and, exec_asl, exec_bit, exec_compare, exec_eor, exec_load_a,
    exec_load_x, exec_load_y, exec_lsr, exec_ora, exec_rol, exec_ror, exec_sbc, exec_step_memory,
    exec_store, lemma_overflow_bits, outcome,
};
use crate::cpu::CPU;
use crate::errors::NesError;
use crate::opcodes::AddressingMode;
use crate::memory::Mem;

verus! {

impl CPU {
    pub fn apply_bytes_to_program_counter(&mut self, bytes: u8)
        requires
            old(self).wf(),
        ensures
            final(self).wf(),
            final(self)@ == old(self)@.advance(bytes),
    {
        self.program_counter = self.program_counter.wrapping_add(bytes as u16);
    }

    /// Puts `value` where the operand came from: the accumulator, or the effective address.
    fn store_result(&mut self, mode: &AddressingMode, value: u8) -> (r: Result<(), NesError>)
        requires
            old(self).wf(),
        ensures
            final(self).wf(),
            outcome(r, old(self)@.store(*mode, value), old(self)@, final(self)@),
    {
        match mode {
            AddressingMode::Accumulator => {
                self.register_a = value;
                Ok(())
            },
            _ => {
                let address = self.get_operand_address(mode)?;
                self.bus.mem_write(address, value)
            },
        }
    }

    /// Writes `value` at the effective address.
    fn store_at(&mut self, mode: &AddressingMode, value: u8) -> (r: Result<(), NesError>)
        requires
            old(self).wf(),
        ensures
            final(self).wf(),
            outcome(r, old(self)@.store_at(*mode, value), old(self)@, final(self)@),
    {
        let address = self.get_operand_address(mode)?;
        self.bus.mem_write(address, value)
    }

    /// `A + value + C` into the accumulator, in binary whatever `D` holds.
    pub fn addition_with_register_a(&mut self, value: u8)
        requires
            old(self).wf(),
        ensures
            final(self).wf(),
            final(self)@ == add_with_carry(old(self)@, value),
            ({
                let c: int = if old(self).status.carry {
                    1
                } else {
                    0
                };
                let sum = old(self).register_a as int + value as int + c;
                let a = old(self).register_a;
                let r = (sum % 256) as u8;
                &&& final(self).register_a == r
                &&& final(self).status.carry == (sum > 0xff)
                &&& final(self).status.overflow == (((a ^ r) & (value ^ r) & 0x80) != 0)
                &&& final(self).status.zero == (r == 0)
                &&& final(self).status.negative == (r >> 7u8 == 1)
            }),
    {
        let a = self.register_a;
        let carry: u16 = if self.status.carry { 1 } else { 0 };
        let sum: u16 = a as u16 + value as u16 + carry;
        let result = (sum & 0xff) as u8;
        let overflow = ((a ^ result) & (value ^ result) & 0x80) != 0;
        proof {
            assert((sum & 0xff) as u8 == (sum % 256) as u8) by (bit_vector);
            lemma_overflow_bits(a, value, result);
            assert((result & 0x80 != 0) == (result >> 7u8 == 1)) by (bit_vector);
        }
        self.register_a = result;
        self.status.set_zn_flags(result);
        self.status.carry = sum > 0xff;
        self.status.overflow = overflow;
    }

    /// Add the operand and the carry to the accumulator.
    pub fn adc(&mut self, mode: &AddressingMode, bytes: u8) -> (r: Result<(), NesError>)
        requires
            old(self).wf(),
        ensures
            final(self).wf(),
            outcome(r, exec_adc(old(self)@, *mode, bytes), old(self)@, final(self)@),
    {
        let value = self.get_operand_address_value(mode)?;
        self.addition_with_register_a(value);
        self.apply_bytes_to_program_counter(bytes);
        Ok(())
    }

    /// Subtract the operand and the borrow from the accumulator: `A + !M + C`.
    pub fn sbc(&mut self, mode: &AddressingMode, bytes: u8) -> (r: Result<(), NesError>)
        requires
            old(self).wf(),
        ensures
            final(self).wf(),
            outcome(r, exec_sbc(old(self)@, *mode, bytes), old(self)@, final(self)@),
    {
        let value = self.get_operand_address_value(mode)?;
        self.addition_with_register_a(value ^ 0xff);
        self.apply_bytes_to_program_counter(bytes);
        Ok(())
    }

    /// Bitwise AND of the operand into the accumulator.
    pub fn and(&mut self, mode: &AddressingMode, bytes: u8) -> (r: Result<(), NesError>)
        requires
            old(self).wf(),
        ensures
            final(self).wf(),
            outcome(r, exec_and(old(self)@, *mode, bytes), old(self)@, final(self)@),
    {
        let value = self.get_operand_address_value(mode)?;
        let result = self.register_a & value;
        self.register_a = result;
        self.status.set_zn_flags(result);
        self.apply_bytes_to_program_counter(bytes);
        Ok(())
    }

    /// Bitwise OR of the operand into the accumulator.
    pub fn ora(&mut self, mode: &AddressingMode, bytes: u8) -> (r: Result<(), NesError>)
        requires
            old(self).wf(),
        ensures
            final(self).wf(),
            outcome(r, exec_ora(old(self)@, *mode, bytes), old(self)@, final(self)@),
    {
        let value = self.get_operand_address_value(mode)?;
        let result = self.register_a | value;
        self.register_a = result;
        self.status.set_zn_flags(result);
        self.apply_bytes_to_program_counter(bytes);
        Ok(())
    }

    /// Bitwise exclusive OR of the operand into the accumulator.
    pub fn eor(&mut self, mode: &AddressingMode, bytes: u8) -> (r: Result<(), NesError>)
        requires
            old(self).wf(),
        ensures
            final(self).wf(),
            outcome(r, exec_eor(old(self)@, *mode, bytes), old(self)@, final(self)@),
    {
        let value = self.get_operand_address_value(mode)?;
        let result = self.register_a ^ value;
        self.register_a = result;
        self.status.set_zn_flags(result);
        self.apply_bytes_to_program_counter(bytes);
        Ok(())
    }

    /// Tests the operand against the accumulator: `Z` from `A & M`, `N` and `V` from bits 7, 6
    /// of `M`.
    pub fn bit(&mut self, mode: &AddressingMode, bytes: u8) -> (r: Result<(), NesError>)
        requires
            old(self).wf(),
        ensures
            final(self).wf(),
            outcome(r, exec_bit(old(self)@, *mode, bytes), old(self)@, final(self)@),
    {
        let value = self.get_operand_address_value(mode)?;
        self.status.negative = (value & 0x80) != 0;
        self.status.overflow = (value & 0x40) != 0;
        self.status.zero = (self.register_a & value) == 0;
        self.apply_bytes_to_program_counter(bytes);
        Ok(())
    }

    pub fn lda(&mut self, mode: &AddressingMode, bytes: u8) -> (r: Result<(), NesError>)
        requires
            old(self).wf(),
        ensures
            final(self).wf(),
            outcome(r, exec_load_a(old(self)@, *mode, bytes), old(self)@, final(self)@),
    {
        let value = self.get_operand_address_value(mode)?;
        self.register_a = value;
        self.status.set_zn_flags(value);
        self.apply_bytes_to_program_counter(bytes);
        Ok(())
    }

    pub fn ldx(&mut self, mode: &AddressingMode, bytes: u8) -> (r: Result<(), NesError>)
        requires
            old(self).wf(),
        ensures
            final(self).wf(),
            outcome(r, exec_load_x(old(self)@, *mode, bytes), old(self)@, final(self)@),
    {
        let value = self.get_operand_address_value(mode)?;
        self.register_x = value;
        self.status.set_zn_flags(value);
        self.apply_bytes_to_program_counter(bytes);
        Ok(())
    }

    pub fn ldy(&mut self, mode: &AddressingMode, bytes: u8) -> (r: Result<(), NesError>)
        requires
            old(self).wf(),
        ensures
            final(self).wf(),
            outcome(r, exec_load_y(old(self)@, *mode, bytes), old(self)@, final(self)@),
    {
        let value = self.get_operand_address_value(mode)?;
        self.register_y = value;
        self.status.set_zn_flags(value);
        self.apply_bytes_to_program_counter(bytes);
        Ok(())
    }

    pub fn sta(&mut self, mode: &AddressingMode, bytes: u8) -> (r: Result<(), NesError>)
        requires
            old(self).wf(),
        ensures
            final(self).wf(),
            outcome(r, exec_store(old(self)@, *mode, bytes, old(self).register_a), old(self)@, final(self)@),
    {
        let value = self.register_a;
        self.store_at(mode, value)?;
        self.apply_bytes_to_program_counter(bytes);
        Ok(())
    }

    pub fn stx(&mut self, mode: &AddressingMode, bytes: u8) -> (r: Result<(), NesError>)
        requires
            old(self).wf(),
        ensures
            final(self).wf(),
            outcome(r, exec_store(old(self)@, *mode, bytes, old(self).register_x), old(self)@, final(self)@),
    {
        let value = self.register_x;
        self.store_at(mode, value)?;
        self.apply_bytes_to_program_counter(bytes);
        Ok(())
    }

    pub fn sty(&mut self, mode: &AddressingMode, bytes: u8) -> (r: Result<(), NesError>)
        requires
            old(self).wf(),
        ensures
            final(self).wf(),
            outcome(r, exec_store(old(self)@, *mode, bytes, old(self).register_y), old(self)@, final(self)@),
    {
        let value = self.register_y;
        self.store_at(mode, value)?;
        self.apply_bytes_to_program_counter(bytes);
        Ok(())
    }

    /// Sets `Z`, `N`, `C` as for `reg - M`.
    fn compare_to_memory(&mut self, reg: u8, mode: &AddressingMode, bytes: u8) -> (r: Result<
        (),
        NesError,
    >)
        requires
            old(self).wf(),
        ensures
            final(self).wf(),
            outcome(r, exec_compare(old(self)@, reg, *mode, bytes), old(self)@, final(self)@),
    {
        let value = self.get_operand_address_value(mode)?;
        self.status.set_zn_flags(reg.wrapping_sub(value));
        self.status.carry = reg >= value;
        self.apply_bytes_to_program_counter(bytes);
        Ok(())
    }

    pub fn cmp(&mut self, mode: &AddressingMode, bytes: u8) -> (r: Result<(), NesError>)
        requires
            old(self).wf(),
        ensures
            final(self).wf(),
            outcome(r, exec_compare(old(self)@, old(self).register_a, *mode, bytes), old(self)@, final(self)@),
    {
        let reg = self.register_a;
        self.compare_to_memory(reg, mode, bytes)
    }

    pub fn cpx(&mut self, mode: &AddressingMode, bytes: u8) -> (r: Result<(), NesError>)
        requires
            old(self).wf(),
        ensures
            final(self).wf(),
            outcome(r, exec_compare(old(self)@, old(self).register_x, *mode, bytes), old(self)@, final(self)@),
    {
        let reg = self.register_x;
        self.compare_to_memory(reg, mode, bytes)
    }

    pub fn cpy(&mut self, mode: &AddressingMode, bytes: u8) -> (r: Result<(), NesError>)
        requires
            old(self).wf(),
        ensures
            final(self).wf(),
            outcome(r, exec_compare(old(self)@, old(self).register_y, *mode, bytes), old(self)@, final(self)@),
    {
        let reg = self.register_y;
        self.compare_to_memory(reg, mode, bytes)
    }

    /// Shift left: bit 7 goes to `C`, 0 comes in.
    pub fn asl(&mut self, mode: &AddressingMode, bytes: u8) -> (r: Result<(), NesError>)
        requires
            old(self).wf(),
        ensures
            final(self).wf(),
            outcome(r, exec_asl(old(self)@, *mode, bytes), old(self)@, final(self)@),
    {
        let value = self.get_operand_address_value(mode)?;
        let result = value << 1u8;
        self.store_result(mode, result)?;
        self.status.set_zn_flags(result);
        self.status.carry = (value & 0x80) != 0;
        self.apply_bytes_to_program_counter(bytes);
        Ok(())
    }

    /// Shift right: bit 0 goes to `C`, 0 comes in.
    pub fn lsr(&mut self, mode: &AddressingMode, bytes: u8) -> (r: Result<(), NesError>)
        requires
            old(self).wf(),
        ensures
            final(self).wf(),
            outcome(r, exec_lsr(old(self)@, *mode, bytes), old(self)@, final(self)@),
    {
        let value = self.get_operand_address_value(mode)?;
        let result = value >> 1u8;
        self.store_result(mode, result)?;
        self.status.set_zn_flags(result);
        self.status.carry = (value & 0x01) != 0;
        self.apply_bytes_to_program_counter(bytes);
        Ok(())
    }

    /// Rotate left through the carry.
    pub fn rol(&mut self, mode: &AddressingMode, bytes: u8) -> (r: Result<(), NesError>)
        requires
            old(self).wf(),
        ensures
            final(self).wf(),
            outcome(r, exec_rol(old(self)@, *mode, bytes), old(self)@, final(self)@),
    {
        let value = self.get_operand_address_value(mode)?;
        let carry_in: u8 = if self.status.carry { 1 } else { 0 };
        let result = (value << 1u8) | carry_in;
        self.store_result(mode, result)?;
        self.status.set_zn_flags(result);
        self.status.carry = (value & 0x80) != 0;
        self.apply_bytes_to_program_counter(bytes);
        Ok(())
    }

    /// Rotate right through the carry.
    pub fn ror(&mut self, mode: &AddressingMode, bytes: u8) -> (r: Result<(), NesError>)
        requires
            old(self).wf(),
        ensures
            final(self).wf(),
            outcome(r, exec_ror(old(self)@, *mode, bytes), old(self)@, final(self)@),
    {
        let value = self.get_operand_address_value(mode)?;
        let carry_in: u8 = if self.status.carry { 0x80 } else { 0 };
        let result = (value >> 1u8) | carry_in;
        self.store_result(mode, result)?;
        self.status.set_zn_flags(result);
        self.status.carry = (value & 0x01) != 0;
        self.apply_bytes_to_program_counter(bytes);
        Ok(())
    }

    pub fn inc(&mut self, mode: &AddressingMode, bytes: u8) -> (r: Result<(), NesError>)
        requires
            old(self).wf(),
        ensures
            final(self).wf(),
            outcome(r, exec_step_memory(old(self)@, *mode, bytes, 1), old(self)@, final(self)@),
    {
        let value = self.get_operand_address_value(mode)?;
        let result = value.wrapping_add(1);
        self.store_at(mode, result)?;
        self.status.set_zn_flags(result);
        self.apply_bytes_to_program_counter(bytes);
        Ok(())
    }

    pub fn dec(&mut self, mode: &AddressingMode, bytes: u8) -> (r: Result<(), NesError>)
        requires
            old(self).wf(),
        ensures
            final(self).wf(),
            outcome(r, exec_step_memory(old(self)@, *mode, bytes, 0xff), old(self)@, final(self)@),
    {
        let value = self.get_operand_address_value(mode)?;
        let result = value.wrapping_add(0xff);
        self.store_at(mode, result)?;
        self.status.set_zn_flags(result);
        self.apply_bytes_to_program_counter(bytes);
        Ok(())
    }
}

} // verus!
