use vstd::prelude::*;

use crate::cpu::semantics::{
    execute, execute_control, execute_operand, execute_register, is_control_instruction,
    is_operand_instruction, outcome, run_steps, step_spec,
};
use crate::cpu::cycles::step_cycles;
use crate::cpu::CPU;
use crate::errors::{access_error, ErrorKind, NesError};
use crate::opcodes::{get_opcode_detail, opcode_table, Instruction, OpCodeDetail};
use crate::memory::Mem;

verus! {

impl CPU {
    fn run_arithmetic_instruction(&mut self, opcode: &OpCodeDetail) -> (r: Result<(), NesError>)
        requires
            old(self).wf(),
            matches!(
                opcode.instruction,
                Instruction::ADC | Instruction::SBC | Instruction::AND | Instruction::ORA
                    | Instruction::EOR | Instruction::BIT | Instruction::LDA
            ),
        ensures
            final(self).wf(),
            outcome(r, execute_operand(old(self)@, *opcode), old(self)@, final(self)@),
    {
        let mode = &opcode.address_mode;
        let bytes = opcode.bytes;
        match opcode.instruction {
            Instruction::ADC => self.adc(mode, bytes),
            Instruction::SBC => self.sbc(mode, bytes),
            Instruction::AND => self.and(mode, bytes),
            Instruction::ORA => self.ora(mode, bytes),
            Instruction::EOR => self.eor(mode, bytes),
            Instruction::BIT => self.bit(mode, bytes),
            Instruction::LDA => self.lda(mode, bytes),
            _ => {
                proof {
                    assert(false);
                }
                Err(NesError::new(ErrorKind::UnknownOpcode(0), "instruction of another group"))
            },
        }
    }

    fn run_load_compare_store_instruction(&mut self, opcode: &OpCodeDetail) -> (r: Result<(), NesError>)
        requires
            old(self).wf(),
            matches!(
                opcode.instruction,
                Instruction::LDX | Instruction::LDY | Instruction::CMP | Instruction::CPX
                    | Instruction::CPY | Instruction::STA | Instruction::STX | Instruction::STY
            ),
        ensures
            final(self).wf(),
            outcome(r, execute_operand(old(self)@, *opcode), old(self)@, final(self)@),
    {
        let mode = &opcode.address_mode;
        let bytes = opcode.bytes;
        match opcode.instruction {
            Instruction::LDX => self.ldx(mode, bytes),
            Instruction::LDY => self.ldy(mode, bytes),
            Instruction::CMP => self.cmp(mode, bytes),
            Instruction::CPX => self.cpx(mode, bytes),
            Instruction::CPY => self.cpy(mode, bytes),
            Instruction::STA => self.sta(mode, bytes),
            Instruction::STX => self.stx(mode, bytes),
            Instruction::STY => self.sty(mode, bytes),
            _ => {
                proof {
                    assert(false);
                }
                Err(NesError::new(ErrorKind::UnknownOpcode(0), "instruction of another group"))
            },
        }
    }

    fn run_modify_instruction(&mut self, opcode: &OpCodeDetail) -> (r: Result<(), NesError>)
        requires
            old(self).wf(),
            matches!(
                opcode.instruction,
                Instruction::ASL | Instruction::LSR | Instruction::ROL | Instruction::ROR
                    | Instruction::INC | Instruction::DEC
            ),
        ensures
            final(self).wf(),
            outcome(r, execute_operand(old(self)@, *opcode), old(self)@, final(self)@),
    {
        let mode = &opcode.address_mode;
        let bytes = opcode.bytes;
        match opcode.instruction {
            Instruction::ASL => self.asl(mode, bytes),
            Instruction::LSR => self.lsr(mode, bytes),
            Instruction::ROL => self.rol(mode, bytes),
            Instruction::ROR => self.ror(mode, bytes),
            Instruction::INC => self.inc(mode, bytes),
            Instruction::DEC => self.dec(mode, bytes),
            _ => {
                proof {
                    assert(false);
                }
                Err(NesError::new(ErrorKind::UnknownOpcode(0), "instruction of another group"))
            },
        }
    }

    fn run_operand_instruction(&mut self, opcode: &OpCodeDetail) -> (r: Result<(), NesError>)
        requires
            old(self).wf(),
            is_operand_instruction(opcode.instruction),
        ensures
            final(self).wf(),
            outcome(r, execute_operand(old(self)@, *opcode), old(self)@, final(self)@),
    {
        match opcode.instruction {
            Instruction::ADC
            | Instruction::SBC
            | Instruction::AND
            | Instruction::ORA
            | Instruction::EOR
            | Instruction::BIT
            | Instruction::LDA => self.run_arithmetic_instruction(opcode),
            Instruction::LDX
            | Instruction::LDY
            | Instruction::CMP
            | Instruction::CPX
            | Instruction::CPY
            | Instruction::STA
            | Instruction::STX
            | Instruction::STY => self.run_load_compare_store_instruction(opcode),
            _ => self.run_modify_instruction(opcode),
        }
    }

    fn run_control_instruction(&mut self, opcode: &OpCodeDetail) -> (r: Result<(), NesError>)
        requires
            old(self).wf(),
            is_control_instruction(opcode.instruction),
        ensures
            final(self).wf(),
            outcome(r, execute_control(old(self)@, *opcode), old(self)@, final(self)@),
    {
        let mode = &opcode.address_mode;
        let bytes = opcode.bytes;
        match opcode.instruction {
            Instruction::BCC => self.bcc(mode, bytes),
            Instruction::BCS => self.bcs(mode, bytes),
            Instruction::BEQ => self.beq(mode, bytes),
            Instruction::BMI => self.bmi(mode, bytes),
            Instruction::BNE => self.bne(mode, bytes),
            Instruction::BPL => self.bpl(mode, bytes),
            Instruction::BRK => {
                self.brk();
                Ok(())
            },
            Instruction::BVC => self.bvc(mode, bytes),
            Instruction::BVS => self.bvs(mode, bytes),
            Instruction::JMP => self.jmp(mode),
            Instruction::JSR => self.jsr(mode),
            Instruction::RTI => {
                self.rti();
                Ok(())
            },
            Instruction::RTS => {
                self.rts();
                Ok(())
            },
            _ => {
                proof {
                    assert(false);
                }
                Err(NesError::new(ErrorKind::UnknownOpcode(0), "instruction of another group"))
            },
        }
    }

    fn run_register_instruction(&mut self, opcode: &OpCodeDetail) -> (r: Result<(), NesError>)
        requires
            old(self).wf(),
            !is_operand_instruction(opcode.instruction),
            !is_control_instruction(opcode.instruction),
        ensures
            final(self).wf(),
            outcome(r, execute_register(old(self)@, *opcode), old(self)@, final(self)@),
    {
        let mode = &opcode.address_mode;
        let bytes = opcode.bytes;
        match opcode.instruction {
            Instruction::CLC => {
                self.clc();
                self.apply_bytes_to_program_counter(bytes);
                Ok(())
            },
            Instruction::CLD => {
                self.cld();
                self.apply_bytes_to_program_counter(bytes);
                Ok(())
            },
            Instruction::CLI => {
                self.cli();
                self.apply_bytes_to_program_counter(bytes);
                Ok(())
            },
            Instruction::CLV => {
                self.clv();
                self.apply_bytes_to_program_counter(bytes);
                Ok(())
            },
            Instruction::DEX => {
                self.dex();
                self.apply_bytes_to_program_counter(bytes);
                Ok(())
            },
            Instruction::DEY => {
                self.dey();
                self.apply_bytes_to_program_counter(bytes);
                Ok(())
            },
            Instruction::INX => {
                self.inx();
                self.apply_bytes_to_program_counter(bytes);
                Ok(())
            },
            Instruction::INY => {
                self.iny();
                self.apply_bytes_to_program_counter(bytes);
                Ok(())
            },
            Instruction::NOP => {
                self.apply_bytes_to_program_counter(bytes);
                Ok(())
            },
            Instruction::PHA => {
                self.pha();
                self.apply_bytes_to_program_counter(bytes);
                Ok(())
            },
            Instruction::PHP => {
                self.php();
                self.apply_bytes_to_program_counter(bytes);
                Ok(())
            },
            Instruction::PLA => {
                self.pla();
                self.apply_bytes_to_program_counter(bytes);
                Ok(())
            },
            Instruction::PLP => {
                self.plp();
                self.apply_bytes_to_program_counter(bytes);
                Ok(())
            },
            Instruction::SEC => {
                self.sec();
                self.apply_bytes_to_program_counter(bytes);
                Ok(())
            },
            Instruction::SED => {
                self.sed();
                self.apply_bytes_to_program_counter(bytes);
                Ok(())
            },
            Instruction::SEI => {
                self.sei();
                self.apply_bytes_to_program_counter(bytes);
                Ok(())
            },
            Instruction::TAX => {
                self.tax();
                self.apply_bytes_to_program_counter(bytes);
                Ok(())
            },
            Instruction::TAY => {
                self.tay();
                self.apply_bytes_to_program_counter(bytes);
                Ok(())
            },
            Instruction::TSX => {
                self.tsx();
                self.apply_bytes_to_program_counter(bytes);
                Ok(())
            },
            Instruction::TXA => {
                self.txa();
                self.apply_bytes_to_program_counter(bytes);
                Ok(())
            },
            Instruction::TXS => {
                self.txs();
                self.apply_bytes_to_program_counter(bytes);
                Ok(())
            },
            Instruction::TYA => {
                self.tya();
                self.apply_bytes_to_program_counter(bytes);
                Ok(())
            },
            _ => {
                proof {
                    assert(false);
                }
                Err(NesError::new(ErrorKind::UnknownOpcode(0), "instruction of another group"))
            },
        }
    }

    /// Executes one decoded instruction whose opcode byte is at `program_counter`.
    pub fn run_opcode(&mut self, opcode: &OpCodeDetail) -> (r: Result<(), NesError>)
        requires
            old(self).wf(),
        ensures
            final(self).wf(),
            outcome(r, execute(old(self)@, *opcode), old(self)@, final(self)@),
    {
        match opcode.instruction {
            Instruction::ADC
            | Instruction::AND
            | Instruction::ASL
            | Instruction::BIT
            | Instruction::CMP
            | Instruction::CPX
            | Instruction::CPY
            | Instruction::DEC
            | Instruction::EOR
            | Instruction::INC
            | Instruction::LDA
            | Instruction::LDX
            | Instruction::LDY
            | Instruction::LSR
            | Instruction::ORA
            | Instruction::ROL
            | Instruction::ROR
            | Instruction::SBC
            | Instruction::STA
            | Instruction::STX
            | Instruction::STY => self.run_operand_instruction(opcode),
            Instruction::BCC
            | Instruction::BCS
            | Instruction::BEQ
            | Instruction::BMI
            | Instruction::BNE
            | Instruction::BPL
            | Instruction::BVC
            | Instruction::BVS
            | Instruction::JMP
            | Instruction::JSR
            | Instruction::RTS
            | Instruction::RTI
            | Instruction::BRK => self.run_control_instruction(opcode),
            _ => self.run_register_instruction(opcode),
        }
    }

    /// Fetches, decodes and executes the instruction at `program_counter`, and returns the
    /// cycles that it took.
    pub fn step(&mut self) -> (r: Result<u8, NesError>)
        requires
            old(self).wf(),
        ensures
            final(self).wf(),
            match (step_spec(old(self)@), step_cycles(old(self)@)) {
                (Some(t), Some(c)) => r is Ok && final(self)@ == t && r->Ok_0 == c,
                _ => r is Err && final(self)@ == old(self)@,
            },
            match old(self)@.bus.read(old(self).program_counter) {
                Some(code) => opcode_table(code) is None ==> r is Err && r->Err_0.kind
                    == ErrorKind::UnknownOpcode(code),
                None => r is Err && r->Err_0.kind == ErrorKind::BusError(old(self).program_counter),
            },
    {
        let code = self.bus.mem_read(self.program_counter)?;
        let opcode = get_opcode_detail(code)?;
        let cycles = self.major_cycles(&opcode)?;
        self.run_opcode(&opcode)?;
        Ok(cycles)
    }

    /// Decodes and executes `code`, the byte at `program_counter`.
    fn step_code(&mut self, code: u8) -> (r: Result<(), NesError>)
        requires
            old(self).wf(),
            old(self)@.bus.read(old(self).program_counter) == Some(code),
        ensures
            final(self).wf(),
            match step_spec(old(self)@) {
                Some(t) => r is Ok && final(self)@ == t,
                None => r is Err && final(self)@ == old(self)@,
            },
            r is Err ==> if opcode_table(code) is None {
                r->Err_0.kind == ErrorKind::UnknownOpcode(code)
            } else {
                access_error(r->Err_0.kind)
            },
    {
        let opcode = get_opcode_detail(code)?;
        self.run_opcode(&opcode)
    }

    /// Runs until the next instruction is `BRK` or an error comes up.
    pub fn run(&mut self) -> (r: Result<(), NesError>)
        requires
            old(self).wf(),
        ensures
            final(self).wf(),
            exists|n: nat| n <= u64::MAX && #[trigger] run_steps(old(self)@, n) == Some(final(self)@),
            (r is Ok) <==> final(self)@.bus.read(final(self).program_counter) == Some(0x00u8),
            r is Err ==> match final(self)@.bus.read(final(self).program_counter) {
                None => r->Err_0.kind == ErrorKind::BusError(final(self).program_counter),
                Some(code) => opcode_table(code) is None ==> r->Err_0.kind == ErrorKind::UnknownOpcode(
                    code,
                ),
            },
            r is Err && r->Err_0.kind != ErrorKind::StepLimitReached ==> step_spec(final(self)@) is None,
            r is Err && r->Err_0.kind == ErrorKind::StepLimitReached ==> run_steps(
                old(self)@,
                u64::MAX as nat,
            ) == Some(final(self)@),
    {
        self.run_with_callback(|cpu: &CPU| {})
    }

    /// Runs until the next instruction is `BRK` or an error comes up, handing the machine to
    /// `callback` before each instruction fetch. On an error the machine stays in the state where
    /// the failing instruction started. After `u64::MAX` instructions without a `BRK` it gives up
    /// with `StepLimitReached`.
    pub fn run_with_callback<F>(&mut self, mut callback: F) -> (r: Result<(), NesError>) where
        F: FnMut(&CPU),
        requires
            old(self).wf(),
            forall|c: &CPU| #[trigger] callback.requires((c,)),
        ensures
            final(self).wf(),
            exists|n: nat| n <= u64::MAX && #[trigger] run_steps(old(self)@, n) == Some(final(self)@),
            (r is Ok) <==> final(self)@.bus.read(final(self).program_counter) == Some(0x00u8),
            r is Err ==> match final(self)@.bus.read(final(self).program_counter) {
                None => r->Err_0.kind == ErrorKind::BusError(final(self).program_counter),
                Some(code) => opcode_table(code) is None ==> r->Err_0.kind == ErrorKind::UnknownOpcode(
                    code,
                ),
            },
            r is Err && r->Err_0.kind != ErrorKind::StepLimitReached ==> step_spec(final(self)@) is None,
            r is Err && r->Err_0.kind == ErrorKind::StepLimitReached ==> run_steps(
                old(self)@,
                u64::MAX as nat,
            ) == Some(final(self)@),
    {
        let mut budget: u64 = u64::MAX;
        let ghost start = self@;
        loop
            invariant
                self.wf(),
                forall|c: &CPU| #[trigger] callback.requires((c,)),
                start == old(self)@,
                run_steps(start, (u64::MAX - budget) as nat) == Some(self@),
            decreases budget,
        {
            callback(&*self);
            let code = match self.bus.mem_read(self.program_counter) {
                Ok(code) => code,
                Err(e) => {
                    proof {
                        assert(run_steps(start, (u64::MAX - budget) as nat) == Some(self@));
                    }
                    return Err(e);
                },
            };
            if code == 0x00 {
                proof {
                    assert(run_steps(start, (u64::MAX - budget) as nat) == Some(self@));
                }
                return Ok(());
            }
            if budget == 0 {
                let decoded = get_opcode_detail(code);
                if decoded.is_err() {
                    proof {
                        assert(run_steps(start, (u64::MAX - budget) as nat) == Some(self@));
                    }
                    return Err(NesError::new(ErrorKind::UnknownOpcode(code), "unknown opcode"));
                }
                proof {
                    assert(run_steps(start, (u64::MAX - budget) as nat) == Some(self@));
                }
                return Err(NesError::new(ErrorKind::StepLimitReached, "no BRK within the step limit"));
            }
            let ghost before = self@;
            let ghost k = (u64::MAX - budget) as nat;
            match self.step_code(code) {
                Ok(()) => {},
                Err(e) => {
                    proof {
                        assert(run_steps(start, k) == Some(self@));
                    }
                    return Err(e);
                },
            }
            proof {
                assert(run_steps(start, k + 1) == step_spec(before));
            }
            budget = budget - 1;
        }
    }
}

} // verus!
