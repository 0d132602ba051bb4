use vstd::prelude::*;

use crate::bus::{word, BusView};
use crate::errors::{access_error, NesError};
use crate::opcodes::{opcode_table, AddressingMode, Instruction, OpCodeDetail};
use crate::status::Status;

verus! {

/// The mathematical state of the machine: registers, status flags and the bus.
pub struct CpuState {
    pub a: u8,
    pub x: u8,
    pub y: u8,
    pub p: Status,
    pub pc: u16,
    pub sp: u8,
    pub bus: BusView,
}

/// The stack slot that a stack pointer designates, in page one.
pub open spec fn stack_slot(sp: u8) -> u16 {
    (0x0100 + sp) as u16
}

/// A relative branch offset, sign-extended to 16 bits.
pub open spec fn sign_extend(offset: u8) -> u16 {
    if offset < 0x80 {
        offset as u16
    } else {
        (offset as u16) | 0xff00
    }
}

/// Signed overflow of an 8-bit addition: both inputs share a sign and the result has the other.
pub open spec fn signed_overflow(a: u8, m: u8, r: u8) -> bool {
    (a & 0x80) == (m & 0x80) && (r & 0x80) != (a & 0x80)
}

impl BusView {
    pub open spec fn stack_write(self, sp: u8, v: u8) -> BusView {
        BusView { ram: self.ram.update(stack_slot(sp) as int, v), ..self }
    }

    pub open spec fn stack_read(self, sp: u8) -> u8 {
        self.ram[stack_slot(sp) as int]
    }
}

impl CpuState {
    pub open spec fn wf(self) -> bool {
        self.bus.wf()
    }

    /// The state after `len` more bytes of program.
    pub open spec fn advance(self, len: u8) -> CpuState {
        CpuState { pc: self.pc.wrapping_add(len as u16), ..self }
    }

    pub open spec fn with_p(self, p: Status) -> CpuState {
        CpuState { p, ..self }
    }

    pub open spec fn push(self, v: u8) -> CpuState {
        CpuState { bus: self.bus.stack_write(self.sp, v), sp: self.sp.wrapping_sub(1), ..self }
    }

    /// Pushes the high byte, then the low byte.
    pub open spec fn push_u16(self, v: u16) -> CpuState {
        self.push((v >> 8u16) as u8).push((v & 0xff) as u16 as u8)
    }

    /// The byte that a pull returns.
    pub open spec fn top(self) -> u8 {
        self.bus.stack_read(self.sp.wrapping_add(1))
    }

    pub open spec fn pop(self) -> CpuState {
        CpuState { sp: self.sp.wrapping_add(1), ..self }
    }

    /// The 16-bit value that a 16-bit pull returns: low byte first, then high byte.
    pub open spec fn top_u16(self) -> u16 {
        word(self.top(), self.pop().top())
    }

    pub open spec fn pop_u16(self) -> CpuState {
        self.pop().pop()
    }

    /// The effective address of the operand of the instruction at `pc`, or `None` when the mode
    /// has none or the bus refuses one of the reads.
    #[verifier::opaque]
    pub open spec fn operand_address(self, mode: AddressingMode) -> Option<u16> {
        let base = self.pc.wrapping_add(1);
        match mode {
            AddressingMode::Immediate | AddressingMode::Relative => Some(base),
            AddressingMode::ZeroPage => match self.bus.read(base) {
                Some(v) => Some(v as u16),
                None => None,
            },
            AddressingMode::ZeroPageX => match self.bus.read(base) {
                Some(v) => Some(v.wrapping_add(self.x) as u16),
                None => None,
            },
            AddressingMode::ZeroPageY => match self.bus.read(base) {
                Some(v) => Some(v.wrapping_add(self.y) as u16),
                None => None,
            },
            AddressingMode::Absolute => self.bus.read_u16(base),
            AddressingMode::AbsoluteX => match self.bus.read_u16(base) {
                Some(v) => Some(v.wrapping_add(self.x as u16)),
                None => None,
            },
            AddressingMode::AbsoluteY => match self.bus.read_u16(base) {
                Some(v) => Some(v.wrapping_add(self.y as u16)),
                None => None,
            },
            AddressingMode::Indirect => match self.bus.read_u16(base) {
                Some(v) => self.bus.read_u16_page_wrap(v),
                None => None,
            },
            AddressingMode::IndirectX => match self.bus.read(base) {
                Some(v) => self.bus.read_u16_page_wrap(v.wrapping_add(self.x) as u16),
                None => None,
            },
            AddressingMode::IndirectY => match self.bus.read(base) {
                Some(v) => match self.bus.read_u16_page_wrap(v as u16) {
                    Some(w) => Some(w.wrapping_add(self.y as u16)),
                    None => None,
                },
                None => None,
            },
            AddressingMode::Implied | AddressingMode::Accumulator => None,
        }
    }

    /// The operand byte: the accumulator in accumulator mode, else the byte at the effective
    /// address.
    pub open spec fn operand_value(self, mode: AddressingMode) -> Option<u8> {
        match mode {
            AddressingMode::Accumulator => Some(self.a),
            _ => match self.operand_address(mode) {
                Some(addr) => self.bus.read(addr),
                None => None,
            },
        }
    }

    /// Puts a result where the operand came from: the accumulator, or memory.
    pub open spec fn store(self, mode: AddressingMode, v: u8) -> Option<CpuState> {
        match mode {
            AddressingMode::Accumulator => Some(CpuState { a: v, ..self }),
            _ => match self.operand_address(mode) {
                Some(addr) => Some(CpuState { bus: self.bus.write(addr, v), ..self }),
                None => None,
            },
        }
    }

    /// Writes `v` at the effective address.
    pub open spec fn store_at(self, mode: AddressingMode, v: u8) -> Option<CpuState> {
        match self.operand_address(mode) {
            Some(addr) => Some(CpuState { bus: self.bus.write(addr, v), ..self }),
            None => None,
        }
    }
}

/// `r` reports the outcome `expected`: on success the machine is in that state, and on failure
/// it is still in the state `before` that the instruction started from.
pub open spec fn outcome(
    r: Result<(), NesError>,
    expected: Option<CpuState>,
    before: CpuState,
    after: CpuState,
) -> bool {
    match expected {
        Some(t) => r is Ok && after == t,
        None => r is Err && after == before && access_error(r->Err_0.kind),
    }
}

/// `A + M + C`: the new accumulator and the flags, with `V` from the signs of the operands.
pub open spec fn add_with_carry(s: CpuState, m: u8) -> CpuState {
    let sum = s.a as int + m as int + if s.p.carry {
        1int
    } else {
        0int
    };
    let r = (sum % 256) as u8;
    CpuState {
        a: r,
        p: Status { carry: sum > 255, overflow: signed_overflow(s.a, m, r), ..s.p.with_zn(r) },
        ..s
    }
}

/// `A - M - (1 - C)`, which the 6502 computes as `A + !M + C`.
pub open spec fn subtract_with_borrow(s: CpuState, m: u8) -> CpuState {
    add_with_carry(s, m ^ 0xff)
}

/// The flags of `reg - m`: `Z` on equality, `N` from bit 7 of the difference, `C` when
/// `reg >= m`.
pub open spec fn compare(p: Status, reg: u8, m: u8) -> Status {
    Status { carry: reg >= m, ..p.with_zn(reg.wrapping_sub(m)) }
}

/// Applies `f` to the operand and finishes by advancing past the instruction.
pub open spec fn with_operand(
    s: CpuState,
    mode: AddressingMode,
    len: u8,
    f: spec_fn(u8) -> CpuState,
) -> Option<CpuState> {
    match s.operand_value(mode) {
        Some(m) => Some(f(m).advance(len)),
        None => None,
    }
}

pub open spec fn exec_load_a(s: CpuState, mode: AddressingMode, len: u8) -> Option<CpuState> {
    with_operand(s, mode, len, |m: u8| CpuState { a: m, p: s.p.with_zn(m), ..s })
}

pub open spec fn exec_load_x(s: CpuState, mode: AddressingMode, len: u8) -> Option<CpuState> {
    with_operand(s, mode, len, |m: u8| CpuState { x: m, p: s.p.with_zn(m), ..s })
}

pub open spec fn exec_load_y(s: CpuState, mode: AddressingMode, len: u8) -> Option<CpuState> {
    with_operand(s, mode, len, |m: u8| CpuState { y: m, p: s.p.with_zn(m), ..s })
}

pub open spec fn exec_and(s: CpuState, mode: AddressingMode, len: u8) -> Option<CpuState> {
    with_operand(s, mode, len, |m: u8| CpuState { a: s.a & m, p: s.p.with_zn(s.a & m), ..s })
}

pub open spec fn exec_ora(s: CpuState, mode: AddressingMode, len: u8) -> Option<CpuState> {
    with_operand(s, mode, len, |m: u8| CpuState { a: s.a | m, p: s.p.with_zn(s.a | m), ..s })
}

pub open spec fn exec_eor(s: CpuState, mode: AddressingMode, len: u8) -> Option<CpuState> {
    with_operand(s, mode, len, |m: u8| CpuState { a: s.a ^ m, p: s.p.with_zn(s.a ^ m), ..s })
}

pub open spec fn exec_adc(s: CpuState, mode: AddressingMode, len: u8) -> Option<CpuState> {
    with_operand(s, mode, len, |m: u8| add_with_carry(s, m))
}

pub open spec fn exec_sbc(s: CpuState, mode: AddressingMode, len: u8) -> Option<CpuState> {
    with_operand(s, mode, len, |m: u8| subtract_with_borrow(s, m))
}

pub open spec fn exec_bit(s: CpuState, mode: AddressingMode, len: u8) -> Option<CpuState> {
    with_operand(
        s,
        mode,
        len,
        |m: u8|
            s.with_p(
                Status { zero: s.a & m == 0, negative: m & 0x80 != 0, overflow: m & 0x40 != 0, ..s.p },
            ),
    )
}

pub open spec fn exec_compare(s: CpuState, reg: u8, mode: AddressingMode, len: u8) -> Option<
    CpuState,
> {
    with_operand(s, mode, len, |m: u8| s.with_p(compare(s.p, reg, m)))
}

/// A read-modify-write: `r` is the result, `c` the new carry, computed from the operand.
pub open spec fn exec_modify(
    s: CpuState,
    mode: AddressingMode,
    len: u8,
    r: spec_fn(u8) -> u8,
    c: spec_fn(u8, bool) -> bool,
) -> Option<CpuState> {
    match s.operand_value(mode) {
        Some(v) => match s.store(mode, r(v)) {
            Some(t) => Some(
                t.with_p(Status { carry: c(v, s.p.carry), ..s.p.with_zn(r(v)) }).advance(len),
            ),
            None => None,
        },
        None => None,
    }
}

pub open spec fn exec_asl(s: CpuState, mode: AddressingMode, len: u8) -> Option<CpuState> {
    exec_modify(s, mode, len, |v: u8| v << 1u8, |v: u8, c: bool| v & 0x80 != 0)
}

pub open spec fn exec_lsr(s: CpuState, mode: AddressingMode, len: u8) -> Option<CpuState> {
    exec_modify(s, mode, len, |v: u8| v >> 1u8, |v: u8, c: bool| v & 0x01 != 0)
}

pub open spec fn exec_rol(s: CpuState, mode: AddressingMode, len: u8) -> Option<CpuState> {
    exec_modify(
        s,
        mode,
        len,
        |v: u8|
            (v << 1u8) | if s.p.carry {
                1u8
            } else {
                0u8
            },
        |v: u8, c: bool| v & 0x80 != 0,
    )
}

pub open spec fn exec_ror(s: CpuState, mode: AddressingMode, len: u8) -> Option<CpuState> {
    exec_modify(
        s,
        mode,
        len,
        |v: u8|
            (v >> 1u8) | if s.p.carry {
                0x80u8
            } else {
                0u8
            },
        |v: u8, c: bool| v & 0x01 != 0,
    )
}

/// `INC` and `DEC` on memory: `delta` is added to the byte, wrapping.
pub open spec fn exec_step_memory(s: CpuState, mode: AddressingMode, len: u8, delta: u8) -> Option<
    CpuState,
> {
    match s.operand_value(mode) {
        Some(v) => match s.store_at(mode, v.wrapping_add(delta)) {
            Some(t) => Some(t.with_p(s.p.with_zn(v.wrapping_add(delta))).advance(len)),
            None => None,
        },
        None => None,
    }
}

pub open spec fn exec_store(s: CpuState, mode: AddressingMode, len: u8, v: u8) -> Option<
    CpuState,
> {
    match s.store_at(mode, v) {
        Some(t) => Some(t.advance(len)),
        None => None,
    }
}

/// A conditional branch: when `taken`, the offset after the opcode is added to the address of
/// the next instruction.
pub open spec fn exec_branch(s: CpuState, taken: bool, mode: AddressingMode, len: u8) -> Option<
    CpuState,
> {
    if taken {
        match s.operand_value(mode) {
            Some(off) => Some(
                CpuState { pc: s.pc.wrapping_add(len as u16).wrapping_add(sign_extend(off)), ..s },
            ),
            None => None,
        }
    } else {
        Some(s.advance(len))
    }
}

pub open spec fn exec_jmp(s: CpuState, mode: AddressingMode) -> Option<CpuState> {
    match s.operand_address(mode) {
        Some(t) => Some(CpuState { pc: t, ..s }),
        None => None,
    }
}

/// `JSR`: pushes the address of its own last byte, then jumps.
pub open spec fn exec_jsr(s: CpuState, mode: AddressingMode) -> Option<CpuState> {
    match s.operand_address(mode) {
        Some(t) => Some(CpuState { pc: t, ..s.push_u16(s.pc.wrapping_add(2)) }),
        None => None,
    }
}

pub open spec fn exec_rts(s: CpuState) -> CpuState {
    CpuState { pc: s.top_u16().wrapping_add(1), ..s.pop_u16() }
}

/// The byte that `PHP` and `BRK` push: the flags with `B` and `U` set.
pub open spec fn pushed_status(p: Status) -> u8 {
    p.to_byte() | 0x30
}

/// Flags pulled from the stack, with `B` and `U` kept from the running register.
pub open spec fn pulled_status(p: Status, v: u8) -> Status {
    Status { break_flag: p.break_flag, ignored: p.ignored, ..Status::from_byte(v) }
}

pub open spec fn exec_plp(s: CpuState) -> CpuState {
    s.pop().with_p(pulled_status(s.p, s.top()))
}

pub open spec fn exec_rti(s: CpuState) -> CpuState {
    let t = exec_plp(s);
    CpuState { pc: t.top_u16(), ..t.pop_u16() }
}

/// `BRK`: pushes `pc + 2` and the flags, sets `I`, and jumps through the vector at `0xFFFE`.
pub open spec fn exec_brk(s: CpuState) -> Option<CpuState> {
    let t = s.push_u16(s.pc.wrapping_add(2)).push(pushed_status(s.p));
    match s.bus.read_u16(0xfffe) {
        Some(target) => Some(
            CpuState { pc: target, p: Status { interrupt: true, ..s.p }, ..t },
        ),
        None => None,
    }
}

pub open spec fn transfer_a(s: CpuState, v: u8, len: u8) -> CpuState {
    CpuState { a: v, p: s.p.with_zn(v), ..s }.advance(len)
}

pub open spec fn transfer_x(s: CpuState, v: u8, len: u8) -> CpuState {
    CpuState { x: v, p: s.p.with_zn(v), ..s }.advance(len)
}

pub open spec fn transfer_y(s: CpuState, v: u8, len: u8) -> CpuState {
    CpuState { y: v, p: s.p.with_zn(v), ..s }.advance(len)
}

pub open spec fn set_flags(s: CpuState, p: Status, len: u8) -> CpuState {
    s.with_p(p).advance(len)
}

/// Instructions that read or write an operand.
pub open spec fn execute_operand(s: CpuState, d: OpCodeDetail) -> Option<CpuState> {
    let mode = d.address_mode;
    let len = d.bytes;
    match d.instruction {
        Instruction::ADC => exec_adc(s, mode, len),
        Instruction::AND => exec_and(s, mode, len),
        Instruction::ASL => exec_asl(s, mode, len),
        Instruction::BIT => exec_bit(s, mode, len),
        Instruction::CMP => exec_compare(s, s.a, mode, len),
        Instruction::CPX => exec_compare(s, s.x, mode, len),
        Instruction::CPY => exec_compare(s, s.y, mode, len),
        Instruction::DEC => exec_step_memory(s, mode, len, 0xff),
        Instruction::EOR => exec_eor(s, mode, len),
        Instruction::INC => exec_step_memory(s, mode, len, 1),
        Instruction::LDA => exec_load_a(s, mode, len),
        Instruction::LDX => exec_load_x(s, mode, len),
        Instruction::LDY => exec_load_y(s, mode, len),
        Instruction::LSR => exec_lsr(s, mode, len),
        Instruction::ORA => exec_ora(s, mode, len),
        Instruction::ROL => exec_rol(s, mode, len),
        Instruction::ROR => exec_ror(s, mode, len),
        Instruction::SBC => exec_sbc(s, mode, len),
        Instruction::STA => exec_store(s, mode, len, s.a),
        Instruction::STX => exec_store(s, mode, len, s.x),
        Instruction::STY => exec_store(s, mode, len, s.y),
        _ => None,
    }
}

/// Branches, jumps, subroutine and interrupt instructions.
pub open spec fn execute_control(s: CpuState, d: OpCodeDetail) -> Option<CpuState> {
    let mode = d.address_mode;
    let len = d.bytes;
    match d.instruction {
        Instruction::BCC => exec_branch(s, !s.p.carry, mode, len),
        Instruction::BCS => exec_branch(s, s.p.carry, mode, len),
        Instruction::BEQ => exec_branch(s, s.p.zero, mode, len),
        Instruction::BMI => exec_branch(s, s.p.negative, mode, len),
        Instruction::BNE => exec_branch(s, !s.p.zero, mode, len),
        Instruction::BPL => exec_branch(s, !s.p.negative, mode, len),
        Instruction::BRK => exec_brk(s),
        Instruction::BVC => exec_branch(s, !s.p.overflow, mode, len),
        Instruction::BVS => exec_branch(s, s.p.overflow, mode, len),
        Instruction::JMP => exec_jmp(s, mode),
        Instruction::JSR => exec_jsr(s, mode),
        Instruction::RTI => Some(exec_rti(s)),
        Instruction::RTS => Some(exec_rts(s)),
        _ => None,
    }
}

/// Instructions on registers, flags and the stack alone.
pub open spec fn execute_register(s: CpuState, d: OpCodeDetail) -> Option<CpuState> {
    let mode = d.address_mode;
    let len = d.bytes;
    match d.instruction {
        Instruction::CLC => Some(set_flags(s, Status { carry: false, ..s.p }, len)),
        Instruction::CLD => Some(set_flags(s, Status { decimal: false, ..s.p }, len)),
        Instruction::CLI => Some(set_flags(s, Status { interrupt: false, ..s.p }, len)),
        Instruction::CLV => Some(set_flags(s, Status { overflow: false, ..s.p }, len)),
        Instruction::DEX => Some(transfer_x(s, s.x.wrapping_sub(1), len)),
        Instruction::DEY => Some(transfer_y(s, s.y.wrapping_sub(1), len)),
        Instruction::INX => Some(transfer_x(s, s.x.wrapping_add(1), len)),
        Instruction::INY => Some(transfer_y(s, s.y.wrapping_add(1), len)),
        Instruction::NOP => Some(s.advance(len)),
        Instruction::PHA => Some(s.push(s.a).advance(len)),
        Instruction::PHP => Some(s.push(pushed_status(s.p)).advance(len)),
        Instruction::PLA => Some(transfer_a(s.pop(), s.top(), len)),
        Instruction::PLP => Some(exec_plp(s).advance(len)),
        Instruction::SEC => Some(set_flags(s, Status { carry: true, ..s.p }, len)),
        Instruction::SED => Some(set_flags(s, Status { decimal: true, ..s.p }, len)),
        Instruction::SEI => Some(set_flags(s, Status { interrupt: true, ..s.p }, len)),
        Instruction::TAX => Some(transfer_x(s, s.a, len)),
        Instruction::TAY => Some(transfer_y(s, s.a, len)),
        Instruction::TSX => Some(transfer_x(s, s.sp, len)),
        Instruction::TXA => Some(transfer_a(s, s.x, len)),
        Instruction::TXS => Some(CpuState { sp: s.x, ..s }.advance(len)),
        Instruction::TYA => Some(transfer_a(s, s.y, len)),
        _ => None,
    }
}

pub open spec fn is_operand_instruction(i: Instruction) -> bool {
    matches!(
        i,
        Instruction::ADC | Instruction::AND | Instruction::ASL | Instruction::BIT
            | Instruction::CMP | Instruction::CPX | Instruction::CPY | Instruction::DEC
            | Instruction::EOR | Instruction::INC | Instruction::LDA | Instruction::LDX
            | Instruction::LDY | Instruction::LSR | Instruction::ORA | Instruction::ROL
            | Instruction::ROR | Instruction::SBC | Instruction::STA | Instruction::STX
            | Instruction::STY
    )
}

pub open spec fn is_control_instruction(i: Instruction) -> bool {
    matches!(
        i,
        Instruction::BCC | Instruction::BCS | Instruction::BEQ | Instruction::BMI
            | Instruction::BNE | Instruction::BPL | Instruction::BVC | Instruction::BVS
            | Instruction::JMP | Instruction::JSR | Instruction::RTS | Instruction::RTI
            | Instruction::BRK
    )
}

/// One instruction, decoded as `d`, executed on `s`; `None` where the bus refuses an access.
pub open spec fn execute(s: CpuState, d: OpCodeDetail) -> Option<CpuState> {
    if is_operand_instruction(d.instruction) {
        execute_operand(s, d)
    } else if is_control_instruction(d.instruction) {
        execute_control(s, d)
    } else {
        execute_register(s, d)
    }
}

/// One fetch-decode-execute cycle; `None` on a refused access or an unknown opcode.
pub open spec fn step_spec(s: CpuState) -> Option<CpuState> {
    match s.bus.read(s.pc) {
        Some(code) => match opcode_table(code) {
            Some(d) => execute(s, d),
            None => None,
        },
        None => None,
    }
}

/// The state after `n` instructions from `s`, none of which is a `BRK`; `None` where one of
/// them fails or is a `BRK`.
pub open spec fn run_steps(s: CpuState, n: nat) -> Option<CpuState>
    decreases n,
{
    if n == 0 {
        Some(s)
    } else {
        match run_steps(s, (n - 1) as nat) {
            Some(t) => if t.bus.read(t.pc) == Some(0x00u8) {
                None
            } else {
                step_spec(t)
            },
            None => None,
        }
    }
}

/// No instruction changes the `U` or `B` bit of the running status register.
pub proof fn lemma_execute_keeps_u_and_b(s: CpuState, d: OpCodeDetail)
    requires
        execute(s, d) is Some,
    ensures
        execute(s, d)->Some_0.p.ignored == s.p.ignored,
        execute(s, d)->Some_0.p.break_flag == s.p.break_flag,
{
}

/// The byte that `PHP` and `BRK` push has `B` and `U` set, and the other bits of the register.
pub proof fn lemma_pushed_status(p: Status)
    ensures
        Status::from_byte(pushed_status(p)) == (Status { ignored: true, break_flag: true, ..p }),
{
    crate::status::lemma_unpack_pack(p);
    let b = p.to_byte();
    assert((b | 0x30) & 0x20 != 0 && (b | 0x30) & 0x10 != 0 && (b | 0x30) & 0x80 == b & 0x80
        && (b | 0x30) & 0x40 == b & 0x40 && (b | 0x30) & 0x08 == b & 0x08 && (b | 0x30) & 0x04
        == b & 0x04 && (b | 0x30) & 0x02 == b & 0x02 && (b | 0x30) & 0x01 == b & 0x01)
        by (bit_vector);
}

/// The overflow flag as the hardware computes it, from the signs of the operands and result.
pub proof fn lemma_overflow_bits(a: u8, m: u8, r: u8)
    ensures
        signed_overflow(a, m, r) == (((a ^ r) & (m ^ r) & 0x80) != 0),
{
    assert(((a & 0x80) == (m & 0x80) && (r & 0x80) != (a & 0x80)) == (((a ^ r) & (m ^ r) & 0x80)
        != 0)) by (bit_vector);
}

/// `ADC` sets `V` exactly when `(A ^ R) & (M ^ R) & 0x80` is non-zero, where `R` is the low byte
/// of `A + M + C`.
pub proof fn lemma_adc_overflow_law(s: CpuState, m: u8)
    ensures
        ({
            let c = if s.p.carry {
                1int
            } else {
                0int
            };
            let r = ((s.a + m + c) % 256) as u8;
            &&& add_with_carry(s, m).a == r
            &&& add_with_carry(s, m).p.overflow == (((s.a ^ r) & (m ^ r) & 0x80) != 0)
        }),
{
    lemma_overflow_bits(s.a, m, add_with_carry(s, m).a);
}

/// `SBC` with operand `M` is `ADC` with operand `!M`, flags included.
pub proof fn lemma_sbc_is_adc_of_complement(s: CpuState, mode: AddressingMode, len: u8)
    ensures
        exec_sbc(s, mode, len) == match s.operand_value(mode) {
            Some(m) => Some(add_with_carry(s, !m).advance(len)),
            None => None,
        },
{
    match s.operand_value(mode) {
        Some(m) => {
            assert(m ^ 0xff == !m) by (bit_vector);
        },
        None => {},
    }
}

/// A `JSR` followed by an `RTS` continues at the instruction after the `JSR`, with the stack
/// pointer where it was.
pub proof fn lemma_jsr_rts_round_trip(s: CpuState, mode: AddressingMode)
    requires
        s.wf(),
        exec_jsr(s, mode) is Some,
    ensures
        exec_rts(exec_jsr(s, mode)->Some_0).pc == s.pc.wrapping_add(3),
        exec_rts(exec_jsr(s, mode)->Some_0).sp == s.sp,
{
    let t = exec_jsr(s, mode)->Some_0;
    crate::cpu::stack::lemma_push_pull_u16(s, s.pc.wrapping_add(2));
    assert(t.top_u16() == s.push_u16(s.pc.wrapping_add(2)).top_u16());
    assert(s.pc.wrapping_add(2).wrapping_add(1) == s.pc.wrapping_add(3));
}

/// `Z` and `N` of `p` are those of the result byte `v`: `Z == (v == 0)`, `N == (v >> 7)`.
pub open spec fn zn_of(p: Status, v: u8) -> bool {
    p.zero == (v == 0) && p.negative == (v >> 7u8 == 1)
}

/// The result byte of an instruction that has one, from the state `s` that it starts in and the
/// state `t` that it leaves; `None` for instructions without a result byte.
pub open spec fn result_byte(s: CpuState, t: CpuState, d: OpCodeDetail) -> Option<u8> {
    let v = s.operand_value(d.address_mode)->Some_0;
    let c: u8 = if s.p.carry {
        1
    } else {
        0
    };
    match d.instruction {
        Instruction::LDA | Instruction::AND | Instruction::ORA | Instruction::EOR
        | Instruction::ADC | Instruction::SBC | Instruction::TXA | Instruction::TYA
        | Instruction::PLA => Some(t.a),
        Instruction::LDX | Instruction::TAX | Instruction::TSX | Instruction::INX
        | Instruction::DEX => Some(t.x),
        Instruction::LDY | Instruction::TAY | Instruction::INY | Instruction::DEY => Some(t.y),
        Instruction::CMP => Some(s.a.wrapping_sub(v)),
        Instruction::CPX => Some(s.x.wrapping_sub(v)),
        Instruction::CPY => Some(s.y.wrapping_sub(v)),
        Instruction::ASL => Some(v << 1u8),
        Instruction::LSR => Some(v >> 1u8),
        Instruction::ROL => Some((v << 1u8) | c),
        Instruction::ROR => Some((v >> 1u8) | (c << 7u8)),
        Instruction::INC => Some(v.wrapping_add(1)),
        Instruction::DEC => Some(v.wrapping_add(0xff)),
        _ => None,
    }
}

/// Every instruction that produces a result byte (a load, transfer, logic or arithmetic
/// operation, increment, decrement, shift, rotate or compare) leaves `Z == (result == 0)` and
/// `N == (result >> 7)`.
pub proof fn lemma_execute_zero_negative(s: CpuState, d: OpCodeDetail)
    requires
        execute(s, d) is Some,
        result_byte(s, execute(s, d)->Some_0, d) is Some,
    ensures
        zn_of(execute(s, d)->Some_0.p, result_byte(s, execute(s, d)->Some_0, d)->Some_0),
{
    assert forall|x: u8| #![auto] (x & 0x80 != 0) == (x >> 7u8 == 1) by {
        assert((x & 0x80 != 0) == (x >> 7u8 == 1)) by (bit_vector);
    }
    assert forall|x: u8| #![auto] ((x >> 1u8) | 0x80u8) >> 7u8 == 1 && ((x >> 1u8) | 0u8) == x >> 1u8
        by {
        assert(((x >> 1u8) | 0x80u8) >> 7u8 == 1 && ((x >> 1u8) | 0u8) == x >> 1u8) by (bit_vector);
    }
    assert((1u8 << 7u8) == 0x80u8 && (0u8 << 7u8) == 0u8) by (bit_vector);
}

} // verus!
