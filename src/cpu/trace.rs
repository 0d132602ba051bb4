use vstd::prelude::*;
use vstd::string::{StrSliceExecFns, StringExecFns};

use crate::bus::BusView;
use crate::cpu::semantics::{sign_extend, CpuState};
use crate::cpu::CPU;
use crate::errors::NesError;
use crate::opcodes::{get_opcode_detail, opcode_table, operand_length, AddressingMode, OpCodeDetail};
use crate::memory::Mem;

verus! {

/// The upper-case hexadecimal digit of a nibble.
pub open spec fn hex_char(n: u8) -> char {
    match n {
        0 => '0',
        1 => '1',
        2 => '2',
        3 => '3',
        4 => '4',
        5 => '5',
        6 => '6',
        7 => '7',
        8 => '8',
        9 => '9',
        10 => 'A',
        11 => 'B',
        12 => 'C',
        13 => 'D',
        14 => 'E',
        15 => 'F',
        _ => '?',
    }
}

/// Two hexadecimal digits.
pub open spec fn hex2(b: u8) -> Seq<char> {
    seq![hex_char(b >> 4u8), hex_char(b & 0x0f)]
}

/// Four hexadecimal digits.
pub open spec fn hex4(w: u16) -> Seq<char> {
    hex2((w >> 8u16) as u8) + hex2((w & 0xff) as u8)
}

pub open spec fn spaces(n: int) -> Seq<char> {
    Seq::new(n as nat, |i: int| ' ')
}

/// `s` followed by spaces up to `width` characters.
pub open spec fn pad(s: Seq<char>, width: int) -> Seq<char> {
    if s.len() >= width {
        s
    } else {
        s + spaces(width - s.len())
    }
}

/// The opcode byte and its operand bytes, in hexadecimal, separated by spaces.
pub open spec fn raw_text(b: BusView, pc: u16, code: u8, n: u8) -> Option<Seq<char>> {
    if n == 0 {
        Some(hex2(code))
    } else {
        match b.read(pc.wrapping_add(1)) {
            Some(b1) => if n == 1 {
                Some(hex2(code) + " "@ + hex2(b1))
            } else {
                match b.read(pc.wrapping_add(2)) {
                    Some(b2) => Some(hex2(code) + " "@ + hex2(b1) + " "@ + hex2(b2)),
                    None => None,
                }
            },
            None => None,
        }
    }
}

/// The operand as the disassembly shows it, with the effective address and the byte there.
pub open spec fn operand_text(s: CpuState, d: OpCodeDetail) -> Option<Seq<char>> {
    let base = s.pc.wrapping_add(1);
    match d.address_mode {
        AddressingMode::Implied => Some(Seq::empty()),
        AddressingMode::Accumulator => Some(" A"@),
        AddressingMode::Immediate => match s.bus.read(base) {
            Some(b1) => Some(" #$"@ + hex2(b1)),
            None => None,
        },
        AddressingMode::Relative => match s.bus.read(base) {
            Some(b1) => Some(
                " $"@ + hex4(s.pc.wrapping_add(d.bytes as u16).wrapping_add(sign_extend(b1))),
            ),
            None => None,
        },
        AddressingMode::ZeroPage => match (s.bus.read(base), s.operand_value(d.address_mode)) {
            (Some(b1), Some(v)) => Some(" $"@ + hex2(b1) + " = "@ + hex2(v)),
            _ => None,
        },
        AddressingMode::ZeroPageX => match (s.bus.read(base), s.operand_value(d.address_mode)) {
            (Some(b1), Some(v)) => Some(
                " $"@ + hex2(b1) + ",X @ "@ + hex2(b1.wrapping_add(s.x)) + " = "@ + hex2(v),
            ),
            _ => None,
        },
        AddressingMode::ZeroPageY => match (s.bus.read(base), s.operand_value(d.address_mode)) {
            (Some(b1), Some(v)) => Some(
                " $"@ + hex2(b1) + ",Y @ "@ + hex2(b1.wrapping_add(s.y)) + " = "@ + hex2(v),
            ),
            _ => None,
        },
        AddressingMode::Absolute => match s.bus.read_u16(base) {
            Some(w) => Some(" $"@ + hex4(w)),
            None => None,
        },
        AddressingMode::AbsoluteX => match (
            s.bus.read_u16(base),
            s.operand_address(d.address_mode),
            s.operand_value(d.address_mode),
        ) {
            (Some(w), Some(a), Some(v)) => Some(
                " $"@ + hex4(w) + ",X @ "@ + hex4(a) + " = "@ + hex2(v),
            ),
            _ => None,
        },
        AddressingMode::AbsoluteY => match (
            s.bus.read_u16(base),
            s.operand_address(d.address_mode),
            s.operand_value(d.address_mode),
        ) {
            (Some(w), Some(a), Some(v)) => Some(
                " $"@ + hex4(w) + ",Y @ "@ + hex4(a) + " = "@ + hex2(v),
            ),
            _ => None,
        },
        AddressingMode::Indirect => match (s.bus.read_u16(base), s.operand_address(d.address_mode)) {
            (Some(w), Some(a)) => Some(" ($"@ + hex4(w) + ") = "@ + hex4(a)),
            _ => None,
        },
        AddressingMode::IndirectX => match (
            s.bus.read(base),
            s.operand_address(d.address_mode),
            s.operand_value(d.address_mode),
        ) {
            (Some(b1), Some(a), Some(v)) => Some(
                " ($"@ + hex2(b1) + ",X) @ "@ + hex2(b1.wrapping_add(s.x)) + " = "@ + hex4(a)
                    + " = "@ + hex2(v),
            ),
            _ => None,
        },
        AddressingMode::IndirectY => match s.bus.read(base) {
            Some(b1) => match (
                s.bus.read_u16_page_wrap(b1 as u16),
                s.operand_address(d.address_mode),
                s.operand_value(d.address_mode),
            ) {
                (Some(p), Some(a), Some(v)) => Some(
                    " ($"@ + hex2(b1) + "),Y = "@ + hex4(p) + " @ "@ + hex4(a) + " = "@ + hex2(v),
                ),
                _ => None,
            },
            None => None,
        },
    }
}

pub open spec fn registers_text(s: CpuState) -> Seq<char> {
    "A:"@ + hex2(s.a) + " X:"@ + hex2(s.x) + " Y:"@ + hex2(s.y) + " P:"@ + hex2(s.p.to_byte())
        + " SP:"@ + hex2(s.sp)
}

/// The trace line of the instruction at `pc`: address, raw bytes, disassembly, registers.
pub open spec fn trace_line(s: CpuState) -> Option<Seq<char>> {
    match s.bus.read(s.pc) {
        Some(code) => match opcode_table(code) {
            Some(d) => match (
                raw_text(s.bus, s.pc, code, operand_length(d.address_mode)),
                operand_text(s, d),
            ) {
                (Some(raw), Some(text)) => Some(
                    pad(hex4(s.pc), 6) + pad(raw, 10) + pad(d.instruction.spec_name() + text, 32)
                        + registers_text(s),
                ),
                _ => None,
            },
            None => None,
        },
        None => None,
    }
}

fn hex_digit(n: u8) -> (r: &'static str)
    requires
        n < 16,
    ensures
        r@ == seq![hex_char(n)],
{
    match n {
        0 => {
            proof {
                reveal_strlit("0");
            }
            "0"
        },
        1 => {
            proof {
                reveal_strlit("1");
            }
            "1"
        },
        2 => {
            proof {
                reveal_strlit("2");
            }
            "2"
        },
        3 => {
            proof {
                reveal_strlit("3");
            }
            "3"
        },
        4 => {
            proof {
                reveal_strlit("4");
            }
            "4"
        },
        5 => {
            proof {
                reveal_strlit("5");
            }
            "5"
        },
        6 => {
            proof {
                reveal_strlit("6");
            }
            "6"
        },
        7 => {
            proof {
                reveal_strlit("7");
            }
            "7"
        },
        8 => {
            proof {
                reveal_strlit("8");
            }
            "8"
        },
        9 => {
            proof {
                reveal_strlit("9");
            }
            "9"
        },
        10 => {
            proof {
                reveal_strlit("A");
            }
            "A"
        },
        11 => {
            proof {
                reveal_strlit("B");
            }
            "B"
        },
        12 => {
            proof {
                reveal_strlit("C");
            }
            "C"
        },
        13 => {
            proof {
                reveal_strlit("D");
            }
            "D"
        },
        14 => {
            proof {
                reveal_strlit("E");
            }
            "E"
        },
        15 => {
            proof {
                reveal_strlit("F");
            }
            "F"
        },
        _ => {
            proof {
                reveal_strlit("F");
            }
            "F"
        },
    }
}

fn push_hex2(out: &mut String, b: u8)
    ensures
        final(out)@ == old(out)@ + hex2(b),
{
    assert(b >> 4u8 < 16 && b & 0x0f < 16) by (bit_vector);
    out.append(hex_digit(b >> 4u8));
    out.append(hex_digit(b & 0x0f));
    assert(final(out)@ =~= old(out)@ + hex2(b));
}

fn push_hex4(out: &mut String, w: u16)
    ensures
        final(out)@ == old(out)@ + hex4(w),
{
    push_hex2(out, (w >> 8u16) as u8);
    push_hex2(out, (w & 0xff) as u8);
    assert(final(out)@ =~= old(out)@ + hex4(w));
}

/// Appends spaces to `string` up to `length` characters.
pub fn pad_string(string: String, length: usize) -> (r: String)
    ensures
        r@ == pad(string@, length as int),
{
    let ghost start = string@;
    let mut extended = string;
    proof {
        reveal_strlit(" ");
    }
    while extended.as_str().unicode_len() < length
        invariant
            extended@ =~= start + spaces(extended@.len() - start.len()),
            extended@.len() >= start.len(),
            start.len() < length ==> extended@.len() <= length,
            start.len() >= length ==> extended@.len() == start.len(),
        decreases length - extended@.len(),
    {
        proof {
            reveal_strlit(" ");
        }
        extended.append(" ");
        assert(extended@ =~= start + spaces(extended@.len() - start.len()));
    }
    proof {
        if start.len() >= length {
            assert(extended@ =~= start);
        }
    }
    extended
}

fn program_counter_string(cpu: &CPU) -> (r: String)
    ensures
        r@ == pad(hex4(cpu.program_counter), 6),
{
    let mut out = String::new();
    push_hex4(&mut out, cpu.program_counter);
    assert(out@ =~= hex4(cpu.program_counter));
    pad_string(out, 6)
}

fn cpu_opcode_string(cpu: &CPU, code: u8, d: &OpCodeDetail) -> (r: Result<String, NesError>)
    requires
        cpu.wf(),
        cpu@.bus.read(cpu.program_counter) == Some(code),
    ensures
        match raw_text(cpu@.bus, cpu.program_counter, code, operand_length(d.address_mode)) {
            Some(t) => r is Ok && r->Ok_0@ == pad(t, 10),
            None => r is Err,
        },
{
    let mut out = String::new();
    push_hex2(&mut out, code);
    assert(out@ =~= hex2(code));
    match d.address_mode {
        AddressingMode::Implied | AddressingMode::Accumulator => {},
        AddressingMode::Absolute
        | AddressingMode::AbsoluteX
        | AddressingMode::AbsoluteY
        | AddressingMode::Indirect => {
            let b1 = cpu.bus.mem_read(cpu.program_counter.wrapping_add(1))?;
            let b2 = cpu.bus.mem_read(cpu.program_counter.wrapping_add(2))?;
            out.append(" ");
            push_hex2(&mut out, b1);
            out.append(" ");
            push_hex2(&mut out, b2);
        },
        _ => {
            let b1 = cpu.bus.mem_read(cpu.program_counter.wrapping_add(1))?;
            out.append(" ");
            push_hex2(&mut out, b1);
        },
    }
    Ok(pad_string(out, 10))
}

fn zero_page_text(cpu: &CPU, d: &OpCodeDetail) -> (r: Result<String, NesError>)
    requires
        cpu.wf(),
        d.address_mode == AddressingMode::ZeroPage || d.address_mode == AddressingMode::ZeroPageX
            || d.address_mode == AddressingMode::ZeroPageY,
    ensures
        match operand_text(cpu@, *d) {
            Some(t) => r is Ok && r->Ok_0@ == t,
            None => r is Err,
        },
{
    let b1 = cpu.bus.mem_read(cpu.program_counter.wrapping_add(1))?;
    let v = cpu.get_operand_address_value(&d.address_mode)?;
    let mut out = String::from_str(" $");
    push_hex2(&mut out, b1);
    match d.address_mode {
        AddressingMode::ZeroPageX => {
            out.append(",X @ ");
            push_hex2(&mut out, b1.wrapping_add(cpu.register_x));
        },
        AddressingMode::ZeroPageY => {
            out.append(",Y @ ");
            push_hex2(&mut out, b1.wrapping_add(cpu.register_y));
        },
        _ => {},
    }
    out.append(" = ");
    push_hex2(&mut out, v);
    Ok(out)
}

fn absolute_text(cpu: &CPU, d: &OpCodeDetail) -> (r: Result<String, NesError>)
    requires
        cpu.wf(),
        d.address_mode == AddressingMode::Absolute || d.address_mode == AddressingMode::AbsoluteX
            || d.address_mode == AddressingMode::AbsoluteY,
    ensures
        match operand_text(cpu@, *d) {
            Some(t) => r is Ok && r->Ok_0@ == t,
            None => r is Err,
        },
{
    let w = cpu.bus.mem_read_u16(cpu.program_counter.wrapping_add(1))?;
    let mut out = String::from_str(" $");
    push_hex4(&mut out, w);
    match d.address_mode {
        AddressingMode::AbsoluteX | AddressingMode::AbsoluteY => {
            let a = cpu.get_operand_address(&d.address_mode)?;
            let v = cpu.get_operand_address_value(&d.address_mode)?;
            if d.address_mode == AddressingMode::AbsoluteX {
                out.append(",X @ ");
            } else {
                out.append(",Y @ ");
            }
            push_hex4(&mut out, a);
            out.append(" = ");
            push_hex2(&mut out, v);
        },
        _ => {},
    }
    Ok(out)
}

fn indirect_text(cpu: &CPU, d: &OpCodeDetail) -> (r: Result<String, NesError>)
    requires
        cpu.wf(),
        d.address_mode == AddressingMode::Indirect,
    ensures
        match operand_text(cpu@, *d) {
            Some(t) => r is Ok && r->Ok_0@ == t,
            None => r is Err,
        },
{
    let w = cpu.bus.mem_read_u16(cpu.program_counter.wrapping_add(1))?;
    let a = cpu.get_operand_address(&d.address_mode)?;
    let mut out = String::from_str(" ($");
    push_hex4(&mut out, w);
    out.append(") = ");
    push_hex4(&mut out, a);
    Ok(out)
}

fn indirect_x_text(cpu: &CPU, d: &OpCodeDetail) -> (r: Result<String, NesError>)
    requires
        cpu.wf(),
        d.address_mode == AddressingMode::IndirectX,
    ensures
        match operand_text(cpu@, *d) {
            Some(t) => r is Ok && r->Ok_0@ == t,
            None => r is Err,
        },
{
    let b1 = cpu.bus.mem_read(cpu.program_counter.wrapping_add(1))?;
    let a = cpu.get_operand_address(&d.address_mode)?;
    let v = cpu.get_operand_address_value(&d.address_mode)?;
    let mut out = String::from_str(" ($");
    push_hex2(&mut out, b1);
    out.append(",X) @ ");
    push_hex2(&mut out, b1.wrapping_add(cpu.register_x));
    out.append(" = ");
    push_hex4(&mut out, a);
    out.append(" = ");
    push_hex2(&mut out, v);
    Ok(out)
}

fn indirect_y_text(cpu: &CPU, d: &OpCodeDetail) -> (r: Result<String, NesError>)
    requires
        cpu.wf(),
        d.address_mode == AddressingMode::IndirectY,
    ensures
        match operand_text(cpu@, *d) {
            Some(t) => r is Ok && r->Ok_0@ == t,
            None => r is Err,
        },
{
    let b1 = cpu.bus.mem_read(cpu.program_counter.wrapping_add(1))?;
    let p = cpu.bus.mem_read_u16_wrapping_boundary(b1 as u16)?;
    let a = cpu.get_operand_address(&d.address_mode)?;
    let v = cpu.get_operand_address_value(&d.address_mode)?;
    let mut out = String::from_str(" ($");
    push_hex2(&mut out, b1);
    out.append("),Y = ");
    push_hex4(&mut out, p);
    out.append(" @ ");
    push_hex4(&mut out, a);
    out.append(" = ");
    push_hex2(&mut out, v);
    Ok(out)
}

/// The operand as the disassembly shows it.
fn operand_string(cpu: &CPU, d: &OpCodeDetail) -> (r: Result<String, NesError>)
    requires
        cpu.wf(),
    ensures
        match operand_text(cpu@, *d) {
            Some(t) => r is Ok && r->Ok_0@ == t,
            None => r is Err,
        },
{
    match d.address_mode {
        AddressingMode::Implied => Ok(String::new()),
        AddressingMode::Accumulator => Ok(String::from_str(" A")),
        AddressingMode::Immediate => {
            let b1 = cpu.bus.mem_read(cpu.program_counter.wrapping_add(1))?;
            let mut out = String::from_str(" #$");
            push_hex2(&mut out, b1);
            Ok(out)
        },
        AddressingMode::Relative => {
            let b1 = cpu.bus.mem_read(cpu.program_counter.wrapping_add(1))?;
            let offset: u16 = if b1 < 0x80 { b1 as u16 } else { (b1 as u16) | 0xff00 };
            let target = cpu.program_counter.wrapping_add(d.bytes as u16).wrapping_add(offset);
            let mut out = String::from_str(" $");
            push_hex4(&mut out, target);
            Ok(out)
        },
        AddressingMode::ZeroPage | AddressingMode::ZeroPageX | AddressingMode::ZeroPageY => {
            zero_page_text(cpu, d)
        },
        AddressingMode::Absolute | AddressingMode::AbsoluteX | AddressingMode::AbsoluteY => {
            absolute_text(cpu, d)
        },
        AddressingMode::Indirect => indirect_text(cpu, d),
        AddressingMode::IndirectX => indirect_x_text(cpu, d),
        AddressingMode::IndirectY => indirect_y_text(cpu, d),
    }
}

fn cpu_opcode_assembly_string(cpu: &CPU, d: &OpCodeDetail) -> (r: Result<String, NesError>)
    requires
        cpu.wf(),
    ensures
        match operand_text(cpu@, *d) {
            Some(t) => r is Ok && r->Ok_0@ == pad(d.instruction.spec_name() + t, 32),
            None => r is Err,
        },
{
    let mut out = String::from_str(d.instruction.name());
    let operand = operand_string(cpu, d)?;
    out.append(operand.as_str());
    Ok(pad_string(out, 32))
}

fn registers_string(cpu: &CPU) -> (r: String)
    ensures
        r@ == registers_text(cpu@),
{
    let mut out = String::from_str("A:");
    push_hex2(&mut out, cpu.register_a);
    out.append(" X:");
    push_hex2(&mut out, cpu.register_x);
    out.append(" Y:");
    push_hex2(&mut out, cpu.register_y);
    out.append(" P:");
    push_hex2(&mut out, cpu.status.get_status_byte());
    out.append(" SP:");
    push_hex2(&mut out, cpu.stack_pointer);
    out
}

/// The trace line of the instruction at the program counter, in the format of `nestest.log`
/// without the cycle columns. Reads the bus only; the machine is not changed.
pub fn trace(cpu: &CPU) -> (r: Result<String, NesError>)
    requires
        cpu.wf(),
    ensures
        match trace_line(cpu@) {
            Some(t) => r is Ok && r->Ok_0@ == t,
            None => r is Err,
        },
{
    let code = cpu.bus.mem_read(cpu.program_counter)?;
    let d = get_opcode_detail(code)?;
    let mut line = program_counter_string(cpu);
    let raw = cpu_opcode_string(cpu, code, &d)?;
    let assembly = cpu_opcode_assembly_string(cpu, &d)?;
    let registers = registers_string(cpu);
    line.append(raw.as_str());
    line.append(assembly.as_str());
    line.append(registers.as_str());
    Ok(line)
}

} // verus!
