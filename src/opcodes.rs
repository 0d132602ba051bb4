use vstd::prelude::*;

use crate::errors::{ErrorKind, NesError};

verus! {

/// The mnemonics of the official 6502 instruction set.
#[derive(Clone, Copy, Debug, PartialEq, Eq, Structural)]
pub enum Instruction {
    ADC,
    AND,
    ASL,
    BCC,
    BCS,
    BEQ,
    BIT,
    BMI,
    BNE,
    BPL,
    BRK,
    BVC,
    BVS,
    CLC,
    CLD,
    CLI,
    CLV,
    CMP,
    CPX,
    CPY,
    DEC,
    DEX,
    DEY,
    EOR,
    INC,
    INX,
    INY,
    JMP,
    JSR,
    LDA,
    LDX,
    LDY,
    LSR,
    NOP,
    ORA,
    PHA,
    PHP,
    PLA,
    PLP,
    ROL,
    ROR,
    RTI,
    RTS,
    SBC,
    SEC,
    SED,
    SEI,
    STA,
    STX,
    STY,
    TAX,
    TAY,
    TSX,
    TXA,
    TXS,
    TYA,
}

/// The rule by which an instruction finds its operand.
#[derive(Clone, Copy, Debug, PartialEq, Eq, Structural)]
pub enum AddressingMode {
    Immediate,
    ZeroPage,
    ZeroPageX,
    ZeroPageY,
    Absolute,
    AbsoluteX,
    AbsoluteY,
    Indirect,
    IndirectX,
    IndirectY,
    Implied,
    Relative,
    Accumulator,
}

/// What the decoder knows of one opcode.
#[derive(Clone, Copy, Debug, PartialEq, Eq, Structural)]
pub struct OpCodeDetail {
    pub instruction: Instruction,
    pub bytes: u8,
    pub cycles: u8,
    pub address_mode: AddressingMode,
}

pub open spec fn detail(instruction: Instruction, bytes: u8, cycles: u8, address_mode: AddressingMode) -> OpCodeDetail {
    OpCodeDetail { instruction, bytes, cycles, address_mode }
}

/// The number of operand bytes that follow an opcode in each addressing mode.
pub open spec fn operand_length(mode: AddressingMode) -> u8 {
    match mode {
        AddressingMode::Implied | AddressingMode::Accumulator => 0,
        AddressingMode::Absolute | AddressingMode::AbsoluteX | AddressingMode::AbsoluteY
        | AddressingMode::Indirect => 2,
        _ => 1,
    }
}

/// The official opcodes of the NMOS 6502: mnemonic, length in bytes, base cycles, mode.
pub open spec fn opcode_table(code: u8) -> Option<OpCodeDetail> {
    match code {
        0x00 => Some(detail(Instruction::BRK, 1, 7, AddressingMode::Implied)),
        0x01 => Some(detail(Instruction::ORA, 2, 6, AddressingMode::IndirectX)),
        0x05 => Some(detail(Instruction::ORA, 2, 3, AddressingMode::ZeroPage)),
        0x06 => Some(detail(Instruction::ASL, 2, 5, AddressingMode::ZeroPage)),
        0x08 => Some(detail(Instruction::PHP, 1, 3, AddressingMode::Implied)),
        0x09 => Some(detail(Instruction::ORA, 2, 2, AddressingMode::Immediate)),
        0x0A => Some(detail(Instruction::ASL, 1, 2, AddressingMode::Accumulator)),
        0x0D => Some(detail(Instruction::ORA, 3, 4, AddressingMode::Absolute)),
        0x0E => Some(detail(Instruction::ASL, 3, 6, AddressingMode::Absolute)),
        0x10 => Some(detail(Instruction::BPL, 2, 2, AddressingMode::Relative)),
        0x11 => Some(detail(Instruction::ORA, 2, 5, AddressingMode::IndirectY)),
        0x15 => Some(detail(Instruction::ORA, 2, 4, AddressingMode::ZeroPageX)),
        0x16 => Some(detail(Instruction::ASL, 2, 6, AddressingMode::ZeroPageX)),
        0x18 => Some(detail(Instruction::CLC, 1, 2, AddressingMode::Implied)),
        0x19 => Some(detail(Instruction::ORA, 3, 4, AddressingMode::AbsoluteY)),
        0x1D => Some(detail(Instruction::ORA, 3, 4, AddressingMode::AbsoluteX)),
        0x1E => Some(detail(Instruction::ASL, 3, 7, AddressingMode::AbsoluteX)),
        0x20 => Some(detail(Instruction::JSR, 3, 6, AddressingMode::Absolute)),
        0x21 => Some(detail(Instruction::AND, 2, 6, AddressingMode::IndirectX)),
        0x24 => Some(detail(Instruction::BIT, 2, 3, AddressingMode::ZeroPage)),
        0x25 => Some(detail(Instruction::AND, 2, 3, AddressingMode::ZeroPage)),
        0x26 => Some(detail(Instruction::ROL, 2, 5, AddressingMode::ZeroPage)),
        0x28 => Some(detail(Instruction::PLP, 1, 4, AddressingMode::Implied)),
        0x29 => Some(detail(Instruction::AND, 2, 2, AddressingMode::Immediate)),
        0x2A => Some(detail(Instruction::ROL, 1, 2, AddressingMode::Accumulator)),
        0x2C => Some(detail(Instruction::BIT, 3, 4, AddressingMode::Absolute)),
        0x2D => Some(detail(Instruction::AND, 3, 4, AddressingMode::Absolute)),
        0x2E => Some(detail(Instruction::ROL, 3, 6, AddressingMode::Absolute)),
        0x30 => Some(detail(Instruction::BMI, 2, 2, AddressingMode::Relative)),
        0x31 => Some(detail(Instruction::AND, 2, 5, AddressingMode::IndirectY)),
        0x35 => Some(detail(Instruction::AND, 2, 4, AddressingMode::ZeroPageX)),
        0x36 => Some(detail(Instruction::ROL, 2, 6, AddressingMode::ZeroPageX)),
        0x38 => Some(detail(Instruction::SEC, 1, 2, AddressingMode::Implied)),
        0x39 => Some(detail(Instruction::AND, 3, 4, AddressingMode::AbsoluteY)),
        0x3D => Some(detail(Instruction::AND, 3, 4, AddressingMode::AbsoluteX)),
        0x3E => Some(detail(Instruction::ROL, 3, 7, AddressingMode::AbsoluteX)),
        0x40 => Some(detail(Instruction::RTI, 1, 6, AddressingMode::Implied)),
        0x41 => Some(detail(Instruction::EOR, 2, 6, AddressingMode::IndirectX)),
        0x45 => Some(detail(Instruction::EOR, 2, 3, AddressingMode::ZeroPage)),
        0x46 => Some(detail(Instruction::LSR, 2, 5, AddressingMode::ZeroPage)),
        0x48 => Some(detail(Instruction::PHA, 1, 3, AddressingMode::Implied)),
        0x49 => Some(detail(Instruction::EOR, 2, 2, AddressingMode::Immediate)),
        0x4A => Some(detail(Instruction::LSR, 1, 2, AddressingMode::Accumulator)),
        0x4C => Some(detail(Instruction::JMP, 3, 3, AddressingMode::Absolute)),
        0x4D => Some(detail(Instruction::EOR, 3, 4, AddressingMode::Absolute)),
        0x4E => Some(detail(Instruction::LSR, 3, 6, AddressingMode::Absolute)),
        0x50 => Some(detail(Instruction::BVC, 2, 2, AddressingMode::Relative)),
        0x51 => Some(detail(Instruction::EOR, 2, 5, AddressingMode::IndirectY)),
        0x55 => Some(detail(Instruction::EOR, 2, 4, AddressingMode::ZeroPageX)),
        0x56 => Some(detail(Instruction::LSR, 2, 6, AddressingMode::ZeroPageX)),
        0x58 => Some(detail(Instruction::CLI, 1, 2, AddressingMode::Implied)),
        0x59 => Some(detail(Instruction::EOR, 3, 4, AddressingMode::AbsoluteY)),
        0x5D => Some(detail(Instruction::EOR, 3, 4, AddressingMode::AbsoluteX)),
        0x5E => Some(detail(Instruction::LSR, 3, 7, AddressingMode::AbsoluteX)),
        0x60 => Some(detail(Instruction::RTS, 1, 6, AddressingMode::Implied)),
        0x61 => Some(detail(Instruction::ADC, 2, 6, AddressingMode::IndirectX)),
        0x65 => Some(detail(Instruction::ADC, 2, 3, AddressingMode::ZeroPage)),
        0x66 => Some(detail(Instruction::ROR, 2, 5, AddressingMode::ZeroPage)),
        0x68 => Some(detail(Instruction::PLA, 1, 4, AddressingMode::Implied)),
        0x69 => Some(detail(Instruction::ADC, 2, 2, AddressingMode::Immediate)),
        0x6A => Some(detail(Instruction::ROR, 1, 2, AddressingMode::Accumulator)),
        0x6C => Some(detail(Instruction::JMP, 3, 5, AddressingMode::Indirect)),
        0x6D => Some(detail(Instruction::ADC, 3, 4, AddressingMode::Absolute)),
        0x6E => Some(detail(Instruction::ROR, 3, 6, AddressingMode::Absolute)),
        0x70 => Some(detail(Instruction::BVS, 2, 2, AddressingMode::Relative)),
        0x71 => Some(detail(Instruction::ADC, 2, 5, AddressingMode::IndirectY)),
        0x75 => Some(detail(Instruction::ADC, 2, 4, AddressingMode::ZeroPageX)),
        0x76 => Some(detail(Instruction::ROR, 2, 6, AddressingMode::ZeroPageX)),
        0x78 => Some(detail(Instruction::SEI, 1, 2, AddressingMode::Implied)),
        0x79 => Some(detail(Instruction::ADC, 3, 4, AddressingMode::AbsoluteY)),
        0x7D => Some(detail(Instruction::ADC, 3, 4, AddressingMode::AbsoluteX)),
        0x7E => Some(detail(Instruction::ROR, 3, 7, AddressingMode::AbsoluteX)),
        0x81 => Some(detail(Instruction::STA, 2, 6, AddressingMode::IndirectX)),
        0x84 => Some(detail(Instruction::STY, 2, 3, AddressingMode::ZeroPage)),
        0x85 => Some(detail(Instruction::STA, 2, 3, AddressingMode::ZeroPage)),
        0x86 => Some(detail(Instruction::STX, 2, 3, AddressingMode::ZeroPage)),
        0x88 => Some(detail(Instruction::DEY, 1, 2, AddressingMode::Implied)),
        0x8A => Some(detail(Instruction::TXA, 1, 2, AddressingMode::Implied)),
        0x8C => Some(detail(Instruction::STY, 3, 4, AddressingMode::Absolute)),
        0x8D => Some(detail(Instruction::STA, 3, 4, AddressingMode::Absolute)),
        0x8E => Some(detail(Instruction::STX, 3, 4, AddressingMode::Absolute)),
        0x90 => Some(detail(Instruction::BCC, 2, 2, AddressingMode::Relative)),
        0x91 => Some(detail(Instruction::STA, 2, 6, AddressingMode::IndirectY)),
        0x94 => Some(detail(Instruction::STY, 2, 4, AddressingMode::ZeroPageX)),
        0x95 => Some(detail(Instruction::STA, 2, 4, AddressingMode::ZeroPageX)),
        0x96 => Some(detail(Instruction::STX, 2, 4, AddressingMode::ZeroPageY)),
        0x98 => Some(detail(Instruction::TYA, 1, 2, AddressingMode::Implied)),
        0x99 => Some(detail(Instruction::STA, 3, 5, AddressingMode::AbsoluteY)),
        0x9A => Some(detail(Instruction::TXS, 1, 2, AddressingMode::Implied)),
        0x9D => Some(detail(Instruction::STA, 3, 5, AddressingMode::AbsoluteX)),
        0xA0 => Some(detail(Instruction::LDY, 2, 2, AddressingMode::Immediate)),
        0xA1 => Some(detail(Instruction::LDA, 2, 6, AddressingMode::IndirectX)),
        0xA2 => Some(detail(Instruction::LDX, 2, 2, AddressingMode::Immediate)),
        0xA4 => Some(detail(Instruction::LDY, 2, 3, AddressingMode::ZeroPage)),
        0xA5 => Some(detail(Instruction::LDA, 2, 3, AddressingMode::ZeroPage)),
        0xA6 => Some(detail(Instruction::LDX, 2, 3, AddressingMode::ZeroPage)),
        0xA8 => Some(detail(Instruction::TAY, 1, 2, AddressingMode::Implied)),
        0xA9 => Some(detail(Instruction::LDA, 2, 2, AddressingMode::Immediate)),
        0xAA => Some(detail(Instruction::TAX, 1, 2, AddressingMode::Implied)),
        0xAC => Some(detail(Instruction::LDY, 3, 4, AddressingMode::Absolute)),
        0xAD => Some(detail(Instruction::LDA, 3, 4, AddressingMode::Absolute)),
        0xAE => Some(detail(Instruction::LDX, 3, 4, AddressingMode::Absolute)),
        0xB0 => Some(detail(Instruction::BCS, 2, 2, AddressingMode::Relative)),
        0xB1 => Some(detail(Instruction::LDA, 2, 5, AddressingMode::IndirectY)),
        0xB4 => Some(detail(Instruction::LDY, 2, 4, AddressingMode::ZeroPageX)),
        0xB5 => Some(detail(Instruction::LDA, 2, 4, AddressingMode::ZeroPageX)),
        0xB6 => Some(detail(Instruction::LDX, 2, 4, AddressingMode::ZeroPageY)),
        0xB8 => Some(detail(Instruction::CLV, 1, 2, AddressingMode::Implied)),
        0xB9 => Some(detail(Instruction::LDA, 3, 4, AddressingMode::AbsoluteY)),
        0xBA => Some(detail(Instruction::TSX, 1, 2, AddressingMode::Implied)),
        0xBC => Some(detail(Instruction::LDY, 3, 4, AddressingMode::AbsoluteX)),
        0xBD => Some(detail(Instruction::LDA, 3, 4, AddressingMode::AbsoluteX)),
        0xBE => Some(detail(Instruction::LDX, 3, 4, AddressingMode::AbsoluteY)),
        0xC0 => Some(detail(Instruction::CPY, 2, 2, AddressingMode::Immediate)),
        0xC1 => Some(detail(Instruction::CMP, 2, 6, AddressingMode::IndirectX)),
        0xC4 => Some(detail(Instruction::CPY, 2, 3, AddressingMode::ZeroPage)),
        0xC5 => Some(detail(Instruction::CMP, 2, 3, AddressingMode::ZeroPage)),
        0xC6 => Some(detail(Instruction::DEC, 2, 5, AddressingMode::ZeroPage)),
        0xC8 => Some(detail(Instruction::INY, 1, 2, AddressingMode::Implied)),
        0xC9 => Some(detail(Instruction::CMP, 2, 2, AddressingMode::Immediate)),
        0xCA => Some(detail(Instruction::DEX, 1, 2, AddressingMode::Implied)),
        0xCC => Some(detail(Instruction::CPY, 3, 4, AddressingMode::Absolute)),
        0xCD => Some(detail(Instruction::CMP, 3, 4, AddressingMode::Absolute)),
        0xCE => Some(detail(Instruction::DEC, 3, 6, AddressingMode::Absolute)),
        0xD0 => Some(detail(Instruction::BNE, 2, 2, AddressingMode::Relative)),
        0xD1 => Some(detail(Instruction::CMP, 2, 5, AddressingMode::IndirectY)),
        0xD5 => Some(detail(Instruction::CMP, 2, 4, AddressingMode::ZeroPageX)),
        0xD6 => Some(detail(Instruction::DEC, 2, 6, AddressingMode::ZeroPageX)),
        0xD8 => Some(detail(Instruction::CLD, 1, 2, AddressingMode::Implied)),
        0xD9 => Some(detail(Instruction::CMP, 3, 4, AddressingMode::AbsoluteY)),
        0xDD => Some(detail(Instruction::CMP, 3, 4, AddressingMode::AbsoluteX)),
        0xDE => Some(detail(Instruction::DEC, 3, 7, AddressingMode::AbsoluteX)),
        0xE0 => Some(detail(Instruction::CPX, 2, 2, AddressingMode::Immediate)),
        0xE1 => Some(detail(Instruction::SBC, 2, 6, AddressingMode::IndirectX)),
        0xE4 => Some(detail(Instruction::CPX, 2, 3, AddressingMode::ZeroPage)),
        0xE5 => Some(detail(Instruction::SBC, 2, 3, AddressingMode::ZeroPage)),
        0xE6 => Some(detail(Instruction::INC, 2, 5, AddressingMode::ZeroPage)),
        0xE8 => Some(detail(Instruction::INX, 1, 2, AddressingMode::Implied)),
        0xE9 => Some(detail(Instruction::SBC, 2, 2, AddressingMode::Immediate)),
        0xEA => Some(detail(Instruction::NOP, 1, 2, AddressingMode::Implied)),
        0xEC => Some(detail(Instruction::CPX, 3, 4, AddressingMode::Absolute)),
        0xED => Some(detail(Instruction::SBC, 3, 4, AddressingMode::Absolute)),
        0xEE => Some(detail(Instruction::INC, 3, 6, AddressingMode::Absolute)),
        0xF0 => Some(detail(Instruction::BEQ, 2, 2, AddressingMode::Relative)),
        0xF1 => Some(detail(Instruction::SBC, 2, 5, AddressingMode::IndirectY)),
        0xF5 => Some(detail(Instruction::SBC, 2, 4, AddressingMode::ZeroPageX)),
        0xF6 => Some(detail(Instruction::INC, 2, 6, AddressingMode::ZeroPageX)),
        0xF8 => Some(detail(Instruction::SED, 1, 2, AddressingMode::Implied)),
        0xF9 => Some(detail(Instruction::SBC, 3, 4, AddressingMode::AbsoluteY)),
        0xFD => Some(detail(Instruction::SBC, 3, 4, AddressingMode::AbsoluteX)),
        0xFE => Some(detail(Instruction::INC, 3, 7, AddressingMode::AbsoluteX)),
        _ => None,
    }
}

impl Instruction {
    pub open spec fn spec_name(self) -> Seq<char> {
        match self {
            Instruction::ADC => "ADC"@,
            Instruction::AND => "AND"@,
            Instruction::ASL => "ASL"@,
            Instruction::BCC => "BCC"@,
            Instruction::BCS => "BCS"@,
            Instruction::BEQ => "BEQ"@,
            Instruction::BIT => "BIT"@,
            Instruction::BMI => "BMI"@,
            Instruction::BNE => "BNE"@,
            Instruction::BPL => "BPL"@,
            Instruction::BRK => "BRK"@,
            Instruction::BVC => "BVC"@,
            Instruction::BVS => "BVS"@,
            Instruction::CLC => "CLC"@,
            Instruction::CLD => "CLD"@,
            Instruction::CLI => "CLI"@,
            Instruction::CLV => "CLV"@,
            Instruction::CMP => "CMP"@,
            Instruction::CPX => "CPX"@,
            Instruction::CPY => "CPY"@,
            Instruction::DEC => "DEC"@,
            Instruction::DEX => "DEX"@,
            Instruction::DEY => "DEY"@,
            Instruction::EOR => "EOR"@,
            Instruction::INC => "INC"@,
            Instruction::INX => "INX"@,
            Instruction::INY => "INY"@,
            Instruction::JMP => "JMP"@,
            Instruction::JSR => "JSR"@,
            Instruction::LDA => "LDA"@,
            Instruction::LDX => "LDX"@,
            Instruction::LDY => "LDY"@,
            Instruction::LSR => "LSR"@,
            Instruction::NOP => "NOP"@,
            Instruction::ORA => "ORA"@,
            Instruction::PHA => "PHA"@,
            Instruction::PHP => "PHP"@,
            Instruction::PLA => "PLA"@,
            Instruction::PLP => "PLP"@,
            Instruction::ROL => "ROL"@,
            Instruction::ROR => "ROR"@,
            Instruction::RTI => "RTI"@,
            Instruction::RTS => "RTS"@,
            Instruction::SBC => "SBC"@,
            Instruction::SEC => "SEC"@,
            Instruction::SED => "SED"@,
            Instruction::SEI => "SEI"@,
            Instruction::STA => "STA"@,
            Instruction::STX => "STX"@,
            Instruction::STY => "STY"@,
            Instruction::TAX => "TAX"@,
            Instruction::TAY => "TAY"@,
            Instruction::TSX => "TSX"@,
            Instruction::TXA => "TXA"@,
            Instruction::TXS => "TXS"@,
            Instruction::TYA => "TYA"@,
        }
    }

    /// The three-letter mnemonic.
    pub fn name(&self) -> (r: &'static str)
        ensures
            r@ == self.spec_name(),
    {
        match self {
            Instruction::ADC => "ADC",
            Instruction::AND => "AND",
            Instruction::ASL => "ASL",
            Instruction::BCC => "BCC",
            Instruction::BCS => "BCS",
            Instruction::BEQ => "BEQ",
            Instruction::BIT => "BIT",
            Instruction::BMI => "BMI",
            Instruction::BNE => "BNE",
            Instruction::BPL => "BPL",
            Instruction::BRK => "BRK",
            Instruction::BVC => "BVC",
            Instruction::BVS => "BVS",
            Instruction::CLC => "CLC",
            Instruction::CLD => "CLD",
            Instruction::CLI => "CLI",
            Instruction::CLV => "CLV",
            Instruction::CMP => "CMP",
            Instruction::CPX => "CPX",
            Instruction::CPY => "CPY",
            Instruction::DEC => "DEC",
            Instruction::DEX => "DEX",
            Instruction::DEY => "DEY",
            Instruction::EOR => "EOR",
            Instruction::INC => "INC",
            Instruction::INX => "INX",
            Instruction::INY => "INY",
            Instruction::JMP => "JMP",
            Instruction::JSR => "JSR",
            Instruction::LDA => "LDA",
            Instruction::LDX => "LDX",
            Instruction::LDY => "LDY",
            Instruction::LSR => "LSR",
            Instruction::NOP => "NOP",
            Instruction::ORA => "ORA",
            Instruction::PHA => "PHA",
            Instruction::PHP => "PHP",
            Instruction::PLA => "PLA",
            Instruction::PLP => "PLP",
            Instruction::ROL => "ROL",
            Instruction::ROR => "ROR",
            Instruction::RTI => "RTI",
            Instruction::RTS => "RTS",
            Instruction::SBC => "SBC",
            Instruction::SEC => "SEC",
            Instruction::SED => "SED",
            Instruction::SEI => "SEI",
            Instruction::STA => "STA",
            Instruction::STX => "STX",
            Instruction::STY => "STY",
            Instruction::TAX => "TAX",
            Instruction::TAY => "TAY",
            Instruction::TSX => "TSX",
            Instruction::TXA => "TXA",
            Instruction::TXS => "TXS",
            Instruction::TYA => "TYA",
        }
    }
}

impl OpCodeDetail {
    pub fn new(instruction: Instruction, bytes: u8, cycles: u8, address_mode: AddressingMode) -> (r: OpCodeDetail)
        ensures
            r == detail(instruction, bytes, cycles, address_mode),
    {
        OpCodeDetail { instruction, bytes, cycles, address_mode }
    }
}

/// An official opcode, named by its byte.
#[derive(Clone, Copy, Debug, PartialEq, Eq, Structural)]
pub enum OpCode {
    X00,
    X01,
    X05,
    X06,
    X08,
    X09,
    X0a,
    X0d,
    X0e,
    X10,
    X11,
    X15,
    X16,
    X18,
    X19,
    X1d,
    X1e,
    X20,
    X21,
    X24,
    X25,
    X26,
    X28,
    X29,
    X2a,
    X2c,
    X2d,
    X2e,
    X30,
    X31,
    X35,
    X36,
    X38,
    X39,
    X3d,
    X3e,
    X40,
    X41,
    X45,
    X46,
    X48,
    X49,
    X4a,
    X4c,
    X4d,
    X4e,
    X50,
    X51,
    X55,
    X56,
    X58,
    X59,
    X5d,
    X5e,
    X60,
    X61,
    X65,
    X66,
    X68,
    X69,
    X6a,
    X6c,
    X6d,
    X6e,
    X70,
    X71,
    X75,
    X76,
    X78,
    X79,
    X7d,
    X7e,
    X81,
    X84,
    X85,
    X86,
    X88,
    X8a,
    X8c,
    X8d,
    X8e,
    X90,
    X91,
    X94,
    X95,
    X96,
    X98,
    X99,
    X9a,
    X9d,
    Xa0,
    Xa1,
    Xa2,
    Xa4,
    Xa5,
    Xa6,
    Xa8,
    Xa9,
    Xaa,
    Xac,
    Xad,
    Xae,
    Xb0,
    Xb1,
    Xb4,
    Xb5,
    Xb6,
    Xb8,
    Xb9,
    Xba,
    Xbc,
    Xbd,
    Xbe,
    Xc0,
    Xc1,
    Xc4,
    Xc5,
    Xc6,
    Xc8,
    Xc9,
    Xca,
    Xcc,
    Xcd,
    Xce,
    Xd0,
    Xd1,
    Xd5,
    Xd6,
    Xd8,
    Xd9,
    Xdd,
    Xde,
    Xe0,
    Xe1,
    Xe4,
    Xe5,
    Xe6,
    Xe8,
    Xe9,
    Xea,
    Xec,
    Xed,
    Xee,
    Xf0,
    Xf1,
    Xf5,
    Xf6,
    Xf8,
    Xf9,
    Xfd,
    Xfe,
}

impl OpCode {
    pub open spec fn spec_code(self) -> u8 {
        match self {
            OpCode::X00 => 0x00,
            OpCode::X01 => 0x01,
            OpCode::X05 => 0x05,
            OpCode::X06 => 0x06,
            OpCode::X08 => 0x08,
            OpCode::X09 => 0x09,
            OpCode::X0a => 0x0A,
            OpCode::X0d => 0x0D,
            OpCode::X0e => 0x0E,
            OpCode::X10 => 0x10,
            OpCode::X11 => 0x11,
            OpCode::X15 => 0x15,
            OpCode::X16 => 0x16,
            OpCode::X18 => 0x18,
            OpCode::X19 => 0x19,
            OpCode::X1d => 0x1D,
            OpCode::X1e => 0x1E,
            OpCode::X20 => 0x20,
            OpCode::X21 => 0x21,
            OpCode::X24 => 0x24,
            OpCode::X25 => 0x25,
            OpCode::X26 => 0x26,
            OpCode::X28 => 0x28,
            OpCode::X29 => 0x29,
            OpCode::X2a => 0x2A,
            OpCode::X2c => 0x2C,
            OpCode::X2d => 0x2D,
            OpCode::X2e => 0x2E,
            OpCode::X30 => 0x30,
            OpCode::X31 => 0x31,
            OpCode::X35 => 0x35,
            OpCode::X36 => 0x36,
            OpCode::X38 => 0x38,
            OpCode::X39 => 0x39,
            OpCode::X3d => 0x3D,
            OpCode::X3e => 0x3E,
            OpCode::X40 => 0x40,
            OpCode::X41 => 0x41,
            OpCode::X45 => 0x45,
            OpCode::X46 => 0x46,
            OpCode::X48 => 0x48,
            OpCode::X49 => 0x49,
            OpCode::X4a => 0x4A,
            OpCode::X4c => 0x4C,
            OpCode::X4d => 0x4D,
            OpCode::X4e => 0x4E,
            OpCode::X50 => 0x50,
            OpCode::X51 => 0x51,
            OpCode::X55 => 0x55,
            OpCode::X56 => 0x56,
            OpCode::X58 => 0x58,
            OpCode::X59 => 0x59,
            OpCode::X5d => 0x5D,
            OpCode::X5e => 0x5E,
            OpCode::X60 => 0x60,
            OpCode::X61 => 0x61,
            OpCode::X65 => 0x65,
            OpCode::X66 => 0x66,
            OpCode::X68 => 0x68,
            OpCode::X69 => 0x69,
            OpCode::X6a => 0x6A,
            OpCode::X6c => 0x6C,
            OpCode::X6d => 0x6D,
            OpCode::X6e => 0x6E,
            OpCode::X70 => 0x70,
            OpCode::X71 => 0x71,
            OpCode::X75 => 0x75,
            OpCode::X76 => 0x76,
            OpCode::X78 => 0x78,
            OpCode::X79 => 0x79,
            OpCode::X7d => 0x7D,
            OpCode::X7e => 0x7E,
            OpCode::X81 => 0x81,
            OpCode::X84 => 0x84,
            OpCode::X85 => 0x85,
            OpCode::X86 => 0x86,
            OpCode::X88 => 0x88,
            OpCode::X8a => 0x8A,
            OpCode::X8c => 0x8C,
            OpCode::X8d => 0x8D,
            OpCode::X8e => 0x8E,
            OpCode::X90 => 0x90,
            OpCode::X91 => 0x91,
            OpCode::X94 => 0x94,
            OpCode::X95 => 0x95,
            OpCode::X96 => 0x96,
            OpCode::X98 => 0x98,
            OpCode::X99 => 0x99,
            OpCode::X9a => 0x9A,
            OpCode::X9d => 0x9D,
            OpCode::Xa0 => 0xA0,
            OpCode::Xa1 => 0xA1,
            OpCode::Xa2 => 0xA2,
            OpCode::Xa4 => 0xA4,
            OpCode::Xa5 => 0xA5,
            OpCode::Xa6 => 0xA6,
            OpCode::Xa8 => 0xA8,
            OpCode::Xa9 => 0xA9,
            OpCode::Xaa => 0xAA,
            OpCode::Xac => 0xAC,
            OpCode::Xad => 0xAD,
            OpCode::Xae => 0xAE,
            OpCode::Xb0 => 0xB0,
            OpCode::Xb1 => 0xB1,
            OpCode::Xb4 => 0xB4,
            OpCode::Xb5 => 0xB5,
            OpCode::Xb6 => 0xB6,
            OpCode::Xb8 => 0xB8,
            OpCode::Xb9 => 0xB9,
            OpCode::Xba => 0xBA,
            OpCode::Xbc => 0xBC,
            OpCode::Xbd => 0xBD,
            OpCode::Xbe => 0xBE,
            OpCode::Xc0 => 0xC0,
            OpCode::Xc1 => 0xC1,
            OpCode::Xc4 => 0xC4,
            OpCode::Xc5 => 0xC5,
            OpCode::Xc6 => 0xC6,
            OpCode::Xc8 => 0xC8,
            OpCode::Xc9 => 0xC9,
            OpCode::Xca => 0xCA,
            OpCode::Xcc => 0xCC,
            OpCode::Xcd => 0xCD,
            OpCode::Xce => 0xCE,
            OpCode::Xd0 => 0xD0,
            OpCode::Xd1 => 0xD1,
            OpCode::Xd5 => 0xD5,
            OpCode::Xd6 => 0xD6,
            OpCode::Xd8 => 0xD8,
            OpCode::Xd9 => 0xD9,
            OpCode::Xdd => 0xDD,
            OpCode::Xde => 0xDE,
            OpCode::Xe0 => 0xE0,
            OpCode::Xe1 => 0xE1,
            OpCode::Xe4 => 0xE4,
            OpCode::Xe5 => 0xE5,
            OpCode::Xe6 => 0xE6,
            OpCode::Xe8 => 0xE8,
            OpCode::Xe9 => 0xE9,
            OpCode::Xea => 0xEA,
            OpCode::Xec => 0xEC,
            OpCode::Xed => 0xED,
            OpCode::Xee => 0xEE,
            OpCode::Xf0 => 0xF0,
            OpCode::Xf1 => 0xF1,
            OpCode::Xf5 => 0xF5,
            OpCode::Xf6 => 0xF6,
            OpCode::Xf8 => 0xF8,
            OpCode::Xf9 => 0xF9,
            OpCode::Xfd => 0xFD,
            OpCode::Xfe => 0xFE,
        }
    }

    /// The opcode byte.
    #[verifier::rlimit(60)]
    pub fn code(&self) -> (r: u8)
        ensures
            r == self.spec_code(),
            opcode_table(r) is Some,
    {
        match self {
            OpCode::X00 => 0x00,
            OpCode::X01 => 0x01,
            OpCode::X05 => 0x05,
            OpCode::X06 => 0x06,
            OpCode::X08 => 0x08,
            OpCode::X09 => 0x09,
            OpCode::X0a => 0x0A,
            OpCode::X0d => 0x0D,
            OpCode::X0e => 0x0E,
            OpCode::X10 => 0x10,
            OpCode::X11 => 0x11,
            OpCode::X15 => 0x15,
            OpCode::X16 => 0x16,
            OpCode::X18 => 0x18,
            OpCode::X19 => 0x19,
            OpCode::X1d => 0x1D,
            OpCode::X1e => 0x1E,
            OpCode::X20 => 0x20,
            OpCode::X21 => 0x21,
            OpCode::X24 => 0x24,
            OpCode::X25 => 0x25,
            OpCode::X26 => 0x26,
            OpCode::X28 => 0x28,
            OpCode::X29 => 0x29,
            OpCode::X2a => 0x2A,
            OpCode::X2c => 0x2C,
            OpCode::X2d => 0x2D,
            OpCode::X2e => 0x2E,
            OpCode::X30 => 0x30,
            OpCode::X31 => 0x31,
            OpCode::X35 => 0x35,
            OpCode::X36 => 0x36,
            OpCode::X38 => 0x38,
            OpCode::X39 => 0x39,
            OpCode::X3d => 0x3D,
            OpCode::X3e => 0x3E,
            OpCode::X40 => 0x40,
            OpCode::X41 => 0x41,
            OpCode::X45 => 0x45,
            OpCode::X46 => 0x46,
            OpCode::X48 => 0x48,
            OpCode::X49 => 0x49,
            OpCode::X4a => 0x4A,
            OpCode::X4c => 0x4C,
            OpCode::X4d => 0x4D,
            OpCode::X4e => 0x4E,
            OpCode::X50 => 0x50,
            OpCode::X51 => 0x51,
            OpCode::X55 => 0x55,
            OpCode::X56 => 0x56,
            OpCode::X58 => 0x58,
            OpCode::X59 => 0x59,
            OpCode::X5d => 0x5D,
            OpCode::X5e => 0x5E,
            OpCode::X60 => 0x60,
            OpCode::X61 => 0x61,
            OpCode::X65 => 0x65,
            OpCode::X66 => 0x66,
            OpCode::X68 => 0x68,
            OpCode::X69 => 0x69,
            OpCode::X6a => 0x6A,
            OpCode::X6c => 0x6C,
            OpCode::X6d => 0x6D,
            OpCode::X6e => 0x6E,
            OpCode::X70 => 0x70,
            OpCode::X71 => 0x71,
            OpCode::X75 => 0x75,
            OpCode::X76 => 0x76,
            OpCode::X78 => 0x78,
            OpCode::X79 => 0x79,
            OpCode::X7d => 0x7D,
            OpCode::X7e => 0x7E,
            OpCode::X81 => 0x81,
            OpCode::X84 => 0x84,
            OpCode::X85 => 0x85,
            OpCode::X86 => 0x86,
            OpCode::X88 => 0x88,
            OpCode::X8a => 0x8A,
            OpCode::X8c => 0x8C,
            OpCode::X8d => 0x8D,
            OpCode::X8e => 0x8E,
            OpCode::X90 => 0x90,
            OpCode::X91 => 0x91,
            OpCode::X94 => 0x94,
            OpCode::X95 => 0x95,
            OpCode::X96 => 0x96,
            OpCode::X98 => 0x98,
            OpCode::X99 => 0x99,
            OpCode::X9a => 0x9A,
            OpCode::X9d => 0x9D,
            OpCode::Xa0 => 0xA0,
            OpCode::Xa1 => 0xA1,
            OpCode::Xa2 => 0xA2,
            OpCode::Xa4 => 0xA4,
            OpCode::Xa5 => 0xA5,
            OpCode::Xa6 => 0xA6,
            OpCode::Xa8 => 0xA8,
            OpCode::Xa9 => 0xA9,
            OpCode::Xaa => 0xAA,
            OpCode::Xac => 0xAC,
            OpCode::Xad => 0xAD,
            OpCode::Xae => 0xAE,
            OpCode::Xb0 => 0xB0,
            OpCode::Xb1 => 0xB1,
            OpCode::Xb4 => 0xB4,
            OpCode::Xb5 => 0xB5,
            OpCode::Xb6 => 0xB6,
            OpCode::Xb8 => 0xB8,
            OpCode::Xb9 => 0xB9,
            OpCode::Xba => 0xBA,
            OpCode::Xbc => 0xBC,
            OpCode::Xbd => 0xBD,
            OpCode::Xbe => 0xBE,
            OpCode::Xc0 => 0xC0,
            OpCode::Xc1 => 0xC1,
            OpCode::Xc4 => 0xC4,
            OpCode::Xc5 => 0xC5,
            OpCode::Xc6 => 0xC6,
            OpCode::Xc8 => 0xC8,
            OpCode::Xc9 => 0xC9,
            OpCode::Xca => 0xCA,
            OpCode::Xcc => 0xCC,
            OpCode::Xcd => 0xCD,
            OpCode::Xce => 0xCE,
            OpCode::Xd0 => 0xD0,
            OpCode::Xd1 => 0xD1,
            OpCode::Xd5 => 0xD5,
            OpCode::Xd6 => 0xD6,
            OpCode::Xd8 => 0xD8,
            OpCode::Xd9 => 0xD9,
            OpCode::Xdd => 0xDD,
            OpCode::Xde => 0xDE,
            OpCode::Xe0 => 0xE0,
            OpCode::Xe1 => 0xE1,
            OpCode::Xe4 => 0xE4,
            OpCode::Xe5 => 0xE5,
            OpCode::Xe6 => 0xE6,
            OpCode::Xe8 => 0xE8,
            OpCode::Xe9 => 0xE9,
            OpCode::Xea => 0xEA,
            OpCode::Xec => 0xEC,
            OpCode::Xed => 0xED,
            OpCode::Xee => 0xEE,
            OpCode::Xf0 => 0xF0,
            OpCode::Xf1 => 0xF1,
            OpCode::Xf5 => 0xF5,
            OpCode::Xf6 => 0xF6,
            OpCode::Xf8 => 0xF8,
            OpCode::Xf9 => 0xF9,
            OpCode::Xfd => 0xFD,
            OpCode::Xfe => 0xFE,
        }
    }

    /// The opcode of a byte; a byte outside the official set is an `UnknownOpcode` error.
    #[verifier::rlimit(60)]
    pub fn from_code(code: u8) -> (r: Result<OpCode, NesError>)
        ensures
            match opcode_table(code) {
                Some(_) => r is Ok && r->Ok_0.spec_code() == code,
                None => r is Err && r->Err_0.kind == ErrorKind::UnknownOpcode(code),
            },
    {
        match code {
        0x00 => Ok(OpCode::X00),
        0x01 => Ok(OpCode::X01),
        0x05 => Ok(OpCode::X05),
        0x06 => Ok(OpCode::X06),
        0x08 => Ok(OpCode::X08),
        0x09 => Ok(OpCode::X09),
        0x0A => Ok(OpCode::X0a),
        0x0D => Ok(OpCode::X0d),
        0x0E => Ok(OpCode::X0e),
        0x10 => Ok(OpCode::X10),
        0x11 => Ok(OpCode::X11),
        0x15 => Ok(OpCode::X15),
        0x16 => Ok(OpCode::X16),
        0x18 => Ok(OpCode::X18),
        0x19 => Ok(OpCode::X19),
        0x1D => Ok(OpCode::X1d),
        0x1E => Ok(OpCode::X1e),
        0x20 => Ok(OpCode::X20),
        0x21 => Ok(OpCode::X21),
        0x24 => Ok(OpCode::X24),
        0x25 => Ok(OpCode::X25),
        0x26 => Ok(OpCode::X26),
        0x28 => Ok(OpCode::X28),
        0x29 => Ok(OpCode::X29),
        0x2A => Ok(OpCode::X2a),
        0x2C => Ok(OpCode::X2c),
        0x2D => Ok(OpCode::X2d),
        0x2E => Ok(OpCode::X2e),
        0x30 => Ok(OpCode::X30),
        0x31 => Ok(OpCode::X31),
        0x35 => Ok(OpCode::X35),
        0x36 => Ok(OpCode::X36),
        0x38 => Ok(OpCode::X38),
        0x39 => Ok(OpCode::X39),
        0x3D => Ok(OpCode::X3d),
        0x3E => Ok(OpCode::X3e),
        0x40 => Ok(OpCode::X40),
        0x41 => Ok(OpCode::X41),
        0x45 => Ok(OpCode::X45),
        0x46 => Ok(OpCode::X46),
        0x48 => Ok(OpCode::X48),
        0x49 => Ok(OpCode::X49),
        0x4A => Ok(OpCode::X4a),
        0x4C => Ok(OpCode::X4c),
        0x4D => Ok(OpCode::X4d),
        0x4E => Ok(OpCode::X4e),
        0x50 => Ok(OpCode::X50),
        0x51 => Ok(OpCode::X51),
        0x55 => Ok(OpCode::X55),
        0x56 => Ok(OpCode::X56),
        0x58 => Ok(OpCode::X58),
        0x59 => Ok(OpCode::X59),
        0x5D => Ok(OpCode::X5d),
        0x5E => Ok(OpCode::X5e),
        0x60 => Ok(OpCode::X60),
        0x61 => Ok(OpCode::X61),
        0x65 => Ok(OpCode::X65),
        0x66 => Ok(OpCode::X66),
        0x68 => Ok(OpCode::X68),
        0x69 => Ok(OpCode::X69),
        0x6A => Ok(OpCode::X6a),
        0x6C => Ok(OpCode::X6c),
        0x6D => Ok(OpCode::X6d),
        0x6E => Ok(OpCode::X6e),
        0x70 => Ok(OpCode::X70),
        0x71 => Ok(OpCode::X71),
        0x75 => Ok(OpCode::X75),
        0x76 => Ok(OpCode::X76),
        0x78 => Ok(OpCode::X78),
        0x79 => Ok(OpCode::X79),
        0x7D => Ok(OpCode::X7d),
        0x7E => Ok(OpCode::X7e),
        0x81 => Ok(OpCode::X81),
        0x84 => Ok(OpCode::X84),
        0x85 => Ok(OpCode::X85),
        0x86 => Ok(OpCode::X86),
        0x88 => Ok(OpCode::X88),
        0x8A => Ok(OpCode::X8a),
        0x8C => Ok(OpCode::X8c),
        0x8D => Ok(OpCode::X8d),
        0x8E => Ok(OpCode::X8e),
        0x90 => Ok(OpCode::X90),
        0x91 => Ok(OpCode::X91),
        0x94 => Ok(OpCode::X94),
        0x95 => Ok(OpCode::X95),
        0x96 => Ok(OpCode::X96),
        0x98 => Ok(OpCode::X98),
        0x99 => Ok(OpCode::X99),
        0x9A => Ok(OpCode::X9a),
        0x9D => Ok(OpCode::X9d),
        0xA0 => Ok(OpCode::Xa0),
        0xA1 => Ok(OpCode::Xa1),
        0xA2 => Ok(OpCode::Xa2),
        0xA4 => Ok(OpCode::Xa4),
        0xA5 => Ok(OpCode::Xa5),
        0xA6 => Ok(OpCode::Xa6),
        0xA8 => Ok(OpCode::Xa8),
        0xA9 => Ok(OpCode::Xa9),
        0xAA => Ok(OpCode::Xaa),
        0xAC => Ok(OpCode::Xac),
        0xAD => Ok(OpCode::Xad),
        0xAE => Ok(OpCode::Xae),
        0xB0 => Ok(OpCode::Xb0),
        0xB1 => Ok(OpCode::Xb1),
        0xB4 => Ok(OpCode::Xb4),
        0xB5 => Ok(OpCode::Xb5),
        0xB6 => Ok(OpCode::Xb6),
        0xB8 => Ok(OpCode::Xb8),
        0xB9 => Ok(OpCode::Xb9),
        0xBA => Ok(OpCode::Xba),
        0xBC => Ok(OpCode::Xbc),
        0xBD => Ok(OpCode::Xbd),
        0xBE => Ok(OpCode::Xbe),
        0xC0 => Ok(OpCode::Xc0),
        0xC1 => Ok(OpCode::Xc1),
        0xC4 => Ok(OpCode::Xc4),
        0xC5 => Ok(OpCode::Xc5),
        0xC6 => Ok(OpCode::Xc6),
        0xC8 => Ok(OpCode::Xc8),
        0xC9 => Ok(OpCode::Xc9),
        0xCA => Ok(OpCode::Xca),
        0xCC => Ok(OpCode::Xcc),
        0xCD => Ok(OpCode::Xcd),
        0xCE => Ok(OpCode::Xce),
        0xD0 => Ok(OpCode::Xd0),
        0xD1 => Ok(OpCode::Xd1),
        0xD5 => Ok(OpCode::Xd5),
        0xD6 => Ok(OpCode::Xd6),
        0xD8 => Ok(OpCode::Xd8),
        0xD9 => Ok(OpCode::Xd9),
        0xDD => Ok(OpCode::Xdd),
        0xDE => Ok(OpCode::Xde),
        0xE0 => Ok(OpCode::Xe0),
        0xE1 => Ok(OpCode::Xe1),
        0xE4 => Ok(OpCode::Xe4),
        0xE5 => Ok(OpCode::Xe5),
        0xE6 => Ok(OpCode::Xe6),
        0xE8 => Ok(OpCode::Xe8),
        0xE9 => Ok(OpCode::Xe9),
        0xEA => Ok(OpCode::Xea),
        0xEC => Ok(OpCode::Xec),
        0xED => Ok(OpCode::Xed),
        0xEE => Ok(OpCode::Xee),
        0xF0 => Ok(OpCode::Xf0),
        0xF1 => Ok(OpCode::Xf1),
        0xF5 => Ok(OpCode::Xf5),
        0xF6 => Ok(OpCode::Xf6),
        0xF8 => Ok(OpCode::Xf8),
        0xF9 => Ok(OpCode::Xf9),
        0xFD => Ok(OpCode::Xfd),
        0xFE => Ok(OpCode::Xfe),
            _ => Err(NesError::new(ErrorKind::UnknownOpcode(code), "unknown opcode")),
        }
    }

    /// What the decoder knows of this opcode.
    pub fn detail(&self) -> (r: OpCodeDetail)
        ensures
            opcode_table(self.spec_code()) == Some(r),
    {
        let code = self.code();
        match lookup(code) {
            Some(d) => d,
            None => {
                proof {
                    assert(false);
                }
                OpCodeDetail::new(Instruction::NOP, 1, 2, AddressingMode::Implied)
            },
        }
    }
}

/// The table lookup behind the decoder.
#[verifier::rlimit(60)]
fn lookup(code: u8) -> (r: Option<OpCodeDetail>)
    ensures
        r == opcode_table(code),
{
    match code {
        0x00 => Some(OpCodeDetail::new(Instruction::BRK, 1, 7, AddressingMode::Implied)),
        0x01 => Some(OpCodeDetail::new(Instruction::ORA, 2, 6, AddressingMode::IndirectX)),
        0x05 => Some(OpCodeDetail::new(Instruction::ORA, 2, 3, AddressingMode::ZeroPage)),
        0x06 => Some(OpCodeDetail::new(Instruction::ASL, 2, 5, AddressingMode::ZeroPage)),
        0x08 => Some(OpCodeDetail::new(Instruction::PHP, 1, 3, AddressingMode::Implied)),
        0x09 => Some(OpCodeDetail::new(Instruction::ORA, 2, 2, AddressingMode::Immediate)),
        0x0A => Some(OpCodeDetail::new(Instruction::ASL, 1, 2, AddressingMode::Accumulator)),
        0x0D => Some(OpCodeDetail::new(Instruction::ORA, 3, 4, AddressingMode::Absolute)),
        0x0E => Some(OpCodeDetail::new(Instruction::ASL, 3, 6, AddressingMode::Absolute)),
        0x10 => Some(OpCodeDetail::new(Instruction::BPL, 2, 2, AddressingMode::Relative)),
        0x11 => Some(OpCodeDetail::new(Instruction::ORA, 2, 5, AddressingMode::IndirectY)),
        0x15 => Some(OpCodeDetail::new(Instruction::ORA, 2, 4, AddressingMode::ZeroPageX)),
        0x16 => Some(OpCodeDetail::new(Instruction::ASL, 2, 6, AddressingMode::ZeroPageX)),
        0x18 => Some(OpCodeDetail::new(Instruction::CLC, 1, 2, AddressingMode::Implied)),
        0x19 => Some(OpCodeDetail::new(Instruction::ORA, 3, 4, AddressingMode::AbsoluteY)),
        0x1D => Some(OpCodeDetail::new(Instruction::ORA, 3, 4, AddressingMode::AbsoluteX)),
        0x1E => Some(OpCodeDetail::new(Instruction::ASL, 3, 7, AddressingMode::AbsoluteX)),
        0x20 => Some(OpCodeDetail::new(Instruction::JSR, 3, 6, AddressingMode::Absolute)),
        0x21 => Some(OpCodeDetail::new(Instruction::AND, 2, 6, AddressingMode::IndirectX)),
        0x24 => Some(OpCodeDetail::new(Instruction::BIT, 2, 3, AddressingMode::ZeroPage)),
        0x25 => Some(OpCodeDetail::new(Instruction::AND, 2, 3, AddressingMode::ZeroPage)),
        0x26 => Some(OpCodeDetail::new(Instruction::ROL, 2, 5, AddressingMode::ZeroPage)),
        0x28 => Some(OpCodeDetail::new(Instruction::PLP, 1, 4, AddressingMode::Implied)),
        0x29 => Some(OpCodeDetail::new(Instruction::AND, 2, 2, AddressingMode::Immediate)),
        0x2A => Some(OpCodeDetail::new(Instruction::ROL, 1, 2, AddressingMode::Accumulator)),
        0x2C => Some(OpCodeDetail::new(Instruction::BIT, 3, 4, AddressingMode::Absolute)),
        0x2D => Some(OpCodeDetail::new(Instruction::AND, 3, 4, AddressingMode::Absolute)),
        0x2E => Some(OpCodeDetail::new(Instruction::ROL, 3, 6, AddressingMode::Absolute)),
        0x30 => Some(OpCodeDetail::new(Instruction::BMI, 2, 2, AddressingMode::Relative)),
        0x31 => Some(OpCodeDetail::new(Instruction::AND, 2, 5, AddressingMode::IndirectY)),
        0x35 => Some(OpCodeDetail::new(Instruction::AND, 2, 4, AddressingMode::ZeroPageX)),
        0x36 => Some(OpCodeDetail::new(Instruction::ROL, 2, 6, AddressingMode::ZeroPageX)),
        0x38 => Some(OpCodeDetail::new(Instruction::SEC, 1, 2, AddressingMode::Implied)),
        0x39 => Some(OpCodeDetail::new(Instruction::AND, 3, 4, AddressingMode::AbsoluteY)),
        0x3D => Some(OpCodeDetail::new(Instruction::AND, 3, 4, AddressingMode::AbsoluteX)),
        0x3E => Some(OpCodeDetail::new(Instruction::ROL, 3, 7, AddressingMode::AbsoluteX)),
        0x40 => Some(OpCodeDetail::new(Instruction::RTI, 1, 6, AddressingMode::Implied)),
        0x41 => Some(OpCodeDetail::new(Instruction::EOR, 2, 6, AddressingMode::IndirectX)),
        0x45 => Some(OpCodeDetail::new(Instruction::EOR, 2, 3, AddressingMode::ZeroPage)),
        0x46 => Some(OpCodeDetail::new(Instruction::LSR, 2, 5, AddressingMode::ZeroPage)),
        0x48 => Some(OpCodeDetail::new(Instruction::PHA, 1, 3, AddressingMode::Implied)),
        0x49 => Some(OpCodeDetail::new(Instruction::EOR, 2, 2, AddressingMode::Immediate)),
        0x4A => Some(OpCodeDetail::new(Instruction::LSR, 1, 2, AddressingMode::Accumulator)),
        0x4C => Some(OpCodeDetail::new(Instruction::JMP, 3, 3, AddressingMode::Absolute)),
        0x4D => Some(OpCodeDetail::new(Instruction::EOR, 3, 4, AddressingMode::Absolute)),
        0x4E => Some(OpCodeDetail::new(Instruction::LSR, 3, 6, AddressingMode::Absolute)),
        0x50 => Some(OpCodeDetail::new(Instruction::BVC, 2, 2, AddressingMode::Relative)),
        0x51 => Some(OpCodeDetail::new(Instruction::EOR, 2, 5, AddressingMode::IndirectY)),
        0x55 => Some(OpCodeDetail::new(Instruction::EOR, 2, 4, AddressingMode::ZeroPageX)),
        0x56 => Some(OpCodeDetail::new(Instruction::LSR, 2, 6, AddressingMode::ZeroPageX)),
        0x58 => Some(OpCodeDetail::new(Instruction::CLI, 1, 2, AddressingMode::Implied)),
        0x59 => Some(OpCodeDetail::new(Instruction::EOR, 3, 4, AddressingMode::AbsoluteY)),
        0x5D => Some(OpCodeDetail::new(Instruction::EOR, 3, 4, AddressingMode::AbsoluteX)),
        0x5E => Some(OpCodeDetail::new(Instruction::LSR, 3, 7, AddressingMode::AbsoluteX)),
        0x60 => Some(OpCodeDetail::new(Instruction::RTS, 1, 6, AddressingMode::Implied)),
        0x61 => Some(OpCodeDetail::new(Instruction::ADC, 2, 6, AddressingMode::IndirectX)),
        0x65 => Some(OpCodeDetail::new(Instruction::ADC, 2, 3, AddressingMode::ZeroPage)),
        0x66 => Some(OpCodeDetail::new(Instruction::ROR, 2, 5, AddressingMode::ZeroPage)),
        0x68 => Some(OpCodeDetail::new(Instruction::PLA, 1, 4, AddressingMode::Implied)),
        0x69 => Some(OpCodeDetail::new(Instruction::ADC, 2, 2, AddressingMode::Immediate)),
        0x6A => Some(OpCodeDetail::new(Instruction::ROR, 1, 2, AddressingMode::Accumulator)),
        0x6C => Some(OpCodeDetail::new(Instruction::JMP, 3, 5, AddressingMode::Indirect)),
        0x6D => Some(OpCodeDetail::new(Instruction::ADC, 3, 4, AddressingMode::Absolute)),
        0x6E => Some(OpCodeDetail::new(Instruction::ROR, 3, 6, AddressingMode::Absolute)),
        0x70 => Some(OpCodeDetail::new(Instruction::BVS, 2, 2, AddressingMode::Relative)),
        0x71 => Some(OpCodeDetail::new(Instruction::ADC, 2, 5, AddressingMode::IndirectY)),
        0x75 => Some(OpCodeDetail::new(Instruction::ADC, 2, 4, AddressingMode::ZeroPageX)),
        0x76 => Some(OpCodeDetail::new(Instruction::ROR, 2, 6, AddressingMode::ZeroPageX)),
        0x78 => Some(OpCodeDetail::new(Instruction::SEI, 1, 2, AddressingMode::Implied)),
        0x79 => Some(OpCodeDetail::new(Instruction::ADC, 3, 4, AddressingMode::AbsoluteY)),
        0x7D => Some(OpCodeDetail::new(Instruction::ADC, 3, 4, AddressingMode::AbsoluteX)),
        0x7E => Some(OpCodeDetail::new(Instruction::ROR, 3, 7, AddressingMode::AbsoluteX)),
        0x81 => Some(OpCodeDetail::new(Instruction::STA, 2, 6, AddressingMode::IndirectX)),
        0x84 => Some(OpCodeDetail::new(Instruction::STY, 2, 3, AddressingMode::ZeroPage)),
        0x85 => Some(OpCodeDetail::new(Instruction::STA, 2, 3, AddressingMode::ZeroPage)),
        0x86 => Some(OpCodeDetail::new(Instruction::STX, 2, 3, AddressingMode::ZeroPage)),
        0x88 => Some(OpCodeDetail::new(Instruction::DEY, 1, 2, AddressingMode::Implied)),
        0x8A => Some(OpCodeDetail::new(Instruction::TXA, 1, 2, AddressingMode::Implied)),
        0x8C => Some(OpCodeDetail::new(Instruction::STY, 3, 4, AddressingMode::Absolute)),
        0x8D => Some(OpCodeDetail::new(Instruction::STA, 3, 4, AddressingMode::Absolute)),
        0x8E => Some(OpCodeDetail::new(Instruction::STX, 3, 4, AddressingMode::Absolute)),
        0x90 => Some(OpCodeDetail::new(Instruction::BCC, 2, 2, AddressingMode::Relative)),
        0x91 => Some(OpCodeDetail::new(Instruction::STA, 2, 6, AddressingMode::IndirectY)),
        0x94 => Some(OpCodeDetail::new(Instruction::STY, 2, 4, AddressingMode::ZeroPageX)),
        0x95 => Some(OpCodeDetail::new(Instruction::STA, 2, 4, AddressingMode::ZeroPageX)),
        0x96 => Some(OpCodeDetail::new(Instruction::STX, 2, 4, AddressingMode::ZeroPageY)),
        0x98 => Some(OpCodeDetail::new(Instruction::TYA, 1, 2, AddressingMode::Implied)),
        0x99 => Some(OpCodeDetail::new(Instruction::STA, 3, 5, AddressingMode::AbsoluteY)),
        0x9A => Some(OpCodeDetail::new(Instruction::TXS, 1, 2, AddressingMode::Implied)),
        0x9D => Some(OpCodeDetail::new(Instruction::STA, 3, 5, AddressingMode::AbsoluteX)),
        0xA0 => Some(OpCodeDetail::new(Instruction::LDY, 2, 2, AddressingMode::Immediate)),
        0xA1 => Some(OpCodeDetail::new(Instruction::LDA, 2, 6, AddressingMode::IndirectX)),
        0xA2 => Some(OpCodeDetail::new(Instruction::LDX, 2, 2, AddressingMode::Immediate)),
        0xA4 => Some(OpCodeDetail::new(Instruction::LDY, 2, 3, AddressingMode::ZeroPage)),
        0xA5 => Some(OpCodeDetail::new(Instruction::LDA, 2, 3, AddressingMode::ZeroPage)),
        0xA6 => Some(OpCodeDetail::new(Instruction::LDX, 2, 3, AddressingMode::ZeroPage)),
        0xA8 => Some(OpCodeDetail::new(Instruction::TAY, 1, 2, AddressingMode::Implied)),
        0xA9 => Some(OpCodeDetail::new(Instruction::LDA, 2, 2, AddressingMode::Immediate)),
        0xAA => Some(OpCodeDetail::new(Instruction::TAX, 1, 2, AddressingMode::Implied)),
        0xAC => Some(OpCodeDetail::new(Instruction::LDY, 3, 4, AddressingMode::Absolute)),
        0xAD => Some(OpCodeDetail::new(Instruction::LDA, 3, 4, AddressingMode::Absolute)),
        0xAE => Some(OpCodeDetail::new(Instruction::LDX, 3, 4, AddressingMode::Absolute)),
        0xB0 => Some(OpCodeDetail::new(Instruction::BCS, 2, 2, AddressingMode::Relative)),
        0xB1 => Some(OpCodeDetail::new(Instruction::LDA, 2, 5, AddressingMode::IndirectY)),
        0xB4 => Some(OpCodeDetail::new(Instruction::LDY, 2, 4, AddressingMode::ZeroPageX)),
        0xB5 => Some(OpCodeDetail::new(Instruction::LDA, 2, 4, AddressingMode::ZeroPageX)),
        0xB6 => Some(OpCodeDetail::new(Instruction::LDX, 2, 4, AddressingMode::ZeroPageY)),
        0xB8 => Some(OpCodeDetail::new(Instruction::CLV, 1, 2, AddressingMode::Implied)),
        0xB9 => Some(OpCodeDetail::new(Instruction::LDA, 3, 4, AddressingMode::AbsoluteY)),
        0xBA => Some(OpCodeDetail::new(Instruction::TSX, 1, 2, AddressingMode::Implied)),
        0xBC => Some(OpCodeDetail::new(Instruction::LDY, 3, 4, AddressingMode::AbsoluteX)),
        0xBD => Some(OpCodeDetail::new(Instruction::LDA, 3, 4, AddressingMode::AbsoluteX)),
        0xBE => Some(OpCodeDetail::new(Instruction::LDX, 3, 4, AddressingMode::AbsoluteY)),
        0xC0 => Some(OpCodeDetail::new(Instruction::CPY, 2, 2, AddressingMode::Immediate)),
        0xC1 => Some(OpCodeDetail::new(Instruction::CMP, 2, 6, AddressingMode::IndirectX)),
        0xC4 => Some(OpCodeDetail::new(Instruction::CPY, 2, 3, AddressingMode::ZeroPage)),
        0xC5 => Some(OpCodeDetail::new(Instruction::CMP, 2, 3, AddressingMode::ZeroPage)),
        0xC6 => Some(OpCodeDetail::new(Instruction::DEC, 2, 5, AddressingMode::ZeroPage)),
        0xC8 => Some(OpCodeDetail::new(Instruction::INY, 1, 2, AddressingMode::Implied)),
        0xC9 => Some(OpCodeDetail::new(Instruction::CMP, 2, 2, AddressingMode::Immediate)),
        0xCA => Some(OpCodeDetail::new(Instruction::DEX, 1, 2, AddressingMode::Implied)),
        0xCC => Some(OpCodeDetail::new(Instruction::CPY, 3, 4, AddressingMode::Absolute)),
        0xCD => Some(OpCodeDetail::new(Instruction::CMP, 3, 4, AddressingMode::Absolute)),
        0xCE => Some(OpCodeDetail::new(Instruction::DEC, 3, 6, AddressingMode::Absolute)),
        0xD0 => Some(OpCodeDetail::new(Instruction::BNE, 2, 2, AddressingMode::Relative)),
        0xD1 => Some(OpCodeDetail::new(Instruction::CMP, 2, 5, AddressingMode::IndirectY)),
        0xD5 => Some(OpCodeDetail::new(Instruction::CMP, 2, 4, AddressingMode::ZeroPageX)),
        0xD6 => Some(OpCodeDetail::new(Instruction::DEC, 2, 6, AddressingMode::ZeroPageX)),
        0xD8 => Some(OpCodeDetail::new(Instruction::CLD, 1, 2, AddressingMode::Implied)),
        0xD9 => Some(OpCodeDetail::new(Instruction::CMP, 3, 4, AddressingMode::AbsoluteY)),
        0xDD => Some(OpCodeDetail::new(Instruction::CMP, 3, 4, AddressingMode::AbsoluteX)),
        0xDE => Some(OpCodeDetail::new(Instruction::DEC, 3, 7, AddressingMode::AbsoluteX)),
        0xE0 => Some(OpCodeDetail::new(Instruction::CPX, 2, 2, AddressingMode::Immediate)),
        0xE1 => Some(OpCodeDetail::new(Instruction::SBC, 2, 6, AddressingMode::IndirectX)),
        0xE4 => Some(OpCodeDetail::new(Instruction::CPX, 2, 3, AddressingMode::ZeroPage)),
        0xE5 => Some(OpCodeDetail::new(Instruction::SBC, 2, 3, AddressingMode::ZeroPage)),
        0xE6 => Some(OpCodeDetail::new(Instruction::INC, 2, 5, AddressingMode::ZeroPage)),
        0xE8 => Some(OpCodeDetail::new(Instruction::INX, 1, 2, AddressingMode::Implied)),
        0xE9 => Some(OpCodeDetail::new(Instruction::SBC, 2, 2, AddressingMode::Immediate)),
        0xEA => Some(OpCodeDetail::new(Instruction::NOP, 1, 2, AddressingMode::Implied)),
        0xEC => Some(OpCodeDetail::new(Instruction::CPX, 3, 4, AddressingMode::Absolute)),
        0xED => Some(OpCodeDetail::new(Instruction::SBC, 3, 4, AddressingMode::Absolute)),
        0xEE => Some(OpCodeDetail::new(Instruction::INC, 3, 6, AddressingMode::Absolute)),
        0xF0 => Some(OpCodeDetail::new(Instruction::BEQ, 2, 2, AddressingMode::Relative)),
        0xF1 => Some(OpCodeDetail::new(Instruction::SBC, 2, 5, AddressingMode::IndirectY)),
        0xF5 => Some(OpCodeDetail::new(Instruction::SBC, 2, 4, AddressingMode::ZeroPageX)),
        0xF6 => Some(OpCodeDetail::new(Instruction::INC, 2, 6, AddressingMode::ZeroPageX)),
        0xF8 => Some(OpCodeDetail::new(Instruction::SED, 1, 2, AddressingMode::Implied)),
        0xF9 => Some(OpCodeDetail::new(Instruction::SBC, 3, 4, AddressingMode::AbsoluteY)),
        0xFD => Some(OpCodeDetail::new(Instruction::SBC, 3, 4, AddressingMode::AbsoluteX)),
        0xFE => Some(OpCodeDetail::new(Instruction::INC, 3, 7, AddressingMode::AbsoluteX)),
        _ => None,
    }
}

/// Decodes one opcode byte; a byte outside the official set is an `UnknownOpcode` error.
pub fn get_opcode_detail(code: u8) -> (r: Result<OpCodeDetail, NesError>)
    ensures
        match opcode_table(code) {
            Some(d) => r is Ok && r->Ok_0 == d,
            None => r is Err && r->Err_0.kind == ErrorKind::UnknownOpcode(code),
        },
{
    match lookup(code) {
        Some(d) => Ok(d),
        None => Err(NesError::new(ErrorKind::UnknownOpcode(code), "unknown opcode")),
    }
}

/// Every official opcode is as long as its mode says: the opcode byte and its operand bytes.
pub proof fn lemma_opcode_lengths(code: u8)
    requires
        opcode_table(code) is Some,
    ensures
        opcode_table(code)->Some_0.bytes == 1 + operand_length(opcode_table(code)->Some_0.address_mode),
{
}

} // verus!
