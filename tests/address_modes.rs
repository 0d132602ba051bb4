use nes_emulator::memory::Mem;
use nes_emulator::bus::CpuBus;
use nes_emulator::cartridge::{Cartridge, CHR_ROM_PAGE_SIZE, PRG_ROM_PAGE_SIZE};
use nes_emulator::cpu::CPU;
use nes_emulator::errors::ErrorKind;
use nes_emulator::opcodes::AddressingMode;

fn make_test_cartridge() -> Cartridge {
    let mut contents: Vec<u8> = vec![
        0x4e,
        0x45,
        0x53,
        0x1a,
        0x02,
        0x02,
        0b0001_0001,
        0b0000_0000,
        0x00,
        0x00,
    ];

    contents.extend([0; 6]);
    contents.extend([0x01; PRG_ROM_PAGE_SIZE * 2]);
    contents.extend([0x02; CHR_ROM_PAGE_SIZE * 2]);

    Cartridge::new(&contents).unwrap()
}

fn new_cpu() -> CPU {
    CPU::new(CpuBus::new(make_test_cartridge()))
}

#[test]
fn test_immediate() {
    let cpu = new_cpu();

    let address = cpu.get_operand_address(&AddressingMode::Immediate).unwrap();

    // The operand byte follows the opcode byte at the program counter.
    assert_eq!(address, 0x0001)
}

#[test]
fn test_zero_page() {
    // The opcode is at 0x00, so its operand 0x12 is at 0x01.
    let mut cpu = new_cpu();
    cpu.bus.mem_write(0x01, 0x12).unwrap();

    let address = cpu.get_operand_address(&AddressingMode::ZeroPage).unwrap();

    assert_eq!(address, 0x0012)
}

#[test]
fn test_zero_page_x() {
    let mut cpu = new_cpu();
    cpu.register_x = 0x01;
    cpu.bus.mem_write(0x01, 0x12).unwrap();

    let address = cpu.get_operand_address(&AddressingMode::ZeroPageX).unwrap();

    assert_eq!(address, 0x0013)
}

#[test]
fn test_zero_page_y() {
    let mut cpu = new_cpu();
    cpu.register_y = 0x01;
    cpu.bus.mem_write(0x01, 0x12).unwrap();

    let address = cpu.get_operand_address(&AddressingMode::ZeroPageY).unwrap();

    assert_eq!(address, 0x0013)
}

#[test]
fn test_absolute() {
    let mut cpu = new_cpu();
    cpu.bus.mem_write_u16(0x01, 0x1234).unwrap();

    let address = cpu.get_operand_address(&AddressingMode::Absolute).unwrap();

    assert_eq!(address, 0x1234)
}

#[test]
fn test_absolute_x() {
    let mut cpu = new_cpu();
    cpu.register_x = 0x01;
    cpu.bus.mem_write_u16(0x01, 0x1234).unwrap();

    let address = cpu.get_operand_address(&AddressingMode::AbsoluteX).unwrap();

    assert_eq!(address, 0x1235)
}

#[test]
fn test_absolute_y() {
    let mut cpu = new_cpu();
    cpu.register_y = 0x01;
    cpu.bus.mem_write_u16(0x01, 0x1234).unwrap();

    let address = cpu.get_operand_address(&AddressingMode::AbsoluteY).unwrap();

    assert_eq!(address, 0x1235)
}

#[test]
fn test_indirect() {
    let mut cpu = new_cpu();
    cpu.bus.mem_write_u16(0x01, 0x1234).unwrap();
    cpu.bus.mem_write_u16(0x1234, 0x5678).unwrap();

    let address = cpu.get_operand_address(&AddressingMode::Indirect).unwrap();

    assert_eq!(address, 0x5678)
}

#[test]
fn test_indirect_x() {
    let mut cpu = new_cpu();
    cpu.register_x = 0x01;
    cpu.bus.mem_write(0x01, 0x12).unwrap();
    cpu.bus.mem_write_u16(0x13, 0x3456).unwrap();

    let address = cpu.get_operand_address(&AddressingMode::IndirectX).unwrap();

    assert_eq!(address, 0x3456)
}

#[test]
fn test_indirect_y() {
    let mut cpu = new_cpu();
    cpu.register_y = 0x01;
    cpu.bus.mem_write_u16(0x01, 0x12).unwrap();
    cpu.bus.mem_write_u16(0x12, 0x3456).unwrap();

    let address = cpu.get_operand_address(&AddressingMode::IndirectY).unwrap();

    assert_eq!(address, 0x3457)
}

#[test]
fn operand_address_of_implied_is_an_error() {
    let cpu = new_cpu();
    let err = cpu.get_operand_address(&AddressingMode::Implied).err().unwrap();
    assert_eq!(err.kind, ErrorKind::AddressingModeHasNoAddress(AddressingMode::Implied));
    assert!(cpu.get_operand_address_value(&AddressingMode::Implied).is_err());
    assert_eq!(cpu.get_operand_address_value(&AddressingMode::Accumulator).unwrap(), cpu.register_a);
}

#[test]
fn indirect_jump_pointer_wraps_in_its_page() {
    let mut cpu = new_cpu();
    cpu.bus.mem_write_u16(0x01, 0x02ff).unwrap();
    cpu.bus.mem_write(0x02ff, 0x00).unwrap();
    cpu.bus.mem_write(0x0200, 0x03).unwrap();
    cpu.bus.mem_write(0x0300, 0x77).unwrap();
    assert_eq!(cpu.get_operand_address(&AddressingMode::Indirect).unwrap(), 0x0300);
}

#[test]
fn indexed_indirect_pointer_wraps_in_zero_page() {
    let mut cpu = new_cpu();
    cpu.register_x = 0x01;
    cpu.bus.mem_write(0x01, 0xfe).unwrap();
    cpu.bus.mem_write(0xff, 0x34).unwrap();
    cpu.bus.mem_write(0x00, 0x12).unwrap();
    assert_eq!(cpu.get_operand_address(&AddressingMode::IndirectX).unwrap(), 0x1234);
}
