use nes_emulator::memory::Mem;
use nes_emulator::bus::CpuBus;
use nes_emulator::cartridge::{Cartridge, CHR_ROM_PAGE_SIZE, PRG_ROM_PAGE_SIZE};
use nes_emulator::cpu::CPU;

fn make_test_cartridge() -> Cartridge {
    let mut contents: Vec<u8> = vec![
        0x4e,
        0x45,
        0x53,
        0x1a,
        0x02,
        0x02,
        0b0001_0001,
        0b0000_0000,
        0x00,
        0x00,
    ];

    contents.extend([0; 6]);
    contents.extend([0x01; PRG_ROM_PAGE_SIZE * 2]);
    contents.extend([0x02; CHR_ROM_PAGE_SIZE * 2]);

    Cartridge::new(&contents).unwrap()
}

fn new_cpu() -> CPU {
    CPU::new(CpuBus::new(make_test_cartridge()))
}

#[test]
fn test_stack_address() {
    let cpu = new_cpu();

    let address = cpu.get_stack_address();

    // A new CPU starts with SP = 0xFD, as after the reset sequence.
    assert_eq!(address, 0x01fd);
}

#[test]
fn test_push_to_stack() {
    let mut cpu = new_cpu();

    cpu.push_to_stack(0x12);

    let stack_pointer = cpu.stack_pointer;

    assert_eq!(stack_pointer, 0xfc);
    assert_eq!(cpu.bus.mem_read(0x01fd).unwrap(), 0x12);
}

#[test]
fn test_push_to_stack_u16() {
    let mut cpu = new_cpu();

    cpu.push_to_stack_u16(0x1234);

    let stack_pointer = cpu.stack_pointer;

    assert_eq!(stack_pointer, 0xfb);
    assert_eq!(cpu.bus.mem_read(0x01fd).unwrap(), 0x12);
    assert_eq!(cpu.bus.mem_read(0x01fc).unwrap(), 0x34);
}

#[test]
fn test_pull_from_stack() {
    let mut cpu = new_cpu();

    cpu.push_to_stack(0x12);
    let data = cpu.pull_from_stack();

    let stack_pointer = cpu.stack_pointer;

    assert_eq!(stack_pointer, 0xfd);
    assert_eq!(data, 0x12);
}

#[test]
fn test_pull_from_stack_u16() {
    let mut cpu = new_cpu();

    cpu.push_to_stack_u16(0x1234);
    let data = cpu.pull_from_stack_u16();

    let stack_pointer = cpu.stack_pointer;

    assert_eq!(stack_pointer, 0xfd);
    assert_eq!(data, 0x1234);
}

#[test]
fn stack_wraps_within_page_one() {
    let mut cpu = new_cpu();
    cpu.stack_pointer = 0x00;
    cpu.push_to_stack(0xab);
    assert_eq!(cpu.stack_pointer, 0xff);
    assert_eq!(cpu.bus.mem_read(0x0100).unwrap(), 0xab);
    assert_eq!(cpu.get_stack_address(), 0x01ff);
    assert_eq!(cpu.pull_from_stack(), 0xab);
    assert_eq!(cpu.stack_pointer, 0x00);
}

#[test]
fn stack_push_pull_round_trips() {
    for start in [0x00u8, 0x01, 0x80, 0xfd, 0xff] {
        let mut cpu = new_cpu();
        cpu.stack_pointer = start;
        cpu.push_to_stack(0x5a);
        assert_eq!(cpu.pull_from_stack(), 0x5a);
        assert_eq!(cpu.stack_pointer, start);
        cpu.push_to_stack_u16(0xbeef);
        assert_eq!(cpu.pull_from_stack_u16(), 0xbeef);
        assert_eq!(cpu.stack_pointer, start);
    }
}
