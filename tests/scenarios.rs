use nes_emulator::memory::Mem;
use nes_emulator::bus::CpuBus;
use nes_emulator::cartridge::{Cartridge, CHR_ROM_PAGE_SIZE, PRG_ROM_PAGE_SIZE};
use nes_emulator::cpu::CPU;
use nes_emulator::cpu::trace::trace;
use nes_emulator::errors::ErrorKind;
use nes_emulator::opcodes::{get_opcode_detail, AddressingMode, Instruction, OpCode};

fn make_test_cartridge() -> Cartridge {
    let mut contents: Vec<u8> = vec![
        0x4e,
        0x45,
        0x53,
        0x1a,
        0x02,
        0x02,
        0b0001_0001,
        0b0000_0000,
        0x00,
        0x00,
    ];

    contents.extend([0; 6]);
    contents.extend([0x01; PRG_ROM_PAGE_SIZE * 2]);
    contents.extend([0x02; CHR_ROM_PAGE_SIZE * 2]);

    Cartridge::new(&contents).unwrap()
}

fn new_cpu() -> CPU {
    CPU::new(CpuBus::new(make_test_cartridge()))
}

/// A one-bank cartridge with `program` at `0x8000` and the reset vector pointing there.
fn program_cpu(program: &[u8]) -> CPU {
    let mut contents: Vec<u8> = vec![0x4e, 0x45, 0x53, 0x1a, 0x01, 0x00, 0x00, 0x00];
    contents.extend([0; 8]);
    let mut prg = vec![0u8; PRG_ROM_PAGE_SIZE];
    prg[..program.len()].copy_from_slice(program);
    prg[0x3ffc] = 0x00;
    prg[0x3ffd] = 0x80;
    contents.extend(prg);
    let mut cpu = CPU::new(CpuBus::new(Cartridge::new(&contents).unwrap()));
    cpu.reset();
    cpu
}

#[test]
fn test_format_trace() {
    let mut bus = CpuBus::new(make_test_cartridge());
    bus.mem_write(100, 0xa2).unwrap();
    bus.mem_write(101, 0x01).unwrap();
    bus.mem_write(102, 0xca).unwrap();
    bus.mem_write(103, 0x88).unwrap();
    bus.mem_write(104, 0x00).unwrap();

    let mut cpu = CPU::new(bus);
    cpu.program_counter = 0x64;
    cpu.register_a = 1;
    cpu.register_x = 2;
    cpu.register_y = 3;

    let mut result: Vec<String> = vec![];
    cpu.run_with_callback(|cpu| {
        result.push(trace(cpu).unwrap());
    })
    .unwrap();

    assert_eq!(
        "0064  A2 01     LDX #$01                        A:01 X:02 Y:03 P:24 SP:FD",
        result[0]
    );
    assert_eq!(
        "0066  CA        DEX                             A:01 X:01 Y:03 P:24 SP:FD",
        result[1]
    );
    assert_eq!(
        "0067  88        DEY                             A:01 X:00 Y:03 P:26 SP:FD",
        result[2]
    );
}

#[test]
fn test_format_mem_access() {
    let mut bus = CpuBus::new(make_test_cartridge());
    // ORA ($33), Y
    bus.mem_write(0x64, 0x11).unwrap();
    bus.mem_write(0x65, 0x33).unwrap();

    //data
    bus.mem_write(0x33, 00).unwrap();
    bus.mem_write(0x34, 04).unwrap();

    //target cell
    bus.mem_write(0x400, 0xAA).unwrap();

    let mut cpu = CPU::new(bus);
    cpu.program_counter = 0x64;
    cpu.register_y = 0;
    let mut result: Vec<String> = vec![];
    cpu.run_with_callback(|cpu| {
        result.push(trace(cpu).unwrap());
    })
    .unwrap();
    assert_eq!(
        "0064  11 33     ORA ($33),Y = 0400 @ 0400 = AA  A:00 X:00 Y:00 P:24 SP:FD",
        result[0]
    );
}

#[test]
fn trace_shows_indirect_jump_and_branch_targets() {
    let mut cpu = new_cpu();
    cpu.reset();
    cpu.program_counter = 0x0010;
    cpu.bus.mem_write(0x0010, 0x6c).unwrap();
    cpu.bus.mem_write_u16(0x0011, 0x0200).unwrap();
    cpu.bus.mem_write_u16(0x0200, 0x0300).unwrap();
    assert_eq!(
        trace(&cpu).unwrap(),
        "0010  6C 00 02  JMP ($0200) = 0300              A:00 X:00 Y:00 P:24 SP:FD"
    );
    cpu.bus.mem_write(0x0010, 0xd0).unwrap();
    cpu.bus.mem_write(0x0011, 0xfc).unwrap();
    assert_eq!(
        trace(&cpu).unwrap(),
        "0010  D0 FC     BNE $000E                       A:00 X:00 Y:00 P:24 SP:FD"
    );
    cpu.register_x = 0x01;
    cpu.bus.mem_write(0x0010, 0xb5).unwrap();
    cpu.bus.mem_write(0x0011, 0x33).unwrap();
    cpu.bus.mem_write(0x0034, 0xaa).unwrap();
    assert_eq!(
        trace(&cpu).unwrap(),
        "0010  B5 33     LDA $33,X @ 34 = AA             A:00 X:01 Y:00 P:24 SP:FD"
    );
}

#[test]
fn trace_of_unknown_opcode_is_an_error() {
    let mut cpu = new_cpu();
    cpu.bus.mem_write(0x0000, 0x02).unwrap();
    assert_eq!(trace(&cpu).err().unwrap().kind, ErrorKind::UnknownOpcode(0x02));
}

#[test]
fn lda_immediate_from_reset_vector() {
    let mut cpu = program_cpu(&[0xa9, 0x05, 0x00]);
    assert_eq!(cpu.program_counter, 0x8000);
    assert_eq!(cpu.stack_pointer, 0xfd);
    cpu.step().unwrap();
    assert_eq!(cpu.register_a, 0x05);
    assert!(!cpu.status.zero);
    assert!(!cpu.status.negative);
    assert_eq!(cpu.program_counter, 0x8002);
}

#[test]
fn lda_zero_sets_zero_flag() {
    let mut cpu = program_cpu(&[0xa9, 0x00, 0x00]);
    cpu.step().unwrap();
    assert_eq!(cpu.register_a, 0x00);
    assert!(cpu.status.zero);
    assert!(!cpu.status.negative);
}

#[test]
fn adc_signed_overflow_scenario() {
    let mut cpu = program_cpu(&[0x69, 0x81]);
    cpu.register_a = 0x8a;
    cpu.status.carry = false;
    cpu.step().unwrap();
    assert_eq!(cpu.register_a, 0x0b);
    assert!(cpu.status.carry);
    assert!(cpu.status.overflow);
    assert!(!cpu.status.zero);
    assert!(!cpu.status.negative);
}

#[test]
fn jsr_then_rts_returns_after_the_call() {
    let mut cpu = new_cpu();
    cpu.reset();
    cpu.program_counter = 0x0000;
    cpu.bus.mem_write(0x0000, 0x20).unwrap();
    cpu.bus.mem_write_u16(0x0001, 0x0200).unwrap();
    cpu.bus.mem_write(0x0200, 0x60).unwrap();
    let sp = cpu.stack_pointer;
    cpu.step().unwrap();
    assert_eq!(cpu.program_counter, 0x0200);
    cpu.step().unwrap();
    assert_eq!(cpu.program_counter, 0x0003);
    assert_eq!(cpu.stack_pointer, sp);
}

#[test]
fn brk_keeps_running_flags_and_sets_interrupt() {
    let mut cpu = program_cpu(&[0x58, 0x00]);
    cpu.step().unwrap();
    assert!(!cpu.status.interrupt);
    cpu.bus.mem_write_u16(0xfffe, 0x9000).unwrap();
    cpu.step().unwrap();
    assert_eq!(cpu.program_counter, 0x9000);
    assert!(cpu.status.interrupt);
    assert!(!cpu.status.break_flag);
    assert!(cpu.status.ignored);
    assert_eq!(cpu.pull_from_stack(), 0x30 | 0x20);
    assert_eq!(cpu.pull_from_stack_u16(), 0x8003);
}

#[test]
fn step_reports_unknown_opcode_and_bus_errors() {
    let mut cpu = new_cpu();
    cpu.bus.mem_write(0x0000, 0xff).unwrap();
    assert_eq!(cpu.step().err().unwrap().kind, ErrorKind::UnknownOpcode(0xff));
    cpu.program_counter = 0x2000;
    assert_eq!(cpu.step().err().unwrap().kind, ErrorKind::BusError(0x2000));
}

#[test]
fn decoder_covers_the_official_set() {
    let mut known = 0;
    for code in 0..=255u8 {
        match get_opcode_detail(code) {
            Ok(detail) => {
                known += 1;
                let operands = match detail.address_mode {
                    AddressingMode::Implied | AddressingMode::Accumulator => 0,
                    AddressingMode::Absolute
                    | AddressingMode::AbsoluteX
                    | AddressingMode::AbsoluteY
                    | AddressingMode::Indirect => 2,
                    _ => 1,
                };
                assert_eq!(detail.bytes, 1 + operands);
            }
            Err(e) => assert_eq!(e.kind, ErrorKind::UnknownOpcode(code)),
        }
    }
    assert_eq!(known, 151);
    let lda = get_opcode_detail(0xa9).unwrap();
    assert_eq!(lda.instruction, Instruction::LDA);
    assert_eq!(lda.address_mode, AddressingMode::Immediate);
    assert_eq!(lda.cycles, 2);
    assert_eq!(Instruction::ORA.name(), "ORA");
}

#[test]
fn run_stops_before_brk() {
    let mut cpu = new_cpu();
    cpu.reset();
    cpu.program_counter = 0x0010;
    for (i, b) in [0xe8u8, 0xe8, 0xc8, 0x00].iter().enumerate() {
        cpu.bus.mem_write(0x0010 + i as u16, *b).unwrap();
    }
    cpu.run().unwrap();
    assert_eq!(cpu.register_x, 2);
    assert_eq!(cpu.register_y, 1);
    assert_eq!(cpu.program_counter, 0x0013);
}

#[test]
fn test_snake() {
    let game_code: Vec<u8> = vec![
        0x20, 0x06, 0x06, 0x20, 0x38, 0x06, 0x20, 0x0d, 0x06, 0x20, 0x2a, 0x06, 0x60, 0xa9, 0x02, 0x85,
        0x02, 0xa9, 0x04, 0x85, 0x03, 0xa9, 0x11, 0x85, 0x10, 0xa9, 0x10, 0x85, 0x12, 0xa9, 0x0f, 0x85,
        0x14, 0xa9, 0x04, 0x85, 0x11, 0x85, 0x13, 0x85, 0x15, 0x60, 0xa5, 0xfe, 0x85, 0x00, 0xa5, 0xfe,
        0x29, 0x03, 0x18, 0x69, 0x02, 0x85, 0x01, 0x60, 0x20, 0x4d, 0x06, 0x20, 0x8d, 0x06, 0x20, 0xc3,
        0x06, 0x20, 0x19, 0x07, 0x20, 0x20, 0x07, 0x20, 0x2d, 0x07, 0x4c, 0x38, 0x06, 0xa5, 0xff, 0xc9,
        0x77, 0xf0, 0x0d, 0xc9, 0x64, 0xf0, 0x14, 0xc9, 0x73, 0xf0, 0x1b, 0xc9, 0x61, 0xf0, 0x22, 0x60,
        0xa9, 0x04, 0x24, 0x02, 0xd0, 0x26, 0xa9, 0x01, 0x85, 0x02, 0x60, 0xa9, 0x08, 0x24, 0x02, 0xd0,
        0x1b, 0xa9, 0x02, 0x85, 0x02, 0x60, 0xa9, 0x01, 0x24, 0x02, 0xd0, 0x10, 0xa9, 0x04, 0x85, 0x02,
        0x60, 0xa9, 0x02, 0x24, 0x02, 0xd0, 0x05, 0xa9, 0x08, 0x85, 0x02, 0x60, 0x60, 0x20, 0x94, 0x06,
        0x20, 0xa8, 0x06, 0x60, 0xa5, 0x00, 0xc5, 0x10, 0xd0, 0x0d, 0xa5, 0x01, 0xc5, 0x11, 0xd0, 0x07,
        0xe6, 0x03, 0xe6, 0x03, 0x20, 0x2a, 0x06, 0x60, 0xa2, 0x02, 0xb5, 0x10, 0xc5, 0x10, 0xd0, 0x06,
        0xb5, 0x11, 0xc5, 0x11, 0xf0, 0x09, 0xe8, 0xe8, 0xe4, 0x03, 0xf0, 0x06, 0x4c, 0xaa, 0x06, 0x4c,
        0x35, 0x07, 0x60, 0xa6, 0x03, 0xca, 0x8a, 0xb5, 0x10, 0x95, 0x12, 0xca, 0x10, 0xf9, 0xa5, 0x02,
        0x4a, 0xb0, 0x09, 0x4a, 0xb0, 0x19, 0x4a, 0xb0, 0x1f, 0x4a, 0xb0, 0x2f, 0xa5, 0x10, 0x38, 0xe9,
        0x20, 0x85, 0x10, 0x90, 0x01, 0x60, 0xc6, 0x11, 0xa9, 0x01, 0xc5, 0x11, 0xf0, 0x28, 0x60, 0xe6,
        0x10, 0xa9, 0x1f, 0x24, 0x10, 0xf0, 0x1f, 0x60, 0xa5, 0x10, 0x18, 0x69, 0x20, 0x85, 0x10, 0xb0,
        0x01, 0x60, 0xe6, 0x11, 0xa9, 0x06, 0xc5, 0x11, 0xf0, 0x0c, 0x60, 0xc6, 0x10, 0xa5, 0x10, 0x29,
        0x1f, 0xc9, 0x1f, 0xf0, 0x01, 0x60, 0x4c, 0x35, 0x07, 0xa0, 0x00, 0xa5, 0xfe, 0x91, 0x00, 0x60,
        0xa6, 0x03, 0xa9, 0x00, 0x81, 0x10, 0xa2, 0x00, 0xa9, 0x01, 0x81, 0x10, 0x60, 0xa2, 0x00, 0xea,
        0xea, 0xca, 0xd0, 0xfb, 0x60,
    ];

    let mut cpu = new_cpu();
    cpu.reset();
    for (i, b) in game_code.iter().enumerate() {
        cpu.bus.mem_write(0x0600 + i as u16, *b).unwrap();
    }
    cpu.program_counter = 0x0600;

    for _ in 0..5000 {
        assert!(cpu.step().is_ok());
    }
}

#[test]
fn indexed_read_pays_for_page_crossing() {
    let mut cpu = program_cpu(&[0xbd, 0xff, 0x01]);
    cpu.register_x = 1;
    assert_eq!(cpu.step().unwrap(), 5);
    let mut cpu = program_cpu(&[0xbd, 0x00, 0x02]);
    cpu.register_x = 1;
    assert_eq!(cpu.step().unwrap(), 4);
    let mut cpu = program_cpu(&[0x9d, 0xff, 0x01]);
    cpu.register_x = 1;
    assert_eq!(cpu.step().unwrap(), 5);
    assert_eq!(cpu.bus.mem_read(0x0200).unwrap(), 0);
}

#[test]
fn indirect_indexed_read_pays_for_page_crossing() {
    let mut cpu = program_cpu(&[0xb1, 0x10]);
    cpu.bus.mem_write(0x0010, 0xff).unwrap();
    cpu.bus.mem_write(0x0011, 0x02).unwrap();
    cpu.register_y = 1;
    assert_eq!(cpu.step().unwrap(), 6);
    assert_eq!(cpu.program_counter, 0x8002);
}

#[test]
fn branch_cycles() {
    let mut cpu = program_cpu(&[0xf0, 0x05]);
    assert_eq!(cpu.step().unwrap(), 2);
    assert_eq!(cpu.program_counter, 0x8002);
    let mut cpu = program_cpu(&[0xd0, 0x7f]);
    assert_eq!(cpu.step().unwrap(), 3);
    assert_eq!(cpu.program_counter, 0x8081);
    let mut cpu = program_cpu(&[0xd0, 0x80]);
    assert_eq!(cpu.step().unwrap(), 4);
    assert_eq!(cpu.program_counter, 0x7f82);
}

#[test]
fn run_reports_unknown_opcode_at_its_address() {
    let mut cpu = new_cpu();
    cpu.program_counter = 0x0010;
    cpu.bus.mem_write(0x0010, 0xe8).unwrap();
    cpu.bus.mem_write(0x0011, 0x02).unwrap();
    let mut seen: Vec<u16> = vec![];
    let result = cpu.run_with_callback(|cpu| seen.push(cpu.program_counter));
    assert_eq!(result.err().unwrap().kind, ErrorKind::UnknownOpcode(0x02));
    assert_eq!(cpu.program_counter, 0x0011);
    assert_eq!(cpu.register_x, 1);
    assert_eq!(seen, vec![0x0010, 0x0011]);
}

#[test]
fn run_reports_bus_error_of_an_operand_without_changing_state() {
    let mut cpu = new_cpu();
    cpu.program_counter = 0x0010;
    // LDA $2002: the PPU window is not readable here.
    cpu.bus.mem_write(0x0010, 0xad).unwrap();
    cpu.bus.mem_write_u16(0x0011, 0x2002).unwrap();
    let result = cpu.run();
    assert_eq!(result.err().unwrap().kind, ErrorKind::BusError(0x2002));
    assert_eq!(cpu.program_counter, 0x0010);
    assert_eq!(cpu.register_a, 0);
}

#[test]
fn opcode_round_trips_through_its_byte() {
    let mut known = 0;
    for code in 0..=255u8 {
        match OpCode::from_code(code) {
            Ok(op) => {
                known += 1;
                assert_eq!(op.code(), code);
                assert_eq!(op.detail(), get_opcode_detail(code).unwrap());
            }
            Err(e) => assert_eq!(e.kind, ErrorKind::UnknownOpcode(code)),
        }
    }
    assert_eq!(known, 151);
    assert_eq!(OpCode::Xa9.detail().instruction, Instruction::LDA);
}
