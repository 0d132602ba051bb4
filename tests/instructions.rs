use nes_emulator::memory::Mem;
use nes_emulator::bus::CpuBus;
use nes_emulator::cartridge::{Cartridge, CHR_ROM_PAGE_SIZE, PRG_ROM_PAGE_SIZE};
use nes_emulator::cpu::CPU;
use nes_emulator::opcodes::AddressingMode;
use nes_emulator::status::Flag;

fn make_test_cartridge() -> Cartridge {
    let mut contents: Vec<u8> = vec![
        0x4e,
        0x45,
        0x53,
        0x1a,
        0x02,
        0x02,
        0b0001_0001,
        0b0000_0000,
        0x00,
        0x00,
    ];

    contents.extend([0; 6]);
    contents.extend([0x01; PRG_ROM_PAGE_SIZE * 2]);
    contents.extend([0x02; CHR_ROM_PAGE_SIZE * 2]);

    Cartridge::new(&contents).unwrap()
}

fn new_cpu() -> CPU {
    CPU::new(CpuBus::new(make_test_cartridge()))
}

#[test]
fn test_adc() {
    let mut cpu = new_cpu();
    cpu.register_a = 0x12;
    cpu.bus.mem_write(0x0001, 0x34).unwrap();

    cpu.adc(&AddressingMode::Immediate, 0).unwrap();

    assert_eq!(cpu.register_a, 0x46);
    assert_eq!(cpu.status.read_flag(Flag::Zero), false);
    assert_eq!(cpu.status.read_flag(Flag::Negative), false);
    assert_eq!(cpu.status.read_flag(Flag::Carry), false);
    assert_eq!(cpu.status.read_flag(Flag::Overflow), false);
}

#[test]
fn test_adc_zero() {
    let mut cpu = new_cpu();
    cpu.register_a = 0x00;
    cpu.bus.mem_write(0x0001, 0x00).unwrap();

    cpu.adc(&AddressingMode::Immediate, 0).unwrap();

    assert_eq!(cpu.register_a, 0x00);
    assert_eq!(cpu.status.read_flag(Flag::Zero), true);
    assert_eq!(cpu.status.read_flag(Flag::Negative), false);
    assert_eq!(cpu.status.read_flag(Flag::Carry), false);
    assert_eq!(cpu.status.read_flag(Flag::Overflow), false);
}

#[test]
fn test_adc_negative() {
    let mut cpu = new_cpu();
    cpu.register_a = 0b1000_1010;
    cpu.bus.mem_write(0x0001, 0b0000_0001).unwrap();

    cpu.adc(&AddressingMode::Immediate, 0).unwrap();

    assert_eq!(cpu.register_a, 0b1000_1011);
    assert_eq!(cpu.status.read_flag(Flag::Zero), false);
    assert_eq!(cpu.status.read_flag(Flag::Negative), true);
    assert_eq!(cpu.status.read_flag(Flag::Carry), false);
    assert_eq!(cpu.status.read_flag(Flag::Overflow), false);
}

#[test]
fn test_adc_carry() {
    let mut cpu = new_cpu();
    cpu.register_a = 0b1100_1010;
    cpu.bus.mem_write(0x0001, 0b0100_0001).unwrap();

    cpu.adc(&AddressingMode::Immediate, 0).unwrap();

    assert_eq!(cpu.register_a, 0b0000_1011);
    assert_eq!(cpu.status.read_flag(Flag::Zero), false);
    assert_eq!(cpu.status.read_flag(Flag::Negative), false);
    assert_eq!(cpu.status.read_flag(Flag::Carry), true);
    assert_eq!(cpu.status.read_flag(Flag::Overflow), false);
}

#[test]
fn test_adc_overflow() {
    let mut cpu = new_cpu();
    cpu.register_a = 0b1000_1010;
    cpu.bus.mem_write(0x0001, 0b1000_0001).unwrap();

    cpu.adc(&AddressingMode::Immediate, 0).unwrap();

    assert_eq!(cpu.register_a, 0b0000_1011);
    assert_eq!(cpu.status.read_flag(Flag::Zero), false);
    assert_eq!(cpu.status.read_flag(Flag::Negative), false);
    assert_eq!(cpu.status.read_flag(Flag::Carry), true);
    assert_eq!(cpu.status.read_flag(Flag::Overflow), true);
}

#[test]
fn test_and() {
    let mut cpu = new_cpu();
    cpu.register_a = 0b1000_1010;
    cpu.bus.mem_write(0x0001, 0b0000_0010).unwrap();

    cpu.and(&AddressingMode::Immediate, 0).unwrap();

    assert_eq!(cpu.register_a, 0b0000_0010);
    assert_eq!(cpu.status.read_flag(Flag::Zero), false);
    assert_eq!(cpu.status.read_flag(Flag::Negative), false);
}

#[test]
fn test_asl() {
    let mut cpu = new_cpu();
    cpu.bus.mem_write(0x0001, 0b0000_0001).unwrap();

    cpu.asl(&AddressingMode::Immediate, 0).unwrap();

    // A memory operand is shifted in place.
    assert_eq!(cpu.bus.mem_read(0x0001).unwrap(), 0b0000_0010);
    assert_eq!(cpu.status.read_flag(Flag::Zero), false);
    assert_eq!(cpu.status.read_flag(Flag::Negative), false);
    assert_eq!(cpu.status.read_flag(Flag::Carry), false);
}

#[test]
fn test_asl_accumulator() {
    let mut cpu = new_cpu();
    cpu.register_a = 0b0000_0001;

    cpu.asl(&AddressingMode::Accumulator, 0).unwrap();

    assert_eq!(cpu.register_a, 0b0000_0010);
    assert_eq!(cpu.status.read_flag(Flag::Zero), false);
    assert_eq!(cpu.status.read_flag(Flag::Negative), false);
    assert_eq!(cpu.status.read_flag(Flag::Carry), false);
}

#[test]
fn test_bcc() {
    let mut cpu = new_cpu();
    cpu.program_counter = 0x0002;
    cpu.status.set_flag(Flag::Carry, false);
    cpu.bus.mem_write(0x0003, 0b1111_1110).unwrap();

    cpu.bcc(&AddressingMode::Relative, 0).unwrap();

    assert_eq!(cpu.program_counter, 0b0000_0000);
}

#[test]
fn test_bcs() {
    let mut cpu = new_cpu();
    cpu.program_counter = 0x0002;
    cpu.status.set_flag(Flag::Carry, true);
    cpu.bus.mem_write(0x0003, 0b1111_1110).unwrap();

    cpu.bcs(&AddressingMode::Relative, 0).unwrap();

    assert_eq!(cpu.program_counter, 0b0000_0000);
}

#[test]
fn test_beq() {
    let mut cpu = new_cpu();
    cpu.program_counter = 0x0002;
    cpu.status.set_flag(Flag::Zero, true);
    cpu.bus.mem_write(0x0003, 0b1111_1110).unwrap();

    cpu.beq(&AddressingMode::Relative, 0).unwrap();

    assert_eq!(cpu.program_counter, 0b0000_0000);
}

#[test]
fn test_bit() {
    let mut cpu = new_cpu();
    cpu.program_counter = 0x0000;
    cpu.register_a = 0b0100_0000;
    cpu.bus.mem_write(0x0001, 0x02).unwrap();
    cpu.bus.mem_write(0x0002, 0b1100_0000).unwrap();

    cpu.bit(&AddressingMode::ZeroPage, 0).unwrap();

    assert_eq!(cpu.status.read_flag(Flag::Zero), false);
    assert_eq!(cpu.status.read_flag(Flag::Negative), true);
    assert_eq!(cpu.status.read_flag(Flag::Overflow), true);
}

#[test]
fn test_bmi() {
    let mut cpu = new_cpu();
    cpu.program_counter = 0x0002;
    cpu.status.set_flag(Flag::Negative, true);
    cpu.bus.mem_write(0x0003, 0b1111_1110).unwrap();

    cpu.bmi(&AddressingMode::Relative, 0).unwrap();

    assert_eq!(cpu.program_counter, 0b0000_0000);
}

#[test]
fn test_bne() {
    let mut cpu = new_cpu();
    cpu.program_counter = 0x0002;
    cpu.status.set_flag(Flag::Zero, false);
    cpu.bus.mem_write(0x0003, 0b1111_1110).unwrap();

    cpu.bne(&AddressingMode::Relative, 0).unwrap();

    assert_eq!(cpu.program_counter, 0b0000_0000);
}

#[test]
fn test_bpl() {
    let mut cpu = new_cpu();
    cpu.program_counter = 0x0002;
    cpu.status.set_flag(Flag::Negative, false);
    cpu.bus.mem_write(0x0003, 0b1111_1110).unwrap();

    cpu.bpl(&AddressingMode::Relative, 0).unwrap();

    assert_eq!(cpu.program_counter, 0b0000_0000);
}

#[test]
fn test_brk() {
    let mut cpu = new_cpu();
    cpu.bus.mem_write_u16(0xfffe, 0x0012).unwrap();

    cpu.brk();

    let status = cpu.pull_from_stack();
    let program_counter = cpu.pull_from_stack_u16();

    // The pushed copy has B and U set; I was set from power-on.
    assert_eq!(status, 0b0011_0100);
    assert_eq!(program_counter, 0x0002);
    assert_eq!(cpu.program_counter, 0x0012);
}

#[test]
fn test_bvc() {
    let mut cpu = new_cpu();
    cpu.program_counter = 0x0002;
    cpu.status.set_flag(Flag::Overflow, false);
    cpu.bus.mem_write(0x0003, 0b1111_1110).unwrap();

    cpu.bvc(&AddressingMode::Relative, 0).unwrap();

    assert_eq!(cpu.program_counter, 0b0000_0000);
}

#[test]
fn test_bvs() {
    let mut cpu = new_cpu();
    cpu.program_counter = 0x0002;
    cpu.status.set_flag(Flag::Overflow, true);
    cpu.bus.mem_write(0x0003, 0b1111_1110).unwrap();

    cpu.bvs(&AddressingMode::Relative, 0).unwrap();

    assert_eq!(cpu.program_counter, 0b0000_0000);
}

#[test]
fn test_clc() {
    let mut cpu = new_cpu();
    cpu.status.set_flag(Flag::Carry, true);
    cpu.clc();

    let carry_flag = cpu.status.read_flag(Flag::Carry);

    assert_eq!(carry_flag, false);
}

#[test]
fn test_cld() {
    let mut cpu = new_cpu();
    cpu.status.set_flag(Flag::Decimal, true);
    cpu.cld();

    let decimal_flag = cpu.status.read_flag(Flag::Decimal);

    assert_eq!(decimal_flag, false);
}

#[test]
fn test_cli() {
    let mut cpu = new_cpu();
    cpu.status.set_flag(Flag::Interrupt, true);
    cpu.cli();

    let interrupt_flag = cpu.status.read_flag(Flag::Interrupt);

    assert_eq!(interrupt_flag, false);
}

#[test]
fn test_clv() {
    let mut cpu = new_cpu();
    cpu.status.set_flag(Flag::Overflow, true);
    cpu.clv();

    let overflow_flag = cpu.status.read_flag(Flag::Overflow);

    assert_eq!(overflow_flag, false);
}

#[test]
fn test_cmp_negative() {
    let mut cpu = new_cpu();
    cpu.bus.mem_write(0x0001, 0b0100_0000).unwrap();
    cpu.register_a = 0b1100_0000;

    cpu.cmp(&AddressingMode::Immediate, 0).unwrap();

    let negative_flag = cpu.status.read_flag(Flag::Negative);

    assert_eq!(negative_flag, true);
}

#[test]
fn test_cmp_zero() {
    let mut cpu = new_cpu();
    cpu.bus.mem_write(0x0001, 0b0100_0000).unwrap();
    cpu.register_a = 0b0100_0000;

    cpu.cmp(&AddressingMode::Immediate, 0).unwrap();

    let zero_flag = cpu.status.read_flag(Flag::Zero);

    assert_eq!(zero_flag, true);
}

#[test]
fn test_cmp_carry() {
    let mut cpu = new_cpu();
    cpu.bus.mem_write(0x0001, 0b1000_0000).unwrap();
    cpu.register_a = 0b1000_0000;

    cpu.cmp(&AddressingMode::Immediate, 0).unwrap();

    let zero_flag = cpu.status.read_flag(Flag::Zero);
    let carry_flag = cpu.status.read_flag(Flag::Carry);

    assert_eq!(zero_flag, true);
    assert_eq!(carry_flag, true);
}

#[test]
fn test_dec() {
    let mut cpu = new_cpu();
    cpu.bus.mem_write(0x0001, 0x12).unwrap();

    cpu.dec(&AddressingMode::Immediate, 0).unwrap();

    let result = cpu.bus.mem_read(0x0001).unwrap();

    assert_eq!(result, 0x11);
}

#[test]
fn test_dex() {
    let mut cpu = new_cpu();
    cpu.register_x = 0x12;

    cpu.dex();

    let result = cpu.register_x;

    assert_eq!(result, 0x11);
}

#[test]
fn test_dey() {
    let mut cpu = new_cpu();
    cpu.register_y = 0x12;

    cpu.dey();

    let result = cpu.register_y;

    assert_eq!(result, 0x11);
}

#[test]
fn test_inc() {
    let mut cpu = new_cpu();
    cpu.bus.mem_write(0x0001, 0x11).unwrap();

    cpu.inc(&AddressingMode::Immediate, 0).unwrap();

    let result = cpu.bus.mem_read(0x0001).unwrap();

    assert_eq!(result, 0x12);
}

#[test]
fn test_inx() {
    let mut cpu = new_cpu();
    cpu.register_x = 0x11;

    cpu.inx();

    let result = cpu.register_x;

    assert_eq!(result, 0x12);
}

#[test]
fn test_iny() {
    let mut cpu = new_cpu();
    cpu.register_y = 0x11;

    cpu.iny();

    let result = cpu.register_y;

    assert_eq!(result, 0x12);
}

#[test]
fn test_eor() {
    let mut cpu = new_cpu();
    cpu.bus.mem_write(0x0001, 0b1010_1010).unwrap();
    cpu.register_a = 0b1111_0000;

    cpu.eor(&AddressingMode::Immediate, 0).unwrap();

    let result = cpu.register_a;

    assert_eq!(result, 0b0101_1010);
}

#[test]
fn test_jmp() {
    let mut cpu = new_cpu();
    cpu.bus.mem_write_u16(0x0001, 0x0200).unwrap();

    cpu.jmp(&AddressingMode::Absolute).unwrap();

    assert_eq!(cpu.program_counter, 0x0200);
}

#[test]
fn test_jsr() {
    let mut cpu = new_cpu();
    cpu.bus.mem_write_u16(0x0001, 0x0200).unwrap();

    cpu.jsr(&AddressingMode::Absolute).unwrap();

    let jump_program_counter = cpu.pull_from_stack_u16();

    assert_eq!(cpu.program_counter, 0x0200);
    assert_eq!(jump_program_counter, 0x0002);
}

#[test]
fn test_lda() {
    let mut cpu = new_cpu();
    cpu.bus.mem_write(0x0001, 0x12).unwrap();

    cpu.lda(&AddressingMode::Immediate, 0).unwrap();

    assert_eq!(cpu.register_a, 0x12);
    assert_eq!(cpu.status.read_flag(Flag::Zero), false);
    assert_eq!(cpu.status.read_flag(Flag::Negative), false);
}

#[test]
fn test_ldx() {
    let mut cpu = new_cpu();
    cpu.bus.mem_write(0x0001, 0x12).unwrap();

    cpu.ldx(&AddressingMode::Immediate, 0).unwrap();

    assert_eq!(cpu.register_x, 0x12);
    assert_eq!(cpu.status.read_flag(Flag::Zero), false);
    assert_eq!(cpu.status.read_flag(Flag::Negative), false);
}

#[test]
fn test_ldy() {
    let mut cpu = new_cpu();
    cpu.bus.mem_write(0x0001, 0x12).unwrap();

    cpu.ldy(&AddressingMode::Immediate, 0).unwrap();

    assert_eq!(cpu.register_y, 0x12);
    assert_eq!(cpu.status.read_flag(Flag::Zero), false);
    assert_eq!(cpu.status.read_flag(Flag::Negative), false);
}

#[test]
fn test_lsr() {
    let mut cpu = new_cpu();
    cpu.register_a = 0b0000_1111;

    cpu.lsr(&AddressingMode::Accumulator, 0).unwrap();

    assert_eq!(cpu.register_a, 0b0000_0111);
    assert_eq!(cpu.status.read_flag(Flag::Carry), true);
    assert_eq!(cpu.status.read_flag(Flag::Zero), false);
}

#[test]
fn test_ora() {
    let mut cpu = new_cpu();
    cpu.register_a = 0b0000_0001;
    cpu.bus.mem_write(0x0001, 0b0000_0010).unwrap();

    cpu.ora(&AddressingMode::Immediate, 0).unwrap();

    assert_eq!(cpu.register_a, 0b0000_0011);
    assert_eq!(cpu.status.read_flag(Flag::Zero), false);
    assert_eq!(cpu.status.read_flag(Flag::Negative), false);
}

#[test]
fn test_pha() {
    let mut cpu = new_cpu();
    cpu.register_a = 0x12;

    cpu.pha();

    let stack_value = cpu.pull_from_stack();

    assert_eq!(stack_value, 0x12);
}

#[test]
fn test_php() {
    let mut cpu = new_cpu();
    cpu.status.set_flag(Flag::Zero, true);

    let status = cpu.status.get_status_byte();

    cpu.php();

    let stack_value = cpu.pull_from_stack();

    assert_eq!(cpu.status.get_status_byte(), status);
    // B and U set in the pushed copy; I set from power-on.
    assert_eq!(stack_value, 0b0011_0110)
}

#[test]
fn test_pla() {
    let mut cpu = new_cpu();
    cpu.push_to_stack(0x12);

    cpu.pla();

    assert_eq!(cpu.register_a, 0x12);
    assert_eq!(cpu.status.read_flag(Flag::Negative), false);
    assert_eq!(cpu.status.read_flag(Flag::Zero), false);
}

#[test]
fn test_plp() {
    let mut cpu = new_cpu();
    cpu.push_to_stack(0b0011_0010);

    cpu.plp();

    // U stays 1 and B stays 0 in the running register, whatever was pulled.
    assert_eq!(cpu.status.get_status_byte(), 0b0010_0010);
}

#[test]
fn test_rol() {
    let mut cpu = new_cpu();
    cpu.register_a = 0b1000_1110;
    cpu.status.set_flag(Flag::Carry, true);

    cpu.rol(&AddressingMode::Accumulator, 0).unwrap();

    assert_eq!(cpu.register_a, 0b0001_1101);
    assert_eq!(cpu.status.read_flag(Flag::Carry), true);
}

#[test]
fn test_ror() {
    let mut cpu = new_cpu();
    cpu.register_a = 0b0111_0001;
    cpu.status.set_flag(Flag::Carry, true);

    cpu.ror(&AddressingMode::Accumulator, 0).unwrap();

    assert_eq!(cpu.register_a, 0b1011_1000);
    assert_eq!(cpu.status.read_flag(Flag::Carry), true);
}

#[test]
fn test_rti() {
    let mut cpu = new_cpu();
    cpu.push_to_stack_u16(0x1234);
    cpu.push_to_stack(0b0000_0011);

    cpu.rti();

    // U stays 1 in the running register.
    assert_eq!(cpu.status.get_status_byte(), 0b0010_0011);
    assert_eq!(cpu.program_counter, 0x1234);
}

#[test]
fn test_rts() {
    let mut cpu = new_cpu();
    cpu.push_to_stack_u16(0x1234);

    cpu.rts();

    assert_eq!(cpu.program_counter, 0x1235);
}

#[test]
fn test_sbc() {
    let mut cpu = new_cpu();
    cpu.register_a = 0x12;
    cpu.bus.mem_write(0x0001, 0x08).unwrap();
    cpu.status.set_flag(Flag::Carry, true);

    cpu.sbc(&AddressingMode::Immediate, 0).unwrap();

    assert_eq!(cpu.register_a, 0x0a);
    assert_eq!(cpu.status.read_flag(Flag::Zero), false);
    assert_eq!(cpu.status.read_flag(Flag::Negative), false);
    assert_eq!(cpu.status.read_flag(Flag::Carry), true);
    assert_eq!(cpu.status.read_flag(Flag::Overflow), false);
}

#[test]
fn test_sec() {
    let mut cpu = new_cpu();

    cpu.sec();

    assert_eq!(cpu.status.read_flag(Flag::Carry), true);
}

#[test]
fn test_sed() {
    let mut cpu = new_cpu();

    cpu.sed();

    assert_eq!(cpu.status.read_flag(Flag::Decimal), true);
}

#[test]
fn test_sei() {
    let mut cpu = new_cpu();

    cpu.sei();

    assert_eq!(cpu.status.read_flag(Flag::Interrupt), true);
}

#[test]
fn test_sta() {
    let mut cpu = new_cpu();
    cpu.bus.mem_write_u16(0x0001, 0x1234).unwrap();
    cpu.register_a = 0x01;

    cpu.sta(&AddressingMode::Absolute, 0).unwrap();

    assert_eq!(cpu.bus.mem_read(0x1234).unwrap(), 0x01);
}

#[test]
fn test_stx() {
    let mut cpu = new_cpu();
    cpu.bus.mem_write_u16(0x0001, 0x1234).unwrap();
    cpu.register_x = 0x01;

    cpu.stx(&AddressingMode::Absolute, 0).unwrap();

    assert_eq!(cpu.bus.mem_read(0x1234).unwrap(), 0x01);
}

#[test]
fn test_sty() {
    let mut cpu = new_cpu();
    cpu.bus.mem_write_u16(0x0001, 0x1234).unwrap();
    cpu.register_y = 0x01;

    cpu.sty(&AddressingMode::Absolute, 0).unwrap();

    assert_eq!(cpu.bus.mem_read(0x1234).unwrap(), 0x01);
}

#[test]
fn test_tax() {
    let mut cpu = new_cpu();
    cpu.register_a = 0x01;

    cpu.tax();

    assert_eq!(cpu.register_x, 0x01);
}

#[test]
fn test_tay() {
    let mut cpu = new_cpu();
    cpu.register_a = 0x01;

    cpu.tay();

    assert_eq!(cpu.register_y, 0x01);
}

#[test]
fn test_tsx() {
    let mut cpu = new_cpu();

    cpu.tsx();

    assert_eq!(cpu.register_x, 0xfd);
}

#[test]
fn test_txa() {
    let mut cpu = new_cpu();
    cpu.register_x = 0x12;

    cpu.txa();

    assert_eq!(cpu.register_a, 0x12);
}

#[test]
fn test_txs() {
    let mut cpu = new_cpu();
    cpu.register_x = 0x12;

    cpu.txs();

    assert_eq!(cpu.stack_pointer, 0x12);
}

#[test]
fn test_tya() {
    let mut cpu = new_cpu();
    cpu.register_y = 0x12;

    cpu.tya();

    assert_eq!(cpu.register_a, 0x12);
}

#[test]
fn branch_not_taken_only_advances() {
    let mut cpu = new_cpu();
    cpu.program_counter = 0x0010;
    cpu.status.set_flag(Flag::Carry, true);
    cpu.bus.mem_write(0x0011, 0x05).unwrap();
    cpu.bcc(&AddressingMode::Relative, 2).unwrap();
    assert_eq!(cpu.program_counter, 0x0012);
    cpu.program_counter = 0x0010;
    cpu.bcs(&AddressingMode::Relative, 2).unwrap();
    assert_eq!(cpu.program_counter, 0x0017);
}

#[test]
fn sbc_equals_adc_of_complement() {
    for (a, m, carry) in [(0x50u8, 0xf0u8, false), (0x50, 0xb0, true), (0xd0, 0x70, true), (0x00, 0x01, false)] {
        let mut sub = new_cpu();
        sub.register_a = a;
        sub.status.set_flag(Flag::Carry, carry);
        sub.bus.mem_write(0x0001, m).unwrap();
        sub.sbc(&AddressingMode::Immediate, 2).unwrap();

        let mut add = new_cpu();
        add.register_a = a;
        add.status.set_flag(Flag::Carry, carry);
        add.bus.mem_write(0x0001, !m).unwrap();
        add.adc(&AddressingMode::Immediate, 2).unwrap();

        assert_eq!(sub.register_a, add.register_a);
        assert_eq!(sub.status, add.status);
        assert_eq!(sub.program_counter, add.program_counter);
    }
}

#[test]
fn adc_overflow_follows_the_xor_law() {
    for (a, m) in [(0x50u8, 0x50u8), (0x50, 0xd0), (0xd0, 0x90), (0x7f, 0x01), (0x80, 0xff)] {
        let mut cpu = new_cpu();
        cpu.register_a = a;
        cpu.bus.mem_write(0x0001, m).unwrap();
        cpu.adc(&AddressingMode::Immediate, 2).unwrap();
        let r = a.wrapping_add(m);
        assert_eq!(cpu.register_a, r);
        assert_eq!(cpu.status.overflow, ((a ^ r) & (m ^ r) & 0x80) != 0);
        assert_eq!(cpu.status.carry, (a as u16 + m as u16) > 0xff);
    }
}

#[test]
fn compare_sets_carry_when_register_is_not_smaller() {
    let mut cpu = new_cpu();
    cpu.register_x = 0x10;
    cpu.bus.mem_write(0x0001, 0x20).unwrap();
    cpu.cpx(&AddressingMode::Immediate, 2).unwrap();
    assert!(!cpu.status.carry);
    assert!(!cpu.status.zero);
    assert!(cpu.status.negative);
    cpu.register_y = 0x20;
    cpu.program_counter = 0x0000;
    cpu.cpy(&AddressingMode::Immediate, 2).unwrap();
    assert!(cpu.status.carry);
    assert!(cpu.status.zero);
}

#[test]
fn rotate_and_shift_memory_operands() {
    let mut cpu = new_cpu();
    cpu.bus.mem_write(0x0001, 0x10).unwrap();
    cpu.bus.mem_write(0x0010, 0x81).unwrap();
    cpu.lsr(&AddressingMode::ZeroPage, 0).unwrap();
    assert_eq!(cpu.bus.mem_read(0x0010).unwrap(), 0x40);
    assert!(cpu.status.carry);
    cpu.ror(&AddressingMode::ZeroPage, 0).unwrap();
    assert_eq!(cpu.bus.mem_read(0x0010).unwrap(), 0xa0);
    assert!(!cpu.status.carry);
    assert!(cpu.status.negative);
    cpu.rol(&AddressingMode::ZeroPage, 0).unwrap();
    assert_eq!(cpu.bus.mem_read(0x0010).unwrap(), 0x40);
    assert!(cpu.status.carry);
}

#[test]
fn plp_and_php_keep_unused_and_break() {
    let mut cpu = new_cpu();
    cpu.push_to_stack(0x00);
    cpu.plp();
    assert!(cpu.status.ignored);
    assert!(!cpu.status.break_flag);
    cpu.php();
    let pushed = cpu.pull_from_stack();
    assert_eq!(pushed & 0x30, 0x30);
    assert!(!cpu.status.break_flag);
}
