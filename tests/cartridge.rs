use nes_emulator::memory::{Mem, RAM};
use nes_emulator::bus::CpuBus;
use nes_emulator::cartridge::mapper::Mapper;
use nes_emulator::cartridge::{Cartridge, Mirroring, CHR_ROM_PAGE_SIZE, PRG_ROM_PAGE_SIZE};
use nes_emulator::errors::ErrorKind;

fn image(control_byte_6: u8, prg_pages: u8, chr_pages: u8) -> Vec<u8> {
    let mut contents: Vec<u8> = vec![
        0x4e,
        0x45,
        0x53,
        0x1a,
        prg_pages,
        chr_pages,
        control_byte_6,
        0b0000_0000,
        0x00,
        0x00,
    ];
    contents.extend([0; 6]);
    contents.extend(vec![0x01; PRG_ROM_PAGE_SIZE * prg_pages as usize]);
    contents.extend(vec![0x02; CHR_ROM_PAGE_SIZE * chr_pages as usize]);
    contents
}

#[test]
fn cartridge_test_new() {
    let mut contents: Vec<u8> = vec![
        0x4e,
        0x45,
        0x53,
        0x1a,
        0x02,
        0x02,
        0b0001_0001,
        0b0000_0000,
        0x00,
        0x00,
    ];

    contents.extend([0; 6]);
    contents.extend([0x01; PRG_ROM_PAGE_SIZE * 2]);
    contents.extend([0x02; CHR_ROM_PAGE_SIZE * 2]);

    let cartridge = Cartridge::new(&contents).unwrap();

    assert_eq!(cartridge.mapper_type, 1);
    assert_eq!(cartridge.prg_rom, [0x01; PRG_ROM_PAGE_SIZE * 2]);
    assert_eq!(cartridge.chr_rom, [0x02; CHR_ROM_PAGE_SIZE * 2]);
}

#[test]
fn mod_test_new() {
    let mut contents: Vec<u8> = vec![
        0x4e,
        0x45,
        0x53,
        0x1a,
        0x02,
        0x02,
        0b0000_0001,
        0b0000_0000,
        0x00,
        0x00,
    ];

    contents.extend([0; 6]);
    contents.extend([0x01; PRG_ROM_PAGE_SIZE * 2]);
    contents.extend([0x02; CHR_ROM_PAGE_SIZE * 2]);

    let cartridge = Cartridge::new(&contents).unwrap();

    // Two PRG banks fill the whole window, so nothing is mirrored.
    assert_eq!(cartridge.mapper, Mapper::Mapper000 { mirror_bank: false });
    assert_eq!(cartridge.prg_rom, [0x01; PRG_ROM_PAGE_SIZE * 2]);
    assert_eq!(cartridge.chr_rom, [0x02; CHR_ROM_PAGE_SIZE * 2]);
}

#[test]
fn cartridge_single_bank_is_mirrored() {
    let cartridge = Cartridge::new(&image(0, 1, 1)).unwrap();
    assert_eq!(cartridge.mapper, Mapper::Mapper000 { mirror_bank: true });
    assert_eq!(cartridge.mapper.get_pgr_address(0xc123), 0x0123);
    assert_eq!(cartridge.mapper.get_pgr_address(0x8123), 0x0123);
    assert_eq!(cartridge.mirroring_type, Mirroring::Horizontal);
}

#[test]
fn cartridge_mirroring_flags() {
    assert_eq!(Cartridge::new(&image(0b1, 1, 0)).unwrap().mirroring_type, Mirroring::Vertical);
    assert_eq!(Cartridge::new(&image(0b1001, 1, 0)).unwrap().mirroring_type, Mirroring::FourScreen);
}

#[test]
fn cartridge_trainer_is_skipped() {
    let mut contents = image(0b100, 1, 0);
    let mut with_trainer: Vec<u8> = contents[..16].to_vec();
    with_trainer.extend([0xee; 512]);
    with_trainer.extend(contents.split_off(16));
    let cartridge = Cartridge::new(&with_trainer).unwrap();
    assert_eq!(cartridge.prg_rom, vec![0x01; PRG_ROM_PAGE_SIZE]);
}

#[test]
fn cartridge_rejects_bad_images() {
    let short = vec![0x4e, 0x45, 0x53];
    assert_eq!(Cartridge::new(&short).err().unwrap().kind, ErrorKind::InvalidRom);
    let mut version = image(0, 1, 0);
    version[7] = 0b0000_0100;
    assert_eq!(Cartridge::new(&version).err().unwrap().kind, ErrorKind::InvalidRom);
    assert_eq!(Cartridge::new(&image(0, 0, 1)).err().unwrap().kind, ErrorKind::InvalidRom);
    let mut truncated = image(0, 1, 1);
    truncated.pop();
    assert_eq!(Cartridge::new(&truncated).err().unwrap().kind, ErrorKind::InvalidRom);
}

#[test]
fn cartridge_reads_and_writes_through_mapper() {
    let mut cartridge = Cartridge::new(&image(0, 1, 1)).unwrap();
    cartridge.cpu_write(0xc010, 0x77);
    assert_eq!(cartridge.cpu_read(0x8010), 0x77);
    cartridge.ppu_write(0x0010, 0x55);
    assert_eq!(cartridge.ppu_read(0x0010), 0x55);
    assert_eq!(cartridge.mapper.get_chr_address(0x1234), 0x1234);
}

#[test]
fn bus_mirrors_ram_and_ignores_register_writes() {
    let mut bus = CpuBus::new(Cartridge::new(&image(0, 2, 0)).unwrap());
    bus.mem_write(0x0001, 0x42).unwrap();
    for mirror in [0x0001u16, 0x0801, 0x1001, 0x1801] {
        assert_eq!(bus.mem_read(mirror).unwrap(), 0x42);
    }
    assert_eq!(bus.mem_read(0x2000).err().unwrap().kind, ErrorKind::BusError(0x2000));
    assert_eq!(bus.mem_read(0x401f).err().unwrap().kind, ErrorKind::BusError(0x401f));
    assert!(bus.mem_write(0x4000, 1).is_ok());
    assert!(bus.mem_write(0x2000, 1).is_ok());
    assert_eq!(bus.mem_read(0x0000).unwrap(), 0x00);
    assert_eq!(bus.mem_read(0x8000).unwrap(), 0x01);
}

#[test]
fn bus_reads_sixteen_bits() {
    let mut bus = CpuBus::new(Cartridge::new(&image(0, 2, 0)).unwrap());
    bus.mem_write_u16(0x0010, 0x1234).unwrap();
    assert_eq!(bus.mem_read(0x0010).unwrap(), 0x34);
    assert_eq!(bus.mem_read(0x0011).unwrap(), 0x12);
    assert_eq!(bus.mem_read_u16(0x0010).unwrap(), 0x1234);
}

#[test]
fn bus_page_wrapping_read_stays_in_page() {
    let mut bus = CpuBus::new(Cartridge::new(&image(0, 2, 0)).unwrap());
    bus.mem_write(0x02ff, 0x34).unwrap();
    bus.mem_write(0x0300, 0x99).unwrap();
    bus.mem_write(0x0200, 0x12).unwrap();
    assert_eq!(bus.mem_read_u16_wrapping_boundary(0x02ff).unwrap(), 0x1234);
    assert_eq!(bus.mem_read_u16(0x02ff).unwrap(), 0x9934);
    assert_eq!(bus.mem_read_u16_wrapping_boundary(0x0010).unwrap(), bus.mem_read_u16(0x0010).unwrap());
}

#[test]
fn ram_reads_and_writes_inside_its_size() {
    let mut ram = RAM::new(4);
    assert_eq!(ram.len(), 4);
    ram.mem_write(3, 0x99).unwrap();
    assert_eq!(ram.mem_read(3).unwrap(), 0x99);
    assert_eq!(ram.mem_read(0).unwrap(), 0x00);
    assert_eq!(ram.mem_read(4).err().unwrap().kind, ErrorKind::BusError(4));
    assert_eq!(ram.mem_write(4, 1).err().unwrap().kind, ErrorKind::BusError(4));
}
