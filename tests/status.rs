use nes_emulator::status::{Flag, Status};

#[test]
fn test_set_flag() {
    let mut status = Status::new();
    status.set_flag(Flag::Negative, true);

    assert_eq!(status.negative, true);
}

#[test]
fn test_read_flag() {
    let mut status = Status::new();
    status.set_flag(Flag::Negative, true);

    let negative = status.read_flag(Flag::Negative);

    assert_eq!(negative, true);
}

#[test]
fn test_set_negative_flag() {
    let mut status = Status::new();
    status.set_negative_flag(0b1000_0000);

    assert_eq!(status.negative, true);
}

#[test]
fn test_set_zero_flag() {
    let mut status = Status::new();
    status.set_zero_flag(0b0000_0000);

    assert_eq!(status.zero, true);
}

#[test]
fn test_get_status_byte() {
    let mut status = Status::new();
    status.set_flag(Flag::Negative, true);
    status.set_flag(Flag::Overflow, true);
    status.set_flag(Flag::Interrupt, true);
    status.set_flag(Flag::Carry, true);

    let status_byte = status.get_status_byte();

    // The unused bit reads as 1 from power-on.
    assert_eq!(status_byte, 0b1110_0101);
}

#[test]
fn test_set_from_byte() {
    let mut status = Status::new();
    status.set_from_byte(0b0000_0011);

    let status_byte = status.get_status_byte();

    assert_eq!(status_byte, 0b0000_0011);
}

#[test]
fn status_new_has_interrupt_and_unused_set() {
    assert_eq!(Status::new().get_status_byte(), 0x24);
    let mut status = Status::new();
    status.set_from_byte(0xff);
    status.reset();
    assert_eq!(status.get_status_byte(), 0x24);
}

#[test]
fn status_pack_unpack_round_trip_for_every_byte() {
    for b in 0..=255u8 {
        let mut status = Status::new();
        status.set_from_byte(b);
        assert_eq!(status.get_status_byte(), b);
        let mut again = Status::new();
        again.set_from_byte(status.get_status_byte());
        assert_eq!(again, status);
    }
}

#[test]
fn status_zero_negative_from_result() {
    for v in 0..=255u8 {
        let mut status = Status::new();
        status.set_zn_flags(v);
        assert_eq!(status.zero, v == 0);
        assert_eq!(status.negative, (v >> 7) == 1);
    }
}

#[test]
fn status_increment_and_decrement_wrap() {
    let mut status = Status::new();
    assert_eq!(status.set_increment_flags(0xff), 0x00);
    assert!(status.zero);
    assert_eq!(status.set_decrement_flags(0x00), 0xff);
    assert!(status.negative);
    assert!(!status.zero);
}
