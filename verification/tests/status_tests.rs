use rustness::ben6502::Status;

#[test]
fn test_create_status() {
    let status = Status { flags: 0 };
    assert_eq!(status.flags, 0);
}

#[test]
fn test_get_carry() {
    let status = Status { flags: 0 };
    assert_eq!(status.get_carry(), 0);
}

#[test]
fn test_set_carry() {
    let mut status = Status { flags: 0 };

    status.set_carry(1);
    assert_eq!(status.get_carry(), 1);

    status.set_carry(0);
    assert_eq!(status.get_carry(), 0);
}

#[test]
fn status_new_has_only_unused_bit() {
    let status = Status::new();
    assert_eq!(status.flags, 0b0010_0000);
    assert_eq!(status.get_unused_bit(), 1);
    assert_eq!(status.get_carry(), 0);
    assert_eq!(status.get_negative(), 0);
}

#[test]
fn status_flags_sit_in_their_bits() {
    let mut status = Status { flags: 0 };
    status.set_zero(1);
    assert_eq!(status.flags, 0b0000_0010);
    status.set_irq_disable(1);
    assert_eq!(status.flags, 0b0000_0110);
    status.set_decimal_mode(1);
    status.set_brk_command(1);
    status.set_overflow(1);
    status.set_negative(1);
    assert_eq!(status.flags, 0b1101_1110);
    assert_eq!(status.get_overflow(), 1);
    assert_eq!(status.get_decimal_mode(), 1);
    assert_eq!(status.get_brk_command(), 1);
    status.set_negative(0);
    assert_eq!(status.get_negative(), 0);
    assert_eq!(status.flags, 0b0101_1110);
}

#[test]
fn status_reset_keeps_unused_bit_only() {
    let mut status = Status { flags: 0xFF };
    status.reset();
    assert_eq!(status.flags, 0x20);
}
