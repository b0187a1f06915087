use nes::Status;

#[test]
fn status_default() {
    let s = Status::default();
    assert_eq!(s.0, 0b0011_0100);
    assert!(s.interrupt());
    assert!(!s.carry());
}

#[test]
fn status_setters_touch_one_flag() {
    let mut s = Status(0);
    s.set_carry(true);
    s.set_zero(true);
    s.set_overflow(true);
    s.set_if_negative(0x80);
    assert_eq!(s.0, 0b1100_0011);
    assert!(s.carry() && s.zero() && s.overflow() && s.negative());
    s.set_zero(false);
    assert_eq!(s.0, 0b1100_0001);
    s.set_decimal(true);
    s.set_interrupt(true);
    assert_eq!(s.0, 0b1100_1101);
    s.set_if_negative(0x7F);
    assert!(!s.negative());
    assert_eq!(s.0, 0b0100_1101);
}

#[test]
fn status_push_pop() {
    let s = Status(0b1100_0011);
    assert_eq!(s.to_pushable(), 0b1111_0011);
    assert_eq!(Status::from_popped(s.to_pushable()).0, 0b1110_0011);
    assert_eq!(Status::from_popped(0xFF).0, 0b1110_1111);
}
