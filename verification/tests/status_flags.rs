use mos6510::status::{StatusFlags, StatusRegisters};

#[test]
fn public_should_clear_flag() {
    let mut sr: StatusRegisters = StatusRegisters::flags(StatusFlags::C);
    sr.clear(StatusFlags::C);
    assert!(!sr.get(StatusFlags::C))
}

#[test]
fn public_should_set_flag() {
    let mut sr = StatusRegisters::new(0x00);
    sr.set(StatusFlags::C);
    assert!(sr.get(StatusFlags::C))
}

#[test]
fn setting_twice_equals_setting_once() {
    let mut once = StatusRegisters::new(0x4c);
    once.set(StatusFlags::D);
    let mut twice = StatusRegisters::new(0x4c);
    twice.set(StatusFlags::D);
    twice.set(StatusFlags::D);
    assert_eq!(once, twice);
}

#[test]
fn clearing_a_clear_flag_is_a_noop() {
    let mut sr = StatusRegisters::new(0x4c);
    assert!(!sr.get(StatusFlags::Z));
    sr.clear(StatusFlags::Z);
    assert_eq!(sr, StatusRegisters::new(0x4c));
    sr.clear(StatusFlags::Z);
    assert_eq!(sr, StatusRegisters::new(0x4c));
}

#[test]
fn set_wins_after_clear_and_clear_after_set() {
    for flag in [
        StatusFlags::C,
        StatusFlags::Z,
        StatusFlags::I,
        StatusFlags::D,
        StatusFlags::B,
        StatusFlags::V,
        StatusFlags::N,
    ] {
        let mut sr = StatusRegisters::new(0xff);
        sr.clear(flag);
        assert!(!sr.get(flag));
        sr.set(flag);
        assert!(sr.get(flag));
    }
}

#[test]
fn unused_always_reads_set() {
    let mut sr = StatusRegisters::new(0x00);
    assert!(sr.get(StatusFlags::U));
    sr.clear(StatusFlags::U);
    assert!(sr.get(StatusFlags::U));
    assert_eq!(sr.reported() & 0x20, 0x20);
}

#[test]
fn flags_do_not_disturb_each_other() {
    let mut sr = StatusRegisters::new(0x00);
    sr.set(StatusFlags::C);
    sr.set(StatusFlags::N);
    assert!(sr.get(StatusFlags::C));
    assert!(sr.get(StatusFlags::N));
    sr.clear(StatusFlags::C);
    assert!(!sr.get(StatusFlags::C));
    assert!(sr.get(StatusFlags::N));
}
