use mos6510::bus::{Bus, Memory};
use mos6510::cpu::Cpu;
use mos6510::status::{StatusFlags, StatusRegisters};

#[test]
fn test_op_sei() {
    let mut cpu = Cpu::new();
    assert_eq!(cpu.sr, StatusRegisters::new(0));

    cpu.op_sei();
    assert!(cpu.sr.get(StatusFlags::I));
}

#[test]
fn op_sei() {
    let mut cpu = Cpu::new();

    // Make sure that the flag is cleared before we do anything
    assert_eq!(cpu.sr, StatusRegisters::new(0));

    // Set the StatusFlags::I directly
    cpu.sr.set(StatusFlags::I);

    assert!(cpu.sr.get(StatusFlags::I));
}

#[test]
fn test_reset() {
    let mut cpu = Cpu::new();
    let mut bus = Bus::new(Memory::new(0));
    bus.write(0xfffc, 0xfc);
    bus.write(0xfffd, 0xff);
    cpu.reset(&bus);

    assert_eq!(cpu.pc, 0xfffc);
    assert_eq!(cpu.a, 0xaa);
}

#[test]
fn should_set_flag() {
    let mut cpu = Cpu::new();

    cpu.set_flag(StatusFlags::D);
    assert!(cpu.get_flag(StatusFlags::D));
}

#[test]
fn should_clear_flag() {
    let mut cpu = Cpu::new();

    cpu.sr = StatusRegisters::flags(StatusFlags::D);
    assert!(cpu.get_flag(StatusFlags::D));

    cpu.clear_flag(StatusFlags::D);
    assert!(!cpu.get_flag(StatusFlags::D));
}

#[test]
fn reset_follows_the_vector_and_flags() {
    let mut cpu = Cpu::new();
    let mut bus = Bus::new(Memory::new(0));
    bus.write(0xfffc, 0x02);
    bus.write(0xfffd, 0xfd);
    cpu.set_flag(StatusFlags::D);
    cpu.reset(&bus);

    assert_eq!(cpu.pc, 0xfd02);
    assert_eq!(cpu.sp, 0xfd);
    assert!(cpu.get_flag(StatusFlags::I));
    assert!(!cpu.get_flag(StatusFlags::D));
    assert_eq!(cpu.cycles, 7);
}

#[test]
fn push_pop_returns_the_byte_and_restores_sp() {
    let mut cpu = Cpu::new();
    let mut bus = Bus::new(Memory::new(0));
    for v in [0x00u8, 0x5a, 0xff] {
        for sp in [0xfdu8, 0x00, 0xff, 0x01] {
            cpu.sp = sp;
            cpu.push(&mut bus, v);
            assert_eq!(cpu.pop(&bus), v);
            assert_eq!(cpu.sp, sp);
        }
    }
}

#[test]
fn push_wraps_within_the_stack_page() {
    let mut cpu = Cpu::new();
    let mut bus = Bus::new(Memory::new(0));
    cpu.sp = 0x00;
    cpu.push(&mut bus, 0x77);
    assert_eq!(cpu.sp, 0xff);
    assert_eq!(bus.read(0x0100), 0x77);
    assert_eq!(cpu.pop(&bus), 0x77);
    assert_eq!(cpu.sp, 0x00);
}
