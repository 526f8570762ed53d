use mos6510::bus::{Bus, Memory};
use mos6510::cpu::Cpu;
use mos6510::status::StatusFlags;

fn machine_with(program_at: u16, bytes: &[u8]) -> (Cpu, Bus) {
    let mut bus = Bus::new(Memory::new(0));
    for (i, b) in bytes.iter().enumerate() {
        bus.write(program_at.wrapping_add(i as u16), *b);
    }
    let mut cpu = Cpu::new();
    cpu.pc = program_at;
    (cpu, bus)
}

#[test]
fn page_cross_costs_one_extra_cycle() {
    // LDA $12FF,X with X = 1 crosses from page $12 to page $13.
    let (mut cpu, mut bus) = machine_with(0x0200, &[0xbd, 0xff, 0x12]);
    cpu.x = 1;
    bus.write(0x1300, 0x99);
    let info = cpu.step(&mut bus);
    assert_eq!(info.cycles, 5);
    assert_eq!(cpu.a, 0x99);

    // LDA $1200,X with X = 1 stays on page $12.
    let (mut cpu, mut bus) = machine_with(0x0200, &[0xbd, 0x00, 0x12]);
    cpu.x = 1;
    bus.write(0x1201, 0x42);
    let info = cpu.step(&mut bus);
    assert_eq!(info.cycles, 4);
    assert_eq!(cpu.a, 0x42);
}

#[test]
fn jmp_indirect_page_wrap_bug() {
    // JMP ($12FF) takes its high byte from $1200, not $1300.
    let (mut cpu, mut bus) = machine_with(0x0400, &[0x6c, 0xff, 0x12]);
    bus.write(0x12ff, 0x34);
    bus.write(0x1200, 0x56);
    bus.write(0x1300, 0x99);
    let info = cpu.step(&mut bus);
    assert_eq!(cpu.pc, 0x5634);
    assert_eq!(info.cycles, 5);
}

#[test]
fn nmi_beats_irq_when_both_assert() {
    let (mut cpu, mut bus) = machine_with(0x0200, &[0xea]);
    bus.write(0xfffa, 0x11);
    bus.write(0xfffb, 0x80);
    bus.write(0xfffe, 0x22);
    bus.write(0xffff, 0x90);
    cpu.nmi();
    cpu.set_irq(true);
    let info = cpu.step(&mut bus);
    assert_eq!(cpu.pc, 0x8011);
    assert!(!cpu.nmi_pending);
    assert!(cpu.get_flag(StatusFlags::I));
    assert_eq!(info.cycles, 7);
}

#[test]
fn masked_irq_is_deferred_until_the_flag_clears() {
    // CLI; NOP - with Interrupt-Disable set, the asserted IRQ line waits.
    let (mut cpu, mut bus) = machine_with(0x0200, &[0x58, 0xea]);
    bus.write(0xfffe, 0x22);
    bus.write(0xffff, 0x90);
    cpu.set_flag(StatusFlags::I);
    cpu.set_irq(true);
    let info = cpu.step(&mut bus);
    // The CLI instruction ran; no vector was loaded.
    assert_eq!(cpu.pc, 0x0201);
    assert_eq!(info.cycles, 2);
    // Now the flag is clear, so the next boundary honours the IRQ.
    cpu.step(&mut bus);
    assert_eq!(cpu.pc, 0x9022);
    assert!(cpu.get_flag(StatusFlags::I));
}

#[test]
fn step_and_clock_agree_on_cycle_counts() {
    // LDA #$07; STA $0010; INX; BNE back - a little loop of work.
    let program = [0xa9, 0x07, 0x8d, 0x10, 0x00, 0xe8, 0xd0, 0xf8];
    let (mut stepped, mut bus_a) = machine_with(0x0200, &program);
    let (mut clocked, mut bus_b) = machine_with(0x0200, &program);

    let mut total: u64 = 0;
    for _ in 0..6 {
        total += stepped.step(&mut bus_a).cycles as u64;
    }
    for _ in 0..total {
        clocked.clock(&mut bus_b);
    }
    assert_eq!(stepped.pc, clocked.pc);
    assert_eq!(stepped.a, clocked.a);
    assert_eq!(stepped.x, clocked.x);
    assert_eq!(stepped.sr, clocked.sr);
    assert_eq!(clocked.cycles, 0);
    assert_eq!(bus_a.read(0x0010), bus_b.read(0x0010));
}

#[test]
fn adc_sets_carry_zero_overflow_negative() {
    // $50 + $50 = $A0: signed overflow, negative, no carry.
    let (mut cpu, mut bus) = machine_with(0x0200, &[0x69, 0x50]);
    cpu.a = 0x50;
    cpu.step(&mut bus);
    assert_eq!(cpu.a, 0xa0);
    assert!(!cpu.get_flag(StatusFlags::C));
    assert!(cpu.get_flag(StatusFlags::V));
    assert!(cpu.get_flag(StatusFlags::N));
    assert!(!cpu.get_flag(StatusFlags::Z));

    // $FF + $01 = $00: carry out, zero, no signed overflow.
    let (mut cpu, mut bus) = machine_with(0x0200, &[0x69, 0x01]);
    cpu.a = 0xff;
    cpu.step(&mut bus);
    assert_eq!(cpu.a, 0x00);
    assert!(cpu.get_flag(StatusFlags::C));
    assert!(!cpu.get_flag(StatusFlags::V));
    assert!(cpu.get_flag(StatusFlags::Z));
}

#[test]
fn adc_decimal_mode_adjusts_nibbles() {
    // $15 + $27 = $42 in BCD.
    let (mut cpu, mut bus) = machine_with(0x0200, &[0x69, 0x27]);
    cpu.a = 0x15;
    cpu.set_flag(StatusFlags::D);
    cpu.step(&mut bus);
    assert_eq!(cpu.a, 0x42);
    assert!(!cpu.get_flag(StatusFlags::C));

    // $58 + $46 = $104 in BCD: carry out, $04 left.
    let (mut cpu, mut bus) = machine_with(0x0200, &[0x69, 0x46]);
    cpu.a = 0x58;
    cpu.set_flag(StatusFlags::D);
    cpu.step(&mut bus);
    assert_eq!(cpu.a, 0x04);
    assert!(cpu.get_flag(StatusFlags::C));
}

#[test]
fn sbc_borrows_and_compares() {
    // SEC; SBC #$30 with A = $50 leaves $20, carry still set.
    let (mut cpu, mut bus) = machine_with(0x0200, &[0x38, 0xe9, 0x30]);
    cpu.a = 0x50;
    cpu.step(&mut bus);
    cpu.step(&mut bus);
    assert_eq!(cpu.a, 0x20);
    assert!(cpu.get_flag(StatusFlags::C));

    // CMP #$41 with A = $40: borrow needed, negative difference.
    let (mut cpu, mut bus) = machine_with(0x0200, &[0xc9, 0x41]);
    cpu.a = 0x40;
    cpu.step(&mut bus);
    assert_eq!(cpu.a, 0x40);
    assert!(!cpu.get_flag(StatusFlags::C));
    assert!(!cpu.get_flag(StatusFlags::Z));
    assert!(cpu.get_flag(StatusFlags::N));
}

#[test]
fn shifts_move_bits_through_carry() {
    // ASL A on $81: carry takes bit 7, result $02.
    let (mut cpu, mut bus) = machine_with(0x0200, &[0x0a]);
    cpu.a = 0x81;
    cpu.step(&mut bus);
    assert_eq!(cpu.a, 0x02);
    assert!(cpu.get_flag(StatusFlags::C));

    // ROR A on $01 with carry set: $80 comes in on top, carry out.
    let (mut cpu, mut bus) = machine_with(0x0200, &[0x6a]);
    cpu.a = 0x01;
    cpu.set_flag(StatusFlags::C);
    cpu.step(&mut bus);
    assert_eq!(cpu.a, 0x80);
    assert!(cpu.get_flag(StatusFlags::C));
    assert!(cpu.get_flag(StatusFlags::N));
}

#[test]
fn jsr_and_rts_return_to_the_caller() {
    // JSR $0300 at $0200; at $0300 an RTS.
    let (mut cpu, mut bus) = machine_with(0x0200, &[0x20, 0x00, 0x03]);
    bus.write(0x0300, 0x60);
    cpu.sp = 0xfd;
    let info = cpu.step(&mut bus);
    assert_eq!(cpu.pc, 0x0300);
    assert_eq!(cpu.sp, 0xfb);
    assert_eq!(info.cycles, 6);
    let info = cpu.step(&mut bus);
    assert_eq!(cpu.pc, 0x0203);
    assert_eq!(cpu.sp, 0xfd);
    assert_eq!(info.cycles, 6);
}

#[test]
fn brk_pushes_state_and_takes_the_irq_vector() {
    let (mut cpu, mut bus) = machine_with(0x0200, &[0x00]);
    bus.write(0xfffe, 0x00);
    bus.write(0xffff, 0xe0);
    cpu.sp = 0xfd;
    let info = cpu.step(&mut bus);
    assert_eq!(cpu.pc, 0xe000);
    assert_eq!(info.cycles, 7);
    assert!(cpu.get_flag(StatusFlags::I));
    // Return address $0202, then the status with the Break bit set.
    assert_eq!(bus.read(0x01fd), 0x02);
    assert_eq!(bus.read(0x01fc), 0x02);
    assert_eq!(bus.read(0x01fb) & 0x10, 0x10);
}

#[test]
fn rti_returns_from_brk_with_break_clear() {
    // BRK at $0200; the handler at $E000 holds only an RTI.
    let (mut cpu, mut bus) = machine_with(0x0200, &[0x00]);
    bus.write(0xfffe, 0x00);
    bus.write(0xffff, 0xe0);
    bus.write(0xe000, 0x40);
    cpu.sp = 0xfd;
    cpu.step(&mut bus);
    assert_eq!(cpu.pc, 0xe000);
    let info = cpu.step(&mut bus);
    // Execution resumes two past the BRK; the pushed status carried the
    // Break bit, the live register does not.
    assert_eq!(cpu.pc, 0x0202);
    assert_eq!(cpu.sp, 0xfd);
    assert_eq!(info.cycles, 6);
    assert!(!cpu.get_flag(StatusFlags::B));
}

#[test]
fn php_pushes_break_set_but_plp_does_not_restore_it() {
    let (mut cpu, mut bus) = machine_with(0x0200, &[0x08, 0x28]);
    cpu.sp = 0xfd;
    cpu.set_flag(StatusFlags::C);
    cpu.step(&mut bus);
    assert_eq!(bus.read(0x01fd) & 0x10, 0x10);
    assert_eq!(bus.read(0x01fd) & 0x01, 0x01);
    cpu.step(&mut bus);
    assert!(cpu.get_flag(StatusFlags::C));
    assert!(!cpu.get_flag(StatusFlags::B));
    assert_eq!(cpu.sp, 0xfd);
}

#[test]
fn unknown_opcode_is_flagged_and_skipped() {
    let (mut cpu, mut bus) = machine_with(0x0200, &[0x77, 0xea]);
    let info = cpu.step(&mut bus);
    assert!(info.unknown);
    assert_eq!(info.cycles, 1);
    assert_eq!(cpu.pc, 0x0201);
    let info = cpu.step(&mut bus);
    assert!(!info.unknown);
    assert_eq!(cpu.pc, 0x0202);
}

#[test]
fn taken_branch_costs_more_when_crossing_a_page() {
    // BNE forward within the page: 3 cycles.
    let (mut cpu, mut bus) = machine_with(0x0200, &[0xd0, 0x10]);
    let info = cpu.step(&mut bus);
    assert_eq!(cpu.pc, 0x0212);
    assert_eq!(info.cycles, 3);

    // BNE backwards across the page boundary: 4 cycles.
    let (mut cpu, mut bus) = machine_with(0x0200, &[0xd0, 0xf0]);
    let info = cpu.step(&mut bus);
    assert_eq!(cpu.pc, 0x01f2);
    assert_eq!(info.cycles, 4);

    // Branch not taken: 2 cycles.
    let (mut cpu, mut bus) = machine_with(0x0200, &[0xd0, 0x10]);
    cpu.set_flag(StatusFlags::Z);
    let info = cpu.step(&mut bus);
    assert_eq!(cpu.pc, 0x0202);
    assert_eq!(info.cycles, 2);
}

#[test]
fn reset_latency_is_charged_before_the_first_fetch() {
    let (mut cpu, mut bus) = machine_with(0x0000, &[]);
    bus.write(0xfffc, 0x00);
    bus.write(0xfffd, 0x02);
    bus.write(0x0200, 0xea);
    cpu.reset(&bus);
    assert_eq!(cpu.cycles, 7);
    // Seven clocks settle the reset; the eighth fetches the NOP.
    for _ in 0..7 {
        cpu.clock(&mut bus);
        assert_eq!(cpu.pc, 0x0200);
    }
    cpu.clock(&mut bus);
    assert_eq!(cpu.pc, 0x0201);
}
