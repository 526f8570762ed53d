use mos6510::assembler::parse_params;
use mos6510::ops::{decode, AddressingMode, Op};

#[test]
fn should_parse_params() {
    let raw = "($a000)";
    let result = parse_params(raw);

    assert_eq!(vec![0x00, 0xa0], result);
}

#[test]
fn parse_params_handles_every_operand_shape() {
    assert_eq!(parse_params(""), Vec::<u8>::new());
    assert_eq!(parse_params("#$FF"), vec![0xff]);
    assert_eq!(parse_params("$7"), vec![0x07]);
    assert_eq!(parse_params("$D016"), vec![0x16, 0xd0]);
    assert_eq!(parse_params("$a12"), vec![0x12, 0x0a]);
}

#[test]
fn decode_knows_the_documented_opcodes() {
    let lda = decode(0xbd);
    assert_eq!(lda.name, Op::Lda);
    assert_eq!(lda.mode, AddressingMode::AbsoluteX);
    assert_eq!(lda.length, 3);
    assert_eq!(lda.cycles, 4);
    assert!(lda.penalty);

    let jsr = decode(0x20);
    assert_eq!(jsr.name, Op::Jsr);
    assert_eq!(jsr.mode, AddressingMode::Absolute);
    assert_eq!(jsr.length, 3);
    assert_eq!(jsr.cycles, 6);
    assert!(!jsr.penalty);
}

#[test]
fn decode_falls_back_to_the_sentinel() {
    let unknown = decode(0x77);
    assert_eq!(unknown.name, Op::Unknown);
    assert_eq!(unknown.mode, AddressingMode::Implied);
    assert_eq!(unknown.length, 1);
    assert_eq!(unknown.cycles, 0);
}
