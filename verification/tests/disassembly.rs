use mos6510::disasm::Block;

#[test]
fn should_disassemble_block() {
    let block = Block {
        start: 0xFCE2,
        instructions: vec![
            0xa2, 0xff,
            0x78,
            0x9a,
            0xd8,
            0x20, 0x02, 0xfd,
            0xd0, 0x03,
            0x6c, 0x00, 0x80,
            0x8e, 0x16, 0xd0,
            0x20, 0xa3, 0xfd,
            0x20, 0x50, 0xfd,
            0x20, 0x15, 0xfd,
            0x20, 0x5b, 0xff,
            0x58,
            0x6c, 0x00, 0xa0,
        ],
    };

    let expected: Vec<String> = vec![
        "FCE2   A2 FF      LDX #$FF   ".trim().into(),
        "FCE4   78         SEI        ".trim().into(),
        "FCE5   9A         TXS        ".trim().into(),
        "FCE6   D8         CLD        ".trim().into(),
        "FCE7   20 02 FD   JSR $FD02  ".trim().into(),
        "FCEA   D0 03      BNE $FCEF  ".trim().into(),
        "FCEC   6C 00 80   JMP ($8000)".trim().into(),
        "FCEF   8E 16 D0   STX $D016  ".trim().into(),
        "FCF2   20 A3 FD   JSR $FDA3  ".trim().into(),
        "FCF5   20 50 FD   JSR $FD50  ".trim().into(),
        "FCF8   20 15 FD   JSR $FD15  ".trim().into(),
        "FCFB   20 5B FF   JSR $FF5B  ".trim().into(),
        "FCFE   58         CLI        ".trim().into(),
        "FCFF   6C 00 A0   JMP ($A000)".trim().into(),
    ];

    let result = block.disassemble();

    assert_eq!(result.len(), expected.len());
    for line in 0..result.len() {
        assert_eq!(result[line], expected[line]);
    }
}

#[test]
fn disassembly_round_trip() {
    let block = Block {
        start: 0xFCE2,
        instructions: vec![
            0xa2, 0xff, 0x78, 0x9a, 0xd8, 0x20, 0x02, 0xfd, 0xd0, 0x03, 0x6c, 0x00, 0x80,
        ],
    };

    let expected = vec![
        "FCE2   A2 FF      LDX #$FF",
        "FCE4   78         SEI",
        "FCE5   9A         TXS",
        "FCE6   D8         CLD",
        "FCE7   20 02 FD   JSR $FD02",
        "FCEA   D0 03      BNE $FCEF",
        "FCEC   6C 00 80   JMP ($8000)",
    ];

    let result = block.disassemble();
    assert_eq!(result.len(), expected.len());
    for line in 0..result.len() {
        assert_eq!(result[line], expected[line]);
    }
}

#[test]
fn relative_branch_target_is_signed() {
    // BNE with offset $FB branches five bytes back from the next opcode.
    let block = Block { start: 0x1000, instructions: vec![0xd0, 0xfb] };
    let result = block.disassemble();
    assert_eq!(result, vec!["1000   D0 FB      BNE $0FFD".to_string()]);
}

#[test]
fn unknown_opcode_disassembles_as_sentinel() {
    let block = Block { start: 0x0801, instructions: vec![0x77, 0xea] };
    let result = block.disassemble();
    assert_eq!(result.len(), 2);
    assert_eq!(result[0], "0801   77         ???");
    assert_eq!(result[1], "0802   EA         NOP");
}

#[test]
fn memory_dump_pads_short_lines() {
    let block = Block { start: 0xFCE2, instructions: vec![0x41, 0x42] };
    let result = block.memory();
    assert_eq!(result.len(), 1);
    assert_eq!(result[0], format!("FCE2   41 42 {}AB", " ".repeat(22)));
}

#[test]
fn memory_dump_groups_eight_bytes_per_line() {
    let block = Block {
        start: 0x0400,
        instructions: vec![0x48, 0x45, 0x4c, 0x4c, 0x4f, 0x21, 0x21, 0x21, 0x58],
    };
    let result = block.memory();
    assert_eq!(result.len(), 2);
    assert_eq!(result[0], "0400   48 45 4C 4C   4F 21 21 21   HELLO!!!");
    assert_eq!(result[1], format!("0408   58 {}X", " ".repeat(25)));
}
