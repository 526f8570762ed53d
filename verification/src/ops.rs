//! The instruction table: an immutable mapping from opcode byte to its
//! descriptor, covering the 151 documented opcodes. An undocumented opcode
//! resolves to a sentinel descriptor (mnemonic `???`, Implied, length 1,
//! cycle count 0) so that diagnostics can flag it while execution treats it
//! as a one-byte no-op; this is a documented simplification, not a model of
//! real illegal-opcode behaviour.

use vstd::prelude::*;

verus! {

/// Every documented mnemonic, plus the sentinel for undocumented opcodes.
#[derive(Clone, Copy, Debug, PartialEq, Eq, Structural)]
pub enum Op {
    Adc,
    And,
    Asl,
    Bcc,
    Bcs,
    Beq,
    Bit,
    Bmi,
    Bne,
    Bpl,
    Brk,
    Bvc,
    Bvs,
    Clc,
    Cld,
    Cli,
    Clv,
    Cmp,
    Cpx,
    Cpy,
    Dec,
    Dex,
    Dey,
    Eor,
    Inc,
    Inx,
    Iny,
    Jmp,
    Jsr,
    Lda,
    Ldx,
    Ldy,
    Lsr,
    Nop,
    Ora,
    Pha,
    Php,
    Pla,
    Plp,
    Rol,
    Ror,
    Rti,
    Rts,
    Sbc,
    Sec,
    Sed,
    Sei,
    Sta,
    Stx,
    Sty,
    Tax,
    Tay,
    Tsx,
    Txa,
    Txs,
    Tya,
    Unknown,
}

/// The twelve addressing modes. Accumulator-operand forms of the shift
/// instructions are carried as Implied (one-byte instructions).
#[derive(Clone, Copy, Debug, PartialEq, Eq, Structural)]
pub enum AddressingMode {
    Absolute,
    AbsoluteX,
    AbsoluteY,
    Immediate,
    Implied,
    Indirect,
    IndirectX,
    IndirectY,
    Relative,
    ZeroPage,
    ZeroPageX,
    ZeroPageY,
}

/// One opcode's descriptor: mnemonic, addressing mode, instruction length in
/// bytes, base cycle count, and whether a page crossing costs an extra cycle.
#[derive(Clone, Copy, Debug, PartialEq, Eq, Structural)]
pub struct Instruction {
    pub code: u8,
    pub name: Op,
    pub mode: AddressingMode,
    pub length: u8,
    pub cycles: u8,
    pub penalty: bool,
}

impl Instruction {
    pub fn new(code: u8, name: Op, mode: AddressingMode, length: u8, cycles: u8, penalty: bool) -> (r:
        Instruction)
        ensures
            r == (Instruction { code, name, mode, length, cycles, penalty }),
    {
        Instruction { code, name, mode, length, cycles, penalty }
    }

    /// The sentinel descriptor for an undocumented opcode.
    pub fn unknown(code: u8) -> (r: Instruction)
        ensures
            r == spec_unknown(code),
    {
        Instruction::new(code, Op::Unknown, AddressingMode::Implied, 1, 0, false)
    }
}

/// Descriptor constructor shorthand for the table below.
pub open spec fn ins(code: u8, name: Op, mode: AddressingMode, length: u8, cycles: u8, penalty: bool) -> Instruction {
    Instruction { code, name, mode, length, cycles, penalty }
}

/// The sentinel descriptor for an undocumented opcode.
pub open spec fn spec_unknown(code: u8) -> Instruction {
    ins(code, Op::Unknown, AddressingMode::Implied, 1, 0, false)
}

/// The instruction table as a mapping: what `decode` returns for every
/// opcode byte.
pub open spec fn spec_decode(opcode: u8) -> Instruction {
    match opcode {
        0x00 => ins(0x00, Op::Brk, AddressingMode::Implied, 1, 7, false),
        0x01 => ins(0x01, Op::Ora, AddressingMode::IndirectX, 2, 6, false),
        0x05 => ins(0x05, Op::Ora, AddressingMode::ZeroPage, 2, 3, false),
        0x06 => ins(0x06, Op::Asl, AddressingMode::ZeroPage, 2, 5, false),
        0x08 => ins(0x08, Op::Php, AddressingMode::Implied, 1, 3, false),
        0x09 => ins(0x09, Op::Ora, AddressingMode::Immediate, 2, 2, false),
        0x0a => ins(0x0a, Op::Asl, AddressingMode::Implied, 1, 2, false),
        0x0d => ins(0x0d, Op::Ora, AddressingMode::Absolute, 3, 4, false),
        0x0e => ins(0x0e, Op::Asl, AddressingMode::Absolute, 3, 6, false),
        0x10 => ins(0x10, Op::Bpl, AddressingMode::Relative, 2, 2, true),
        0x11 => ins(0x11, Op::Ora, AddressingMode::IndirectY, 2, 5, true),
        0x15 => ins(0x15, Op::Ora, AddressingMode::ZeroPageX, 2, 4, false),
        0x16 => ins(0x16, Op::Asl, AddressingMode::ZeroPageX, 2, 6, false),
        0x18 => ins(0x18, Op::Clc, AddressingMode::Implied, 1, 2, false),
        0x19 => ins(0x19, Op::Ora, AddressingMode::AbsoluteY, 3, 4, true),
        0x1d => ins(0x1d, Op::Ora, AddressingMode::AbsoluteX, 3, 4, true),
        0x1e => ins(0x1e, Op::Asl, AddressingMode::AbsoluteX, 3, 7, false),
        0x20 => ins(0x20, Op::Jsr, AddressingMode::Absolute, 3, 6, false),
        0x21 => ins(0x21, Op::And, AddressingMode::IndirectX, 2, 6, false),
        0x24 => ins(0x24, Op::Bit, AddressingMode::ZeroPage, 2, 3, false),
        0x25 => ins(0x25, Op::And, AddressingMode::ZeroPage, 2, 3, false),
        0x26 => ins(0x26, Op::Rol, AddressingMode::ZeroPage, 2, 5, false),
        0x28 => ins(0x28, Op::Plp, AddressingMode::Implied, 1, 4, false),
        0x29 => ins(0x29, Op::And, AddressingMode::Immediate, 2, 2, false),
        0x2a => ins(0x2a, Op::Rol, AddressingMode::Implied, 1, 2, false),
        0x2c => ins(0x2c, Op::Bit, AddressingMode::Absolute, 3, 4, false),
        0x2d => ins(0x2d, Op::And, AddressingMode::Absolute, 3, 4, false),
        0x2e => ins(0x2e, Op::Rol, AddressingMode::Absolute, 3, 6, false),
        0x30 => ins(0x30, Op::Bmi, AddressingMode::Relative, 2, 2, true),
        0x31 => ins(0x31, Op::And, AddressingMode::IndirectY, 2, 5, true),
        0x35 => ins(0x35, Op::And, AddressingMode::ZeroPageX, 2, 4, false),
        0x36 => ins(0x36, Op::Rol, AddressingMode::ZeroPageX, 2, 6, false),
        0x38 => ins(0x38, Op::Sec, AddressingMode::Implied, 1, 2, false),
        0x39 => ins(0x39, Op::And, AddressingMode::AbsoluteY, 3, 4, true),
        0x3d => ins(0x3d, Op::And, AddressingMode::AbsoluteX, 3, 4, true),
        0x3e => ins(0x3e, Op::Rol, AddressingMode::AbsoluteX, 3, 7, false),
        0x40 => ins(0x40, Op::Rti, AddressingMode::Implied, 1, 6, false),
        0x41 => ins(0x41, Op::Eor, AddressingMode::IndirectX, 2, 6, false),
        0x45 => ins(0x45, Op::Eor, AddressingMode::ZeroPage, 2, 3, false),
        0x46 => ins(0x46, Op::Lsr, AddressingMode::ZeroPage, 2, 5, false),
        0x48 => ins(0x48, Op::Pha, AddressingMode::Implied, 1, 3, false),
        0x49 => ins(0x49, Op::Eor, AddressingMode::Immediate, 2, 2, false),
        0x4a => ins(0x4a, Op::Lsr, AddressingMode::Implied, 1, 2, false),
        0x4c => ins(0x4c, Op::Jmp, AddressingMode::Absolute, 3, 3, false),
        0x4d => ins(0x4d, Op::Eor, AddressingMode::Absolute, 3, 4, false),
        0x4e => ins(0x4e, Op::Lsr, AddressingMode::Absolute, 3, 6, false),
        0x50 => ins(0x50, Op::Bvc, AddressingMode::Relative, 2, 2, true),
        0x51 => ins(0x51, Op::Eor, AddressingMode::IndirectY, 2, 5, true),
        0x55 => ins(0x55, Op::Eor, AddressingMode::ZeroPageX, 2, 4, false),
        0x56 => ins(0x56, Op::Lsr, AddressingMode::ZeroPageX, 2, 6, false),
        0x58 => ins(0x58, Op::Cli, AddressingMode::Implied, 1, 2, false),
        0x59 => ins(0x59, Op::Eor, AddressingMode::AbsoluteY, 3, 4, true),
        0x5d => ins(0x5d, Op::Eor, AddressingMode::AbsoluteX, 3, 4, true),
        0x5e => ins(0x5e, Op::Lsr, AddressingMode::AbsoluteX, 3, 7, false),
        0x60 => ins(0x60, Op::Rts, AddressingMode::Implied, 1, 6, false),
        0x61 => ins(0x61, Op::Adc, AddressingMode::IndirectX, 2, 6, false),
        0x65 => ins(0x65, Op::Adc, AddressingMode::ZeroPage, 2, 3, false),
        0x66 => ins(0x66, Op::Ror, AddressingMode::ZeroPage, 2, 5, false),
        0x68 => ins(0x68, Op::Pla, AddressingMode::Implied, 1, 4, false),
        0x69 => ins(0x69, Op::Adc, AddressingMode::Immediate, 2, 2, false),
        0x6a => ins(0x6a, Op::Ror, AddressingMode::Implied, 1, 2, false),
        0x6c => ins(0x6c, Op::Jmp, AddressingMode::Indirect, 3, 5, false),
        0x6d => ins(0x6d, Op::Adc, AddressingMode::Absolute, 3, 4, false),
        0x6e => ins(0x6e, Op::Ror, AddressingMode::Absolute, 3, 6, false),
        0x70 => ins(0x70, Op::Bvs, AddressingMode::Relative, 2, 2, true),
        0x71 => ins(0x71, Op::Adc, AddressingMode::IndirectY, 2, 5, true),
        0x75 => ins(0x75, Op::Adc, AddressingMode::ZeroPageX, 2, 4, false),
        0x76 => ins(0x76, Op::Ror, AddressingMode::ZeroPageX, 2, 6, false),
        0x78 => ins(0x78, Op::Sei, AddressingMode::Implied, 1, 2, false),
        0x79 => ins(0x79, Op::Adc, AddressingMode::AbsoluteY, 3, 4, true),
        0x7d => ins(0x7d, Op::Adc, AddressingMode::AbsoluteX, 3, 4, true),
        0x7e => ins(0x7e, Op::Ror, AddressingMode::AbsoluteX, 3, 7, false),
        0x81 => ins(0x81, Op::Sta, AddressingMode::IndirectX, 2, 6, false),
        0x84 => ins(0x84, Op::Sty, AddressingMode::ZeroPage, 2, 3, false),
        0x85 => ins(0x85, Op::Sta, AddressingMode::ZeroPage, 2, 3, false),
        0x86 => ins(0x86, Op::Stx, AddressingMode::ZeroPage, 2, 3, false),
        0x88 => ins(0x88, Op::Dey, AddressingMode::Implied, 1, 2, false),
        0x8a => ins(0x8a, Op::Txa, AddressingMode::Implied, 1, 2, false),
        0x8c => ins(0x8c, Op::Sty, AddressingMode::Absolute, 3, 4, false),
        0x8d => ins(0x8d, Op::Sta, AddressingMode::Absolute, 3, 4, false),
        0x8e => ins(0x8e, Op::Stx, AddressingMode::Absolute, 3, 4, false),
        0x90 => ins(0x90, Op::Bcc, AddressingMode::Relative, 2, 2, true),
        0x91 => ins(0x91, Op::Sta, AddressingMode::IndirectY, 2, 6, false),
        0x94 => ins(0x94, Op::Sty, AddressingMode::ZeroPageX, 2, 4, false),
        0x95 => ins(0x95, Op::Sta, AddressingMode::ZeroPageX, 2, 4, false),
        0x96 => ins(0x96, Op::Stx, AddressingMode::ZeroPageY, 2, 4, false),
        0x98 => ins(0x98, Op::Tya, AddressingMode::Implied, 1, 2, false),
        0x99 => ins(0x99, Op::Sta, AddressingMode::AbsoluteY, 3, 5, false),
        0x9a => ins(0x9a, Op::Txs, AddressingMode::Implied, 1, 2, false),
        0x9d => ins(0x9d, Op::Sta, AddressingMode::AbsoluteX, 3, 5, false),
        0xa0 => ins(0xa0, Op::Ldy, AddressingMode::Immediate, 2, 2, false),
        0xa1 => ins(0xa1, Op::Lda, AddressingMode::IndirectX, 2, 6, false),
        0xa2 => ins(0xa2, Op::Ldx, AddressingMode::Immediate, 2, 2, false),
        0xa4 => ins(0xa4, Op::Ldy, AddressingMode::ZeroPage, 2, 3, false),
        0xa5 => ins(0xa5, Op::Lda, AddressingMode::ZeroPage, 2, 3, false),
        0xa6 => ins(0xa6, Op::Ldx, AddressingMode::ZeroPage, 2, 3, false),
        0xa8 => ins(0xa8, Op::Tay, AddressingMode::Implied, 1, 2, false),
        0xa9 => ins(0xa9, Op::Lda, AddressingMode::Immediate, 2, 2, false),
        0xaa => ins(0xaa, Op::Tax, AddressingMode::Implied, 1, 2, false),
        0xac => ins(0xac, Op::Ldy, AddressingMode::Absolute, 3, 4, false),
        0xad => ins(0xad, Op::Lda, AddressingMode::Absolute, 3, 4, false),
        0xae => ins(0xae, Op::Ldx, AddressingMode::Absolute, 3, 4, false),
        0xb0 => ins(0xb0, Op::Bcs, AddressingMode::Relative, 2, 2, true),
        0xb1 => ins(0xb1, Op::Lda, AddressingMode::IndirectY, 2, 5, true),
        0xb4 => ins(0xb4, Op::Ldy, AddressingMode::ZeroPageX, 2, 4, false),
        0xb5 => ins(0xb5, Op::Lda, AddressingMode::ZeroPageX, 2, 4, false),
        0xb6 => ins(0xb6, Op::Ldx, AddressingMode::ZeroPageY, 2, 4, false),
        0xb8 => ins(0xb8, Op::Clv, AddressingMode::Implied, 1, 2, false),
        0xb9 => ins(0xb9, Op::Lda, AddressingMode::AbsoluteY, 3, 4, true),
        0xba => ins(0xba, Op::Tsx, AddressingMode::Implied, 1, 2, false),
        0xbc => ins(0xbc, Op::Ldy, AddressingMode::AbsoluteX, 3, 4, true),
        0xbd => ins(0xbd, Op::Lda, AddressingMode::AbsoluteX, 3, 4, true),
        0xbe => ins(0xbe, Op::Ldx, AddressingMode::AbsoluteY, 3, 4, true),
        0xc0 => ins(0xc0, Op::Cpy, AddressingMode::Immediate, 2, 2, false),
        0xc1 => ins(0xc1, Op::Cmp, AddressingMode::IndirectX, 2, 6, false),
        0xc4 => ins(0xc4, Op::Cpy, AddressingMode::ZeroPage, 2, 3, false),
        0xc5 => ins(0xc5, Op::Cmp, AddressingMode::ZeroPage, 2, 3, false),
        0xc6 => ins(0xc6, Op::Dec, AddressingMode::ZeroPage, 2, 5, false),
        0xc8 => ins(0xc8, Op::Iny, AddressingMode::Implied, 1, 2, false),
        0xc9 => ins(0xc9, Op::Cmp, AddressingMode::Immediate, 2, 2, false),
        0xca => ins(0xca, Op::Dex, AddressingMode::Implied, 1, 2, false),
        0xcc => ins(0xcc, Op::Cpy, AddressingMode::Absolute, 3, 4, false),
        0xcd => ins(0xcd, Op::Cmp, AddressingMode::Absolute, 3, 4, false),
        0xce => ins(0xce, Op::Dec, AddressingMode::Absolute, 3, 6, false),
        0xd0 => ins(0xd0, Op::Bne, AddressingMode::Relative, 2, 2, true),
        0xd1 => ins(0xd1, Op::Cmp, AddressingMode::IndirectY, 2, 5, true),
        0xd5 => ins(0xd5, Op::Cmp, AddressingMode::ZeroPageX, 2, 4, false),
        0xd6 => ins(0xd6, Op::Dec, AddressingMode::ZeroPageX, 2, 6, false),
        0xd8 => ins(0xd8, Op::Cld, AddressingMode::Implied, 1, 2, false),
        0xd9 => ins(0xd9, Op::Cmp, AddressingMode::AbsoluteY, 3, 4, true),
        0xdd => ins(0xdd, Op::Cmp, AddressingMode::AbsoluteX, 3, 4, true),
        0xde => ins(0xde, Op::Dec, AddressingMode::AbsoluteX, 3, 7, false),
        0xe0 => ins(0xe0, Op::Cpx, AddressingMode::Immediate, 2, 2, false),
        0xe1 => ins(0xe1, Op::Sbc, AddressingMode::IndirectX, 2, 6, false),
        0xe4 => ins(0xe4, Op::Cpx, AddressingMode::ZeroPage, 2, 3, false),
        0xe5 => ins(0xe5, Op::Sbc, AddressingMode::ZeroPage, 2, 3, false),
        0xe6 => ins(0xe6, Op::Inc, AddressingMode::ZeroPage, 2, 5, false),
        0xe8 => ins(0xe8, Op::Inx, AddressingMode::Implied, 1, 2, false),
        0xe9 => ins(0xe9, Op::Sbc, AddressingMode::Immediate, 2, 2, false),
        0xea => ins(0xea, Op::Nop, AddressingMode::Implied, 1, 2, false),
        0xec => ins(0xec, Op::Cpx, AddressingMode::Absolute, 3, 4, false),
        0xed => ins(0xed, Op::Sbc, AddressingMode::Absolute, 3, 4, false),
        0xee => ins(0xee, Op::Inc, AddressingMode::Absolute, 3, 6, false),
        0xf0 => ins(0xf0, Op::Beq, AddressingMode::Relative, 2, 2, true),
        0xf1 => ins(0xf1, Op::Sbc, AddressingMode::IndirectY, 2, 5, true),
        0xf5 => ins(0xf5, Op::Sbc, AddressingMode::ZeroPageX, 2, 4, false),
        0xf6 => ins(0xf6, Op::Inc, AddressingMode::ZeroPageX, 2, 6, false),
        0xf8 => ins(0xf8, Op::Sed, AddressingMode::Implied, 1, 2, false),
        0xf9 => ins(0xf9, Op::Sbc, AddressingMode::AbsoluteY, 3, 4, true),
        0xfd => ins(0xfd, Op::Sbc, AddressingMode::AbsoluteX, 3, 4, true),
        0xfe => ins(0xfe, Op::Inc, AddressingMode::AbsoluteX, 3, 7, false),
        _ => spec_unknown(opcode),
    }
}

/// Look an opcode up in the instruction table.
#[verifier::rlimit(100)]
pub fn decode(opcode: u8) -> (r: Instruction)
    ensures
        r == spec_decode(opcode),
{
    match opcode {
        0x00 => Instruction::new(0x00, Op::Brk, AddressingMode::Implied, 1, 7, false),
        0x01 => Instruction::new(0x01, Op::Ora, AddressingMode::IndirectX, 2, 6, false),
        0x05 => Instruction::new(0x05, Op::Ora, AddressingMode::ZeroPage, 2, 3, false),
        0x06 => Instruction::new(0x06, Op::Asl, AddressingMode::ZeroPage, 2, 5, false),
        0x08 => Instruction::new(0x08, Op::Php, AddressingMode::Implied, 1, 3, false),
        0x09 => Instruction::new(0x09, Op::Ora, AddressingMode::Immediate, 2, 2, false),
        0x0a => Instruction::new(0x0a, Op::Asl, AddressingMode::Implied, 1, 2, false),
        0x0d => Instruction::new(0x0d, Op::Ora, AddressingMode::Absolute, 3, 4, false),
        0x0e => Instruction::new(0x0e, Op::Asl, AddressingMode::Absolute, 3, 6, false),
        0x10 => Instruction::new(0x10, Op::Bpl, AddressingMode::Relative, 2, 2, true),
        0x11 => Instruction::new(0x11, Op::Ora, AddressingMode::IndirectY, 2, 5, true),
        0x15 => Instruction::new(0x15, Op::Ora, AddressingMode::ZeroPageX, 2, 4, false),
        0x16 => Instruction::new(0x16, Op::Asl, AddressingMode::ZeroPageX, 2, 6, false),
        0x18 => Instruction::new(0x18, Op::Clc, AddressingMode::Implied, 1, 2, false),
        0x19 => Instruction::new(0x19, Op::Ora, AddressingMode::AbsoluteY, 3, 4, true),
        0x1d => Instruction::new(0x1d, Op::Ora, AddressingMode::AbsoluteX, 3, 4, true),
        0x1e => Instruction::new(0x1e, Op::Asl, AddressingMode::AbsoluteX, 3, 7, false),
        0x20 => Instruction::new(0x20, Op::Jsr, AddressingMode::Absolute, 3, 6, false),
        0x21 => Instruction::new(0x21, Op::And, AddressingMode::IndirectX, 2, 6, false),
        0x24 => Instruction::new(0x24, Op::Bit, AddressingMode::ZeroPage, 2, 3, false),
        0x25 => Instruction::new(0x25, Op::And, AddressingMode::ZeroPage, 2, 3, false),
        0x26 => Instruction::new(0x26, Op::Rol, AddressingMode::ZeroPage, 2, 5, false),
        0x28 => Instruction::new(0x28, Op::Plp, AddressingMode::Implied, 1, 4, false),
        0x29 => Instruction::new(0x29, Op::And, AddressingMode::Immediate, 2, 2, false),
        0x2a => Instruction::new(0x2a, Op::Rol, AddressingMode::Implied, 1, 2, false),
        0x2c => Instruction::new(0x2c, Op::Bit, AddressingMode::Absolute, 3, 4, false),
        0x2d => Instruction::new(0x2d, Op::And, AddressingMode::Absolute, 3, 4, false),
        0x2e => Instruction::new(0x2e, Op::Rol, AddressingMode::Absolute, 3, 6, false),
        0x30 => Instruction::new(0x30, Op::Bmi, AddressingMode::Relative, 2, 2, true),
        0x31 => Instruction::new(0x31, Op::And, AddressingMode::IndirectY, 2, 5, true),
        0x35 => Instruction::new(0x35, Op::And, AddressingMode::ZeroPageX, 2, 4, false),
        0x36 => Instruction::new(0x36, Op::Rol, AddressingMode::ZeroPageX, 2, 6, false),
        0x38 => Instruction::new(0x38, Op::Sec, AddressingMode::Implied, 1, 2, false),
        0x39 => Instruction::new(0x39, Op::And, AddressingMode::AbsoluteY, 3, 4, true),
        0x3d => Instruction::new(0x3d, Op::And, AddressingMode::AbsoluteX, 3, 4, true),
        0x3e => Instruction::new(0x3e, Op::Rol, AddressingMode::AbsoluteX, 3, 7, false),
        0x40 => Instruction::new(0x40, Op::Rti, AddressingMode::Implied, 1, 6, false),
        0x41 => Instruction::new(0x41, Op::Eor, AddressingMode::IndirectX, 2, 6, false),
        0x45 => Instruction::new(0x45, Op::Eor, AddressingMode::ZeroPage, 2, 3, false),
        0x46 => Instruction::new(0x46, Op::Lsr, AddressingMode::ZeroPage, 2, 5, false),
        0x48 => Instruction::new(0x48, Op::Pha, AddressingMode::Implied, 1, 3, false),
        0x49 => Instruction::new(0x49, Op::Eor, AddressingMode::Immediate, 2, 2, false),
        0x4a => Instruction::new(0x4a, Op::Lsr, AddressingMode::Implied, 1, 2, false),
        0x4c => Instruction::new(0x4c, Op::Jmp, AddressingMode::Absolute, 3, 3, false),
        0x4d => Instruction::new(0x4d, Op::Eor, AddressingMode::Absolute, 3, 4, false),
        0x4e => Instruction::new(0x4e, Op::Lsr, AddressingMode::Absolute, 3, 6, false),
        0x50 => Instruction::new(0x50, Op::Bvc, AddressingMode::Relative, 2, 2, true),
        0x51 => Instruction::new(0x51, Op::Eor, AddressingMode::IndirectY, 2, 5, true),
        0x55 => Instruction::new(0x55, Op::Eor, AddressingMode::ZeroPageX, 2, 4, false),
        0x56 => Instruction::new(0x56, Op::Lsr, AddressingMode::ZeroPageX, 2, 6, false),
        0x58 => Instruction::new(0x58, Op::Cli, AddressingMode::Implied, 1, 2, false),
        0x59 => Instruction::new(0x59, Op::Eor, AddressingMode::AbsoluteY, 3, 4, true),
        0x5d => Instruction::new(0x5d, Op::Eor, AddressingMode::AbsoluteX, 3, 4, true),
        0x5e => Instruction::new(0x5e, Op::Lsr, AddressingMode::AbsoluteX, 3, 7, false),
        0x60 => Instruction::new(0x60, Op::Rts, AddressingMode::Implied, 1, 6, false),
        0x61 => Instruction::new(0x61, Op::Adc, AddressingMode::IndirectX, 2, 6, false),
        0x65 => Instruction::new(0x65, Op::Adc, AddressingMode::ZeroPage, 2, 3, false),
        0x66 => Instruction::new(0x66, Op::Ror, AddressingMode::ZeroPage, 2, 5, false),
        0x68 => Instruction::new(0x68, Op::Pla, AddressingMode::Implied, 1, 4, false),
        0x69 => Instruction::new(0x69, Op::Adc, AddressingMode::Immediate, 2, 2, false),
        0x6a => Instruction::new(0x6a, Op::Ror, AddressingMode::Implied, 1, 2, false),
        0x6c => Instruction::new(0x6c, Op::Jmp, AddressingMode::Indirect, 3, 5, false),
        0x6d => Instruction::new(0x6d, Op::Adc, AddressingMode::Absolute, 3, 4, false),
        0x6e => Instruction::new(0x6e, Op::Ror, AddressingMode::Absolute, 3, 6, false),
        0x70 => Instruction::new(0x70, Op::Bvs, AddressingMode::Relative, 2, 2, true),
        0x71 => Instruction::new(0x71, Op::Adc, AddressingMode::IndirectY, 2, 5, true),
        0x75 => Instruction::new(0x75, Op::Adc, AddressingMode::ZeroPageX, 2, 4, false),
        0x76 => Instruction::new(0x76, Op::Ror, AddressingMode::ZeroPageX, 2, 6, false),
        0x78 => Instruction::new(0x78, Op::Sei, AddressingMode::Implied, 1, 2, false),
        0x79 => Instruction::new(0x79, Op::Adc, AddressingMode::AbsoluteY, 3, 4, true),
        0x7d => Instruction::new(0x7d, Op::Adc, AddressingMode::AbsoluteX, 3, 4, true),
        0x7e => Instruction::new(0x7e, Op::Ror, AddressingMode::AbsoluteX, 3, 7, false),
        0x81 => Instruction::new(0x81, Op::Sta, AddressingMode::IndirectX, 2, 6, false),
        0x84 => Instruction::new(0x84, Op::Sty, AddressingMode::ZeroPage, 2, 3, false),
        0x85 => Instruction::new(0x85, Op::Sta, AddressingMode::ZeroPage, 2, 3, false),
        0x86 => Instruction::new(0x86, Op::Stx, AddressingMode::ZeroPage, 2, 3, false),
        0x88 => Instruction::new(0x88, Op::Dey, AddressingMode::Implied, 1, 2, false),
        0x8a => Instruction::new(0x8a, Op::Txa, AddressingMode::Implied, 1, 2, false),
        0x8c => Instruction::new(0x8c, Op::Sty, AddressingMode::Absolute, 3, 4, false),
        0x8d => Instruction::new(0x8d, Op::Sta, AddressingMode::Absolute, 3, 4, false),
        0x8e => Instruction::new(0x8e, Op::Stx, AddressingMode::Absolute, 3, 4, false),
        0x90 => Instruction::new(0x90, Op::Bcc, AddressingMode::Relative, 2, 2, true),
        0x91 => Instruction::new(0x91, Op::Sta, AddressingMode::IndirectY, 2, 6, false),
        0x94 => Instruction::new(0x94, Op::Sty, AddressingMode::ZeroPageX, 2, 4, false),
        0x95 => Instruction::new(0x95, Op::Sta, AddressingMode::ZeroPageX, 2, 4, false),
        0x96 => Instruction::new(0x96, Op::Stx, AddressingMode::ZeroPageY, 2, 4, false),
        0x98 => Instruction::new(0x98, Op::Tya, AddressingMode::Implied, 1, 2, false),
        0x99 => Instruction::new(0x99, Op::Sta, AddressingMode::AbsoluteY, 3, 5, false),
        0x9a => Instruction::new(0x9a, Op::Txs, AddressingMode::Implied, 1, 2, false),
        0x9d => Instruction::new(0x9d, Op::Sta, AddressingMode::AbsoluteX, 3, 5, false),
        0xa0 => Instruction::new(0xa0, Op::Ldy, AddressingMode::Immediate, 2, 2, false),
        0xa1 => Instruction::new(0xa1, Op::Lda, AddressingMode::IndirectX, 2, 6, false),
        0xa2 => Instruction::new(0xa2, Op::Ldx, AddressingMode::Immediate, 2, 2, false),
        0xa4 => Instruction::new(0xa4, Op::Ldy, AddressingMode::ZeroPage, 2, 3, false),
        0xa5 => Instruction::new(0xa5, Op::Lda, AddressingMode::ZeroPage, 2, 3, false),
        0xa6 => Instruction::new(0xa6, Op::Ldx, AddressingMode::ZeroPage, 2, 3, false),
        0xa8 => Instruction::new(0xa8, Op::Tay, AddressingMode::Implied, 1, 2, false),
        0xa9 => Instruction::new(0xa9, Op::Lda, AddressingMode::Immediate, 2, 2, false),
        0xaa => Instruction::new(0xaa, Op::Tax, AddressingMode::Implied, 1, 2, false),
        0xac => Instruction::new(0xac, Op::Ldy, AddressingMode::Absolute, 3, 4, false),
        0xad => Instruction::new(0xad, Op::Lda, AddressingMode::Absolute, 3, 4, false),
        0xae => Instruction::new(0xae, Op::Ldx, AddressingMode::Absolute, 3, 4, false),
        0xb0 => Instruction::new(0xb0, Op::Bcs, AddressingMode::Relative, 2, 2, true),
        0xb1 => Instruction::new(0xb1, Op::Lda, AddressingMode::IndirectY, 2, 5, true),
        0xb4 => Instruction::new(0xb4, Op::Ldy, AddressingMode::ZeroPageX, 2, 4, false),
        0xb5 => Instruction::new(0xb5, Op::Lda, AddressingMode::ZeroPageX, 2, 4, false),
        0xb6 => Instruction::new(0xb6, Op::Ldx, AddressingMode::ZeroPageY, 2, 4, false),
        0xb8 => Instruction::new(0xb8, Op::Clv, AddressingMode::Implied, 1, 2, false),
        0xb9 => Instruction::new(0xb9, Op::Lda, AddressingMode::AbsoluteY, 3, 4, true),
        0xba => Instruction::new(0xba, Op::Tsx, AddressingMode::Implied, 1, 2, false),
        0xbc => Instruction::new(0xbc, Op::Ldy, AddressingMode::AbsoluteX, 3, 4, true),
        0xbd => Instruction::new(0xbd, Op::Lda, AddressingMode::AbsoluteX, 3, 4, true),
        0xbe => Instruction::new(0xbe, Op::Ldx, AddressingMode::AbsoluteY, 3, 4, true),
        0xc0 => Instruction::new(0xc0, Op::Cpy, AddressingMode::Immediate, 2, 2, false),
        0xc1 => Instruction::new(0xc1, Op::Cmp, AddressingMode::IndirectX, 2, 6, false),
        0xc4 => Instruction::new(0xc4, Op::Cpy, AddressingMode::ZeroPage, 2, 3, false),
        0xc5 => Instruction::new(0xc5, Op::Cmp, AddressingMode::ZeroPage, 2, 3, false),
        0xc6 => Instruction::new(0xc6, Op::Dec, AddressingMode::ZeroPage, 2, 5, false),
        0xc8 => Instruction::new(0xc8, Op::Iny, AddressingMode::Implied, 1, 2, false),
        0xc9 => Instruction::new(0xc9, Op::Cmp, AddressingMode::Immediate, 2, 2, false),
        0xca => Instruction::new(0xca, Op::Dex, AddressingMode::Implied, 1, 2, false),
        0xcc => Instruction::new(0xcc, Op::Cpy, AddressingMode::Absolute, 3, 4, false),
        0xcd => Instruction::new(0xcd, Op::Cmp, AddressingMode::Absolute, 3, 4, false),
        0xce => Instruction::new(0xce, Op::Dec, AddressingMode::Absolute, 3, 6, false),
        0xd0 => Instruction::new(0xd0, Op::Bne, AddressingMode::Relative, 2, 2, true),
        0xd1 => Instruction::new(0xd1, Op::Cmp, AddressingMode::IndirectY, 2, 5, true),
        0xd5 => Instruction::new(0xd5, Op::Cmp, AddressingMode::ZeroPageX, 2, 4, false),
        0xd6 => Instruction::new(0xd6, Op::Dec, AddressingMode::ZeroPageX, 2, 6, false),
        0xd8 => Instruction::new(0xd8, Op::Cld, AddressingMode::Implied, 1, 2, false),
        0xd9 => Instruction::new(0xd9, Op::Cmp, AddressingMode::AbsoluteY, 3, 4, true),
        0xdd => Instruction::new(0xdd, Op::Cmp, AddressingMode::AbsoluteX, 3, 4, true),
        0xde => Instruction::new(0xde, Op::Dec, AddressingMode::AbsoluteX, 3, 7, false),
        0xe0 => Instruction::new(0xe0, Op::Cpx, AddressingMode::Immediate, 2, 2, false),
        0xe1 => Instruction::new(0xe1, Op::Sbc, AddressingMode::IndirectX, 2, 6, false),
        0xe4 => Instruction::new(0xe4, Op::Cpx, AddressingMode::ZeroPage, 2, 3, false),
        0xe5 => Instruction::new(0xe5, Op::Sbc, AddressingMode::ZeroPage, 2, 3, false),
        0xe6 => Instruction::new(0xe6, Op::Inc, AddressingMode::ZeroPage, 2, 5, false),
        0xe8 => Instruction::new(0xe8, Op::Inx, AddressingMode::Implied, 1, 2, false),
        0xe9 => Instruction::new(0xe9, Op::Sbc, AddressingMode::Immediate, 2, 2, false),
        0xea => Instruction::new(0xea, Op::Nop, AddressingMode::Implied, 1, 2, false),
        0xec => Instruction::new(0xec, Op::Cpx, AddressingMode::Absolute, 3, 4, false),
        0xed => Instruction::new(0xed, Op::Sbc, AddressingMode::Absolute, 3, 4, false),
        0xee => Instruction::new(0xee, Op::Inc, AddressingMode::Absolute, 3, 6, false),
        0xf0 => Instruction::new(0xf0, Op::Beq, AddressingMode::Relative, 2, 2, true),
        0xf1 => Instruction::new(0xf1, Op::Sbc, AddressingMode::IndirectY, 2, 5, true),
        0xf5 => Instruction::new(0xf5, Op::Sbc, AddressingMode::ZeroPageX, 2, 4, false),
        0xf6 => Instruction::new(0xf6, Op::Inc, AddressingMode::ZeroPageX, 2, 6, false),
        0xf8 => Instruction::new(0xf8, Op::Sed, AddressingMode::Implied, 1, 2, false),
        0xf9 => Instruction::new(0xf9, Op::Sbc, AddressingMode::AbsoluteY, 3, 4, true),
        0xfd => Instruction::new(0xfd, Op::Sbc, AddressingMode::AbsoluteX, 3, 4, true),
        0xfe => Instruction::new(0xfe, Op::Inc, AddressingMode::AbsoluteX, 3, 7, false),
        _ => Instruction::unknown(opcode),
    }
}

/// The mnemonic text of an operation, three characters, `???` for the
/// sentinel.
pub open spec fn spec_mnemonic(name: Op) -> Seq<char> {
    match name {
        Op::Adc => "ADC"@,
        Op::And => "AND"@,
        Op::Asl => "ASL"@,
        Op::Bcc => "BCC"@,
        Op::Bcs => "BCS"@,
        Op::Beq => "BEQ"@,
        Op::Bit => "BIT"@,
        Op::Bmi => "BMI"@,
        Op::Bne => "BNE"@,
        Op::Bpl => "BPL"@,
        Op::Brk => "BRK"@,
        Op::Bvc => "BVC"@,
        Op::Bvs => "BVS"@,
        Op::Clc => "CLC"@,
        Op::Cld => "CLD"@,
        Op::Cli => "CLI"@,
        Op::Clv => "CLV"@,
        Op::Cmp => "CMP"@,
        Op::Cpx => "CPX"@,
        Op::Cpy => "CPY"@,
        Op::Dec => "DEC"@,
        Op::Dex => "DEX"@,
        Op::Dey => "DEY"@,
        Op::Eor => "EOR"@,
        Op::Inc => "INC"@,
        Op::Inx => "INX"@,
        Op::Iny => "INY"@,
        Op::Jmp => "JMP"@,
        Op::Jsr => "JSR"@,
        Op::Lda => "LDA"@,
        Op::Ldx => "LDX"@,
        Op::Ldy => "LDY"@,
        Op::Lsr => "LSR"@,
        Op::Nop => "NOP"@,
        Op::Ora => "ORA"@,
        Op::Pha => "PHA"@,
        Op::Php => "PHP"@,
        Op::Pla => "PLA"@,
        Op::Plp => "PLP"@,
        Op::Rol => "ROL"@,
        Op::Ror => "ROR"@,
        Op::Rti => "RTI"@,
        Op::Rts => "RTS"@,
        Op::Sbc => "SBC"@,
        Op::Sec => "SEC"@,
        Op::Sed => "SED"@,
        Op::Sei => "SEI"@,
        Op::Sta => "STA"@,
        Op::Stx => "STX"@,
        Op::Sty => "STY"@,
        Op::Tax => "TAX"@,
        Op::Tay => "TAY"@,
        Op::Tsx => "TSX"@,
        Op::Txa => "TXA"@,
        Op::Txs => "TXS"@,
        Op::Tya => "TYA"@,
        Op::Unknown => "???"@,
    }
}

/// The mnemonic text of an operation.
pub fn mnemonic(name: Op) -> (r: &'static str)
    ensures
        r@ == spec_mnemonic(name),
{
    match name {
        Op::Adc => "ADC",
        Op::And => "AND",
        Op::Asl => "ASL",
        Op::Bcc => "BCC",
        Op::Bcs => "BCS",
        Op::Beq => "BEQ",
        Op::Bit => "BIT",
        Op::Bmi => "BMI",
        Op::Bne => "BNE",
        Op::Bpl => "BPL",
        Op::Brk => "BRK",
        Op::Bvc => "BVC",
        Op::Bvs => "BVS",
        Op::Clc => "CLC",
        Op::Cld => "CLD",
        Op::Cli => "CLI",
        Op::Clv => "CLV",
        Op::Cmp => "CMP",
        Op::Cpx => "CPX",
        Op::Cpy => "CPY",
        Op::Dec => "DEC",
        Op::Dex => "DEX",
        Op::Dey => "DEY",
        Op::Eor => "EOR",
        Op::Inc => "INC",
        Op::Inx => "INX",
        Op::Iny => "INY",
        Op::Jmp => "JMP",
        Op::Jsr => "JSR",
        Op::Lda => "LDA",
        Op::Ldx => "LDX",
        Op::Ldy => "LDY",
        Op::Lsr => "LSR",
        Op::Nop => "NOP",
        Op::Ora => "ORA",
        Op::Pha => "PHA",
        Op::Php => "PHP",
        Op::Pla => "PLA",
        Op::Plp => "PLP",
        Op::Rol => "ROL",
        Op::Ror => "ROR",
        Op::Rti => "RTI",
        Op::Rts => "RTS",
        Op::Sbc => "SBC",
        Op::Sec => "SEC",
        Op::Sed => "SED",
        Op::Sei => "SEI",
        Op::Sta => "STA",
        Op::Stx => "STX",
        Op::Sty => "STY",
        Op::Tax => "TAX",
        Op::Tay => "TAY",
        Op::Tsx => "TSX",
        Op::Txa => "TXA",
        Op::Txs => "TXS",
        Op::Tya => "TYA",
        Op::Unknown => "???",
    }
}

/// Every descriptor in the table is 1 to 3 bytes long, and a documented
/// opcode costs at least 2 cycles.
pub proof fn lemma_decode_shape(opcode: u8)
    ensures
        1 <= spec_decode(opcode).length <= 3,
        spec_decode(opcode).name != Op::Unknown ==> 2 <= spec_decode(opcode).cycles <= 7,
        spec_decode(opcode).name == Op::Unknown ==> spec_decode(opcode).length == 1
            && spec_decode(opcode).cycles == 0,
{
}

} // verus!
