//! The disassembler and the hex dump: peripheral renderers over a block of
//! bytes, reusing the instruction table. Each disassembled line is
//! `<4-hex-digit address>   <raw hex bytes, column-padded>   <mnemonic>
//! <operand>`; a relative-mode operand renders as the resolved absolute
//! target address, not the raw offset.

use vstd::prelude::*;

use crate::ops::{decode, mnemonic, spec_decode, spec_mnemonic, AddressingMode, Instruction};
use crate::word::{hi_byte, lo_byte, w16};
use crate::word::{high, low, wrap16, wrap16_64};

verus! {

/// A block of bytes placed at a start address.
#[derive(Debug, PartialEq, Eq)]
pub struct Block {
    pub start: u16,
    pub instructions: Vec<u8>,
}

/// One upper-case hex digit.
pub open spec fn spec_hex_digit(n: u8) -> Seq<char> {
    if n == 0 {
        "0"@
    } else if n == 1 {
        "1"@
    } else if n == 2 {
        "2"@
    } else if n == 3 {
        "3"@
    } else if n == 4 {
        "4"@
    } else if n == 5 {
        "5"@
    } else if n == 6 {
        "6"@
    } else if n == 7 {
        "7"@
    } else if n == 8 {
        "8"@
    } else if n == 9 {
        "9"@
    } else if n == 10 {
        "A"@
    } else if n == 11 {
        "B"@
    } else if n == 12 {
        "C"@
    } else if n == 13 {
        "D"@
    } else if n == 14 {
        "E"@
    } else {
        "F"@
    }
}

/// A byte as two upper-case hex digits.
pub open spec fn spec_hex2(b: u8) -> Seq<char> {
    spec_hex_digit(b / 16) + spec_hex_digit(b % 16)
}

/// A word as four upper-case hex digits.
pub open spec fn spec_hex4(w: u16) -> Seq<char> {
    spec_hex2(hi_byte(w)) + spec_hex2(lo_byte(w))
}

/// One disassembled line for the instruction whose opcode sits at `addr`;
/// `b1` and `b2` are its operand bytes (ignored beyond the instruction's
/// length).
pub open spec fn spec_disasm_line(addr: u16, d: Instruction, b0: u8, b1: u8, b2: u8) -> Seq<
    char,
> {
    let head = spec_hex4(addr) + "   "@;
    if d.length == 1 {
        head + spec_hex2(b0) + "      "@ + "   "@ + spec_mnemonic(d.name)
    } else if d.length == 2 {
        let bytes_col = spec_hex2(b0) + " "@ + spec_hex2(b1) + "   "@;
        let operand = if d.mode == AddressingMode::Relative {
            let target = w16(addr + 2 + b1 - (if b1 >= 0x80 {
                256int
            } else {
                0int
            }));
            " $"@ + spec_hex4(target)
        } else {
            " #$"@ + spec_hex2(b1)
        };
        head + bytes_col + "   "@ + spec_mnemonic(d.name) + operand
    } else {
        let bytes_col = spec_hex2(b0) + " "@ + spec_hex2(b1) + " "@ + spec_hex2(b2);
        let operand = if d.mode == AddressingMode::Indirect {
            " ($"@ + spec_hex2(b2) + spec_hex2(b1) + ")"@
        } else {
            " $"@ + spec_hex2(b2) + spec_hex2(b1)
        };
        head + bytes_col + "   "@ + spec_mnemonic(d.name) + operand
    }
}

/// How far one instruction advances through the byte stream (the sentinel
/// descriptor advances one byte).
pub open spec fn spec_advance(d: Instruction) -> nat {
    if d.length == 0 {
        1nat
    } else {
        d.length as nat
    }
}

/// Every instruction boundary from `pos` on lies fully within the block:
/// no instruction's operand bytes are cut off at the end.
pub open spec fn complete_from(bytes: Seq<u8>, pos: nat) -> bool
    decreases bytes.len() - pos,
{
    if pos >= bytes.len() {
        true
    } else {
        let d = spec_decode(bytes[pos as int]);
        pos + spec_advance(d) <= bytes.len() && complete_from(bytes, pos + spec_advance(d))
    }
}

/// The disassembly of the block from byte offset `pos` on: one line per
/// instruction, in address order.
pub open spec fn spec_disasm(start: u16, bytes: Seq<u8>, pos: nat) -> Seq<Seq<char>>
    decreases bytes.len() - pos,
{
    if pos >= bytes.len() {
        Seq::empty()
    } else {
        let d = spec_decode(bytes[pos as int]);
        let addr = w16(start + pos);
        let b1 = if pos + 1 < bytes.len() {
            bytes[pos as int + 1]
        } else {
            0u8
        };
        let b2 = if pos + 2 < bytes.len() {
            bytes[pos as int + 2]
        } else {
            0u8
        };
        let line = spec_disasm_line(addr, d, bytes[pos as int], b1, b2);
        let pos2 = if pos + spec_advance(d) > bytes.len() {
            bytes.len()
        } else {
            pos + spec_advance(d)
        };
        seq![line] + spec_disasm(start, bytes, pos2)
    }
}

/// One upper-case hex digit.
pub fn hex_digit_str(n: u8) -> (r: &'static str)
    requires
        n < 16,
    ensures
        r@ == spec_hex_digit(n),
{
    if n == 0 {
        "0"
    } else if n == 1 {
        "1"
    } else if n == 2 {
        "2"
    } else if n == 3 {
        "3"
    } else if n == 4 {
        "4"
    } else if n == 5 {
        "5"
    } else if n == 6 {
        "6"
    } else if n == 7 {
        "7"
    } else if n == 8 {
        "8"
    } else if n == 9 {
        "9"
    } else if n == 10 {
        "A"
    } else if n == 11 {
        "B"
    } else if n == 12 {
        "C"
    } else if n == 13 {
        "D"
    } else if n == 14 {
        "E"
    } else {
        "F"
    }
}

/// Append a byte as two hex digits.
pub fn push_hex2(s: &mut String, b: u8)
    ensures
        final(s)@ == old(s)@ + spec_hex2(b),
{
    s.append(hex_digit_str(b / 16));
    s.append(hex_digit_str(b % 16));
    assert(s@ =~= old(s)@ + spec_hex2(b));
}

/// Append a word as four hex digits.
pub fn push_hex4(s: &mut String, w: u16)
    ensures
        final(s)@ == old(s)@ + spec_hex4(w),
{
    push_hex2(s, high(w));
    push_hex2(s, low(w));
    assert(s@ =~= old(s)@ + spec_hex4(w));
}

/// A run of spaces.
pub open spec fn spec_spaces(n: int) -> Seq<char> {
    Seq::new(
        if n < 0 {
            0nat
        } else {
            n as nat
        },
        |i: int| ' ',
    )
}

/// The hex column's piece for one byte: two digits, a space, and two more
/// spaces after every fourth byte.
pub open spec fn spec_dump_piece(bytes: Seq<u8>, j: nat) -> Seq<char> {
    spec_hex2(bytes[j as int]) + " "@ + (if j % 4 == 3 {
        "  "@
    } else {
        Seq::<char>::empty()
    })
}

/// The hex column for bytes `i` (inclusive) to `end` (exclusive).
pub open spec fn spec_dump_bytes(bytes: Seq<u8>, i: nat, end: nat) -> Seq<char>
    decreases end - i,
{
    if i >= end {
        Seq::empty()
    } else {
        spec_dump_piece(bytes, i) + spec_dump_bytes(bytes, (i + 1) as nat, end)
    }
}

/// The character column: each byte shown as the character it encodes.
pub open spec fn spec_dump_chars(bytes: Seq<u8>, i: nat, end: nat) -> Seq<char>
    decreases end - i,
{
    if i >= end {
        Seq::empty()
    } else {
        seq![bytes[i as int] as char] + spec_dump_chars(bytes, (i + 1) as nat, end)
    }
}

/// One hex-dump line: the address, the hex column padded to 28 characters,
/// and the character column, covering up to eight bytes from `pos`.
pub open spec fn spec_mem_line(start: u16, bytes: Seq<u8>, pos: nat) -> Seq<char> {
    let end = if pos + 8 > bytes.len() {
        bytes.len()
    } else {
        pos + 8
    };
    let col = spec_dump_bytes(bytes, pos, end);
    spec_hex4(w16(start + pos)) + "   "@ + col + spec_spaces(28 - col.len()) + spec_dump_chars(
        bytes,
        pos,
        end,
    )
}

/// The whole hex dump: one line per eight bytes.
pub open spec fn spec_mem_dump(start: u16, bytes: Seq<u8>, pos: nat) -> Seq<Seq<char>>
    decreases bytes.len() - pos,
{
    if pos >= bytes.len() {
        Seq::empty()
    } else {
        let pos2 = if pos + 8 > bytes.len() {
            bytes.len()
        } else {
            pos + 8
        };
        seq![spec_mem_line(start, bytes, pos)] + spec_mem_dump(start, bytes, pos2)
    }
}

/// Relies on String::push: appends exactly one character.
#[verifier::external_body]
fn push_char(s: &mut String, c: char)
    ensures
        final(s)@ == old(s)@.push(c),
{
    s.push(c);
}

/// Append a run of spaces.
fn push_spaces(s: &mut String, n: usize)
    ensures
        final(s)@ == old(s)@ + spec_spaces(n as int),
{
    let ghost base = s@;
    let mut i: usize = 0;
    while i < n
        invariant
            i <= n,
            s@ == base + spec_spaces(i as int),
        decreases n - i,
    {
        s.append(" ");
        i = i + 1;
        proof {
            reveal_strlit(" ");
            assert(s@ =~= base + spec_spaces(i as int));
        }
    }
}

/// Appending one more byte extends the hex column on the right.
proof fn lemma_dump_bytes_snoc(bytes: Seq<u8>, i: nat, j: nat)
    requires
        i <= j < bytes.len(),
    ensures
        spec_dump_bytes(bytes, i, j + 1) == spec_dump_bytes(bytes, i, j) + spec_dump_piece(
            bytes,
            j,
        ),
    decreases j - i,
{
    if i < j {
        lemma_dump_bytes_snoc(bytes, (i + 1) as nat, j);
        assert(spec_dump_bytes(bytes, i, j + 1) =~= spec_dump_bytes(bytes, i, j)
            + spec_dump_piece(bytes, j));
    } else {
        reveal_with_fuel(spec_dump_bytes, 2);
        assert(spec_dump_bytes(bytes, i, j + 1) =~= spec_dump_bytes(bytes, i, j)
            + spec_dump_piece(bytes, j));
    }
}

/// One hex digit is one character.
proof fn lemma_hex_digit_len(n: u8)
    ensures
        spec_hex_digit(n).len() == 1,
{
    reveal_strlit("0");
    reveal_strlit("1");
    reveal_strlit("2");
    reveal_strlit("3");
    reveal_strlit("4");
    reveal_strlit("5");
    reveal_strlit("6");
    reveal_strlit("7");
    reveal_strlit("8");
    reveal_strlit("9");
    reveal_strlit("A");
    reveal_strlit("B");
    reveal_strlit("C");
    reveal_strlit("D");
    reveal_strlit("E");
    reveal_strlit("F");
}

/// A byte renders as two hex characters.
proof fn lemma_hex2_len(b: u8)
    ensures
        spec_hex2(b).len() == 2,
{
    lemma_hex_digit_len(b / 16);
    lemma_hex_digit_len(b % 16);
}

/// Appending one more byte extends the character column on the right.
proof fn lemma_dump_chars_snoc(bytes: Seq<u8>, i: nat, j: nat)
    requires
        i <= j < bytes.len(),
    ensures
        spec_dump_chars(bytes, i, j + 1) == spec_dump_chars(bytes, i, j) + seq![
            bytes[j as int] as char,
        ],
    decreases j - i,
{
    if i < j {
        lemma_dump_chars_snoc(bytes, (i + 1) as nat, j);
        assert(spec_dump_chars(bytes, i, j + 1) =~= spec_dump_chars(bytes, i, j) + seq![
            bytes[j as int] as char,
        ]);
    } else {
        reveal_with_fuel(spec_dump_chars, 2);
        assert(spec_dump_chars(bytes, i, j + 1) =~= spec_dump_chars(bytes, i, j) + seq![
            bytes[j as int] as char,
        ]);
    }
}

/// Render a one-byte instruction's line.
#[verifier::rlimit(100)]
#[verifier::spinoff_prover]
fn render_line1(addr: u16, d: Instruction, b0: u8) -> (line: String)
    ensures
        line@ == spec_hex4(addr) + "   "@ + spec_hex2(b0) + "      "@ + "   "@ + spec_mnemonic(
            d.name,
        ),
{
    let mut line = String::new();
    push_hex4(&mut line, addr);
    line.append("   ");
    push_hex2(&mut line, b0);
    line.append("      ");
    line.append("   ");
    line.append(mnemonic(d.name));
    assert(line@ =~= spec_hex4(addr) + "   "@ + spec_hex2(b0) + "      "@ + "   "@
        + spec_mnemonic(d.name));
    line
}

/// Render a two-byte instruction's line.
#[verifier::rlimit(100)]
#[verifier::spinoff_prover]
fn render_line2(addr: u16, d: Instruction, b0: u8, b1: u8) -> (line: String)
    requires
        d.length == 2,
    ensures
        line@ == spec_disasm_line(addr, d, b0, b1, 0),
{
    let mut line = String::new();
    push_hex4(&mut line, addr);
    line.append("   ");
    push_hex2(&mut line, b0);
    line.append(" ");
    push_hex2(&mut line, b1);
    line.append("   ");
    line.append("   ");
    line.append(mnemonic(d.name));
    if d.mode == AddressingMode::Relative {
        let raw: u32 = addr as u32 + 2 + b1 as u32 + (if b1 >= 0x80 {
            0x10000 - 256
        } else {
            0
        });
        let target = wrap16(raw);
        proof {
            if b1 >= 0x80 {
                vstd::arithmetic::div_mod::lemma_mod_add_multiples_vanish(
                    addr + 2 + b1 - 256,
                    0x10000,
                );
            }
        }
        line.append(" $");
        push_hex4(&mut line, target);
        assert(line@ =~= spec_disasm_line(addr, d, b0, b1, 0));
    } else {
        line.append(" #$");
        push_hex2(&mut line, b1);
        assert(line@ =~= spec_disasm_line(addr, d, b0, b1, 0));
    }
    line
}

/// Render a three-byte instruction's line.
#[verifier::rlimit(100)]
#[verifier::spinoff_prover]
fn render_line3(addr: u16, d: Instruction, b0: u8, b1: u8, b2: u8) -> (line: String)
    requires
        d.length == 3,
    ensures
        line@ == spec_disasm_line(addr, d, b0, b1, b2),
{
    let mut line = String::new();
    push_hex4(&mut line, addr);
    line.append("   ");
    push_hex2(&mut line, b0);
    line.append(" ");
    push_hex2(&mut line, b1);
    line.append(" ");
    push_hex2(&mut line, b2);
    line.append("   ");
    line.append(mnemonic(d.name));
    if d.mode == AddressingMode::Indirect {
        line.append(" ($");
        push_hex2(&mut line, b2);
        push_hex2(&mut line, b1);
        line.append(")");
        assert(line@ =~= spec_disasm_line(addr, d, b0, b1, b2));
    } else {
        line.append(" $");
        push_hex2(&mut line, b2);
        push_hex2(&mut line, b1);
        assert(line@ =~= spec_disasm_line(addr, d, b0, b1, b2));
    }
    line
}

/// Render one disassembled line.
#[verifier::rlimit(100)]
#[verifier::spinoff_prover]
fn render_line(addr: u16, d: Instruction, b0: u8, b1: u8, b2: u8) -> (line: String)
    requires
        1 <= d.length <= 3,
    ensures
        line@ == spec_disasm_line(addr, d, b0, b1, b2),
{
    if d.length == 1 {
        render_line1(addr, d, b0)
    } else if d.length == 2 {
        let line = render_line2(addr, d, b0, b1);
        assert(spec_disasm_line(addr, d, b0, b1, 0) == spec_disasm_line(addr, d, b0, b1, b2));
        line
    } else {
        render_line3(addr, d, b0, b1, b2)
    }
}

/// Render one hex-dump line covering up to eight bytes from `pos`.
#[verifier::rlimit(100)]
fn render_mem_line(bytes: &Vec<u8>, start: u16, pos: usize) -> (line: String)
    requires
        pos < bytes@.len(),
    ensures
        line@ == spec_mem_line(start, bytes@, pos as nat),
{
    let n = bytes.len();
    let end = if n - pos > 8 {
        pos + 8
    } else {
        n
    };
    let addr = wrap16_64(start as u64 + (pos % 0x10000) as u64);
    proof {
        vstd::arithmetic::div_mod::lemma_add_mod_noop(start as int, pos as int, 0x10000);
        vstd::arithmetic::div_mod::lemma_add_mod_noop(
            start as int,
            (pos % 0x10000) as int,
            0x10000,
        );
        assert(addr == w16(start + pos));
    }
    let mut line = String::new();
    push_hex4(&mut line, addr);
    line.append("   ");
    let ghost base = line@;
    let mut len_c: usize = 0;
    let mut j = pos;
    while j < end
        invariant
            pos <= j <= end,
            end <= n,
            n == bytes@.len(),
            end - pos <= 8,
            len_c <= 5 * (j - pos),
            len_c == spec_dump_bytes(bytes@, pos as nat, j as nat).len(),
            line@ == base + spec_dump_bytes(bytes@, pos as nat, j as nat),
        decreases end - j,
    {
        push_hex2(&mut line, bytes[j]);
        line.append(" ");
        if j % 4 == 3 {
            line.append("  ");
            len_c = len_c + 5;
        } else {
            len_c = len_c + 3;
        }
        proof {
            lemma_dump_bytes_snoc(bytes@, pos as nat, j as nat);
            lemma_hex2_len(bytes@[j as int]);
            reveal_strlit(" ");
            reveal_strlit("  ");
            assert(line@ =~= base + spec_dump_bytes(bytes@, pos as nat, (j + 1) as nat));
        }
        j = j + 1;
    }
    let pad = if len_c > 28 {
        0
    } else {
        28 - len_c
    };
    push_spaces(&mut line, pad);
    proof {
        let col = spec_dump_bytes(bytes@, pos as nat, end as nat);
        assert(spec_spaces(pad as int) =~= spec_spaces(28 - col.len()));
    }
    let mut j2 = pos;
    let ghost base2 = line@;
    while j2 < end
        invariant
            pos <= j2 <= end,
            end <= n,
            n == bytes@.len(),
            line@ == base2 + spec_dump_chars(bytes@, pos as nat, j2 as nat),
        decreases end - j2,
    {
        push_char(&mut line, bytes[j2] as char);
        proof {
            lemma_dump_chars_snoc(bytes@, pos as nat, j2 as nat);
            assert(line@ =~= base2 + spec_dump_chars(bytes@, pos as nat, (j2 + 1) as nat));
        }
        j2 = j2 + 1;
    }
    proof {
        assert(line@ =~= spec_mem_line(start, bytes@, pos as nat));
    }
    line
}

impl Block {
    /// The block as a hex dump: eight bytes per line, each line showing the
    /// address, the bytes in hex and the characters they encode.
    pub fn memory(&self) -> (r: Vec<String>)
        ensures
            r@.map_values(|s: String| s@) == spec_mem_dump(self.start, self.instructions@, 0),
    {
        let mut result: Vec<String> = Vec::new();
        let mut pos: usize = 0;
        let n = self.instructions.len();
        while pos < n
            invariant
                pos <= n,
                n == self.instructions@.len(),
                spec_mem_dump(self.start, self.instructions@, 0) == result@.map_values(
                    |s: String| s@,
                ) + spec_mem_dump(self.start, self.instructions@, pos as nat),
            decreases n - pos,
        {
            let line = render_mem_line(&self.instructions, self.start, pos);
            let ghost pre = result@;
            result.push(line);
            let ghost old_pos = pos as nat;
            pos = if n - pos > 8 {
                pos + 8
            } else {
                n
            };
            proof {
                let f = |s: String| s@;
                let tail = spec_mem_dump(self.start, self.instructions@, pos as nat);
                assert(result@.map_values(f) =~= pre.map_values(f).push(result@.last()@));
                assert(pre.map_values(f).push(result@.last()@) + tail =~= pre.map_values(f) + (
                seq![result@.last()@] + tail));
            }
        }
        proof {
            assert(result@.map_values(|s: String| s@) =~= result@.map_values(|s: String| s@)
                + spec_mem_dump(self.start, self.instructions@, pos as nat));
        }
        result
    }

    /// Disassemble the block into lines, one per instruction.
    #[verifier::rlimit(100)]
    pub fn disassemble(&self) -> (r: Vec<String>)
        requires
            complete_from(self.instructions@, 0),
        ensures
            r@.map_values(|s: String| s@) == spec_disasm(self.start, self.instructions@, 0),
    {
        let ghost bytes = self.instructions@;
        let mut result: Vec<String> = Vec::new();
        let mut pos: usize = 0;
        let n = self.instructions.len();
        while pos < n
            invariant
                pos <= n,
                n == self.instructions@.len(),
                complete_from(self.instructions@, pos as nat),
                spec_disasm(self.start, self.instructions@, 0) == result@.map_values(
                    |s: String| s@,
                ) + spec_disasm(self.start, self.instructions@, pos as nat),
            decreases n - pos,
        {
            let b0 = self.instructions[pos];
            let d = decode(b0);
            proof {
                crate::ops::lemma_decode_shape(b0);
            }
            let addr = wrap16_64(self.start as u64 + (pos % 0x10000) as u64);
            proof {
                vstd::arithmetic::div_mod::lemma_add_mod_noop(
                    self.start as int,
                    pos as int,
                    0x10000,
                );
                vstd::arithmetic::div_mod::lemma_add_mod_noop(
                    self.start as int,
                    (pos % 0x10000) as int,
                    0x10000,
                );
                vstd::arithmetic::div_mod::lemma_mod_mod(pos as int, 0x10000, 1);
                assert(pos as int % 0x10000 % 0x10000 == pos as int % 0x10000);
                assert(addr == w16(self.start + pos));
            }
            let b1 = if n - pos > 1 {
                self.instructions[pos + 1]
            } else {
                0u8
            };
            let b2 = if n - pos > 2 {
                self.instructions[pos + 2]
            } else {
                0u8
            };
            let line = render_line(addr, d, b0, b1, b2);
            let ghost pre = result@;
            result.push(line);
            pos = pos + d.length as usize;
            proof {
                let f = |s: String| s@;
                let tail = spec_disasm(self.start, self.instructions@, pos as nat);
                assert(result@.map_values(f) =~= pre.map_values(f).push(line@));
                assert(pre.map_values(f).push(line@) + tail =~= pre.map_values(f) + (seq![line@]
                    + tail));
            }
        }
        proof {
            assert(result@.map_values(|s: String| s@) =~= result@.map_values(|s: String| s@)
                + spec_disasm(self.start, self.instructions@, pos as nat));
        }
        result
    }
}

} // verus!
