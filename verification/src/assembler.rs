//! Operand-text parsing for the toy assembler that builds test fixtures:
//! an operand such as `#$FF`, `$D016` or `($a000)` is stripped of its
//! decoration and its hex digits become the instruction's trailing bytes,
//! little-endian.

use vstd::prelude::*;

use crate::string_util::{skip_char, strip_back, StrCursor};

verus! {

/// Whether a character is a hex digit (either case).
pub open spec fn is_hex_char(c: char) -> bool {
    c == '0' || c == '1' || c == '2' || c == '3' || c == '4' || c == '5' || c == '6' || c == '7'
        || c == '8' || c == '9' || c == 'a' || c == 'b' || c == 'c' || c == 'd' || c == 'e' || c
        == 'f' || c == 'A' || c == 'B' || c == 'C' || c == 'D' || c == 'E' || c == 'F'
}

/// The value of a hex digit.
pub open spec fn spec_hex_val(c: char) -> u8 {
    match c {
        '0' => 0u8,
        '1' => 1u8,
        '2' => 2u8,
        '3' => 3u8,
        '4' => 4u8,
        '5' => 5u8,
        '6' => 6u8,
        '7' => 7u8,
        '8' => 8u8,
        '9' => 9u8,
        'a' => 10u8,
        'A' => 10u8,
        'b' => 11u8,
        'B' => 11u8,
        'c' => 12u8,
        'C' => 12u8,
        'd' => 13u8,
        'D' => 13u8,
        'e' => 14u8,
        'E' => 14u8,
        'f' => 15u8,
        'F' => 15u8,
        _ => 0u8,
    }
}

/// The value of a hex digit.
pub fn hex_val(c: char) -> (r: u8)
    ensures
        r == spec_hex_val(c),
{
    match c {
        '0' => 0u8,
        '1' => 1u8,
        '2' => 2u8,
        '3' => 3u8,
        '4' => 4u8,
        '5' => 5u8,
        '6' => 6u8,
        '7' => 7u8,
        '8' => 8u8,
        '9' => 9u8,
        'a' => 10u8,
        'A' => 10u8,
        'b' => 11u8,
        'B' => 11u8,
        'c' => 12u8,
        'C' => 12u8,
        'd' => 13u8,
        'D' => 13u8,
        'e' => 14u8,
        'E' => 14u8,
        'f' => 15u8,
        'F' => 15u8,
        _ => 0u8,
    }
}

/// The digit span of an operand text: every leading `(`, `#` and `$` (in
/// that order) stripped, then every trailing `)`.
pub open spec fn spec_digit_span(s: Seq<char>) -> (nat, nat) {
    let i1 = skip_char(s, 0, '(');
    let i2 = skip_char(s, i1, '#');
    let i3 = skip_char(s, i2, '$');
    let j = strip_back(s, s.len(), i3, ')');
    (i3, j)
}

/// The digits of an operand text.
pub open spec fn spec_digits(s: Seq<char>) -> Seq<char> {
    let (i, j) = spec_digit_span(s);
    s.subrange(i as int, j as int)
}

/// An operand text is parseable when at most four hex digits remain after
/// stripping; on anything else the assembler gives up.
pub open spec fn params_ok(s: Seq<char>) -> bool {
    let d = spec_digits(s);
    d.len() <= 4 && (forall|k: int| 0 <= k < d.len() ==> is_hex_char(#[trigger] d[k]))
}

/// What `parse_params` returns: no digits give no bytes; one or two digits
/// one byte; three digits a one-digit high byte after a two-digit low byte;
/// four digits a two-digit high byte after a two-digit low byte. The bytes
/// come out little-endian, ready to follow an opcode.
pub open spec fn spec_parse_params(s: Seq<char>) -> Seq<u8> {
    let d = spec_digits(s);
    if d.len() == 0 {
        Seq::empty()
    } else if d.len() == 1 {
        seq![spec_hex_val(d[0])]
    } else if d.len() == 2 {
        seq![(16 * spec_hex_val(d[0]) + spec_hex_val(d[1])) as u8]
    } else if d.len() == 3 {
        seq![(16 * spec_hex_val(d[1]) + spec_hex_val(d[2])) as u8, spec_hex_val(d[0])]
    } else {
        seq![
            (16 * spec_hex_val(d[2]) + spec_hex_val(d[3])) as u8,
            (16 * spec_hex_val(d[0]) + spec_hex_val(d[1])) as u8,
        ]
    }
}

/// Parse an operand text into its instruction bytes.
pub fn parse_params(params: &str) -> (r: Vec<u8>)
    requires
        params_ok(params@),
    ensures
        r@ == spec_parse_params(params@),
{
    let ghost s = params@;
    let mut cur = StrCursor::new(params);
    cur.skip_leading('(');
    cur.skip_leading('#');
    cur.skip_leading('$');
    cur.strip_trailing(')');
    let ghost (gi, gj) = spec_digit_span(s);
    let len = cur.len();
    let mut out: Vec<u8> = Vec::new();
    if len == 0 {
    } else if len == 1 {
        out.push(hex_val(cur.char_at(0)));
    } else if len == 2 {
        out.push(16 * hex_val(cur.char_at(0)) + hex_val(cur.char_at(1)));
    } else if len == 3 {
        out.push(16 * hex_val(cur.char_at(1)) + hex_val(cur.char_at(2)));
        out.push(hex_val(cur.char_at(0)));
    } else {
        out.push(16 * hex_val(cur.char_at(2)) + hex_val(cur.char_at(3)));
        out.push(16 * hex_val(cur.char_at(0)) + hex_val(cur.char_at(1)));
    }
    proof {
        assert(out@ =~= spec_parse_params(s));
    }
    out
}

} // verus!
