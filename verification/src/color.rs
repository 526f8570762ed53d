//! An RGB colour value, built from a 24-bit packed integer or parsed from
//! hex text of the form `#rrggbb` or `0xrrggbb`. The palette work that
//! consumes these values belongs to the video chip, outside this core.

use vstd::prelude::*;

use crate::assembler::{hex_val, is_hex_char, spec_hex_val};
use crate::string_util::{skip_char, skip_pair, StrCursor};

verus! {

/// An RGB colour.
#[derive(Clone, Copy, Debug, PartialEq, Eq, Structural)]
pub struct Color {
    pub r: u8,
    pub g: u8,
    pub b: u8,
}

/// The colour packed in the low 24 bits of a word: red, green, blue from
/// high byte to low.
pub open spec fn spec_color_of(v: u32) -> Color {
    Color {
        r: ((v / 0x10000) % 0x100) as u8,
        g: ((v / 0x100) % 0x100) as u8,
        b: (v % 0x100) as u8,
    }
}

/// Hex digits folded into a 32-bit value from position `i` on, starting
/// from `acc`; nothing if a character is no hex digit or the value outgrows
/// 32 bits.
pub open spec fn spec_hex_u32(d: Seq<char>, i: nat, acc: u32) -> Option<u32>
    decreases d.len() - i,
{
    if i >= d.len() {
        Some(acc)
    } else if !is_hex_char(d[i as int]) {
        None
    } else if 16 * acc + spec_hex_val(d[i as int]) > 0xFFFFFFFF {
        None
    } else {
        spec_hex_u32(d, (i + 1) as nat, (16 * acc + spec_hex_val(d[i as int])) as u32)
    }
}

/// What parsing colour text yields: the text must open with `#` or `0x`;
/// every leading `#`, then every leading `0x`, is stripped; what remains
/// must be one to eight-digit-worth of hex (any value that fits 32 bits).
pub open spec fn spec_parse_color(s: Seq<char>) -> Option<Color> {
    if !(s.len() >= 1 && s[0] == '#' || s.len() >= 2 && s[0] == '0' && s[1] == 'x') {
        None
    } else {
        let i = skip_pair(s, skip_char(s, 0, '#'), '0', 'x');
        let d = s.subrange(i as int, s.len() as int);
        if d.len() == 0 {
            None
        } else {
            match spec_hex_u32(d, 0, 0) {
                Option::Some(v) => Option::Some(spec_color_of(v)),
                Option::None => Option::None,
            }
        }
    }
}

impl Color {
    /// A colour from its 24-bit packed form.
    pub fn hex(value: u32) -> (c: Color)
        ensures
            c == spec_color_of(value),
    {
        let r = ((value / 0x10000) % 0x100) as u8;
        let g = ((value / 0x100) % 0x100) as u8;
        let b = (value % 0x100) as u8;
        Color { r, g, b }
    }

    /// Parse colour text such as `#345678` or `0x345678`.
    pub fn from_str(s: &str) -> (r: Result<Color, ()>)
        ensures
            spec_parse_color(s@) is Some ==> r == Result::<Color, ()>::Ok(
                spec_parse_color(s@).unwrap(),
            ),
            spec_parse_color(s@) is None ==> r == Result::<Color, ()>::Err(()),
    {
        let ghost sv = s@;
        let n = s.unicode_len();
        let starts_hash = n >= 1 && s.get_char(0) == '#';
        let starts_0x = n >= 2 && s.get_char(0) == '0' && s.get_char(1) == 'x';
        if !(starts_hash || starts_0x) {
            return Err(());
        }
        let mut cur = StrCursor::new(s);
        cur.skip_leading('#');
        cur.skip_leading_pair('0', 'x');
        let len = cur.len();
        if len == 0 {
            return Err(());
        }
        let ghost d = cur@;
        proof {
            assert(spec_parse_color(sv) == (match spec_hex_u32(d, 0, 0) {
                Option::Some(v) => Option::Some(spec_color_of(v)),
                Option::None => Option::<Color>::None,
            }));
        }
        let mut acc: u32 = 0;
        let mut k: usize = 0;
        while k < len
            invariant
                k <= len,
                len == cur@.len(),
                cur.wf(),
                cur@ == d,
                spec_hex_u32(d, 0, 0) == spec_hex_u32(d, k as nat, acc),
                spec_parse_color(sv) == (match spec_hex_u32(d, 0, 0) {
                    Option::Some(v) => Option::Some(spec_color_of(v)),
                    Option::None => Option::<Color>::None,
                }),
                sv == s@,
            decreases len - k,
        {
            let c = cur.char_at(k);
            if !is_hex(c) {
                return Err(());
            }
            let wide: u64 = 16 * (acc as u64) + hex_val(c) as u64;
            if wide > 0xFFFFFFFF {
                return Err(());
            }
            acc = wide as u32;
            k = k + 1;
        }
        Ok(Color::hex(acc))
    }
}

/// Whether a character is a hex digit (either case).
fn is_hex(c: char) -> (r: bool)
    ensures
        r == is_hex_char(c),
{
    match c {
        '0' | '1' | '2' | '3' | '4' | '5' | '6' | '7' | '8' | '9' => true,
        'a' | 'b' | 'c' | 'd' | 'e' | 'f' => true,
        'A' | 'B' | 'C' | 'D' | 'E' | 'F' => true,
        _ => false,
    }
}

} // verus!
