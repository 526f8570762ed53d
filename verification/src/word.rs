//! 8- and 16-bit modular arithmetic and little-endian memory access, shared
//! by the resolver, the execution engine and their specifications. All
//! address arithmetic wraps modulo 65536; stack-pointer and zero-page
//! arithmetic wraps modulo 256.

use vstd::prelude::*;

verus! {

/// A 16-bit value from an integer, wrapping modulo 65536.
pub open spec fn w16(n: int) -> u16 {
    (n % 0x10000) as u16
}

/// An 8-bit value from an integer, wrapping modulo 256.
pub open spec fn w8(n: int) -> u8 {
    (n % 0x100) as u8
}

/// The low byte of a 16-bit word.
pub open spec fn lo_byte(w: u16) -> u8 {
    (w % 0x100) as u8
}

/// The high byte of a 16-bit word.
pub open spec fn hi_byte(w: u16) -> u8 {
    (w / 0x100) as u8
}

/// A 16-bit word from its low and high bytes.
pub open spec fn word_from(lo: u8, hi: u8) -> u16 {
    (lo + 256 * hi) as u16
}

/// The byte of memory at a 16-bit address.
pub open spec fn mrd(m: Seq<u8>, a: u16) -> u8 {
    m[a as int]
}

/// Memory with one byte replaced.
pub open spec fn mwr(m: Seq<u8>, a: u16, v: u8) -> Seq<u8> {
    m.update(a as int, v)
}

/// A little-endian 16-bit word read at `a`, its high byte at `a + 1`
/// (wrapping at the end of the address space).
pub open spec fn r16(m: Seq<u8>, a: u16) -> u16 {
    word_from(mrd(m, a), mrd(m, w16(a + 1)))
}

/// Wrap a 32-bit intermediate down to 16 bits.
pub fn wrap16(n: u32) -> (r: u16)
    ensures
        r == w16(n as int),
{
    (n % 0x10000) as u16
}

/// Wrap a 64-bit intermediate down to 16 bits.
pub fn wrap16_64(n: u64) -> (r: u16)
    ensures
        r == w16(n as int),
{
    (n % 0x10000) as u16
}

/// Wrap a 32-bit intermediate down to 8 bits.
pub fn wrap8(n: u32) -> (r: u8)
    ensures
        r == w8(n as int),
{
    (n % 0x100) as u8
}

/// Join two bytes little-endian.
pub fn make_word(lo: u8, hi: u8) -> (r: u16)
    ensures
        r == word_from(lo, hi),
{
    lo as u16 + 256 * (hi as u16)
}

/// Split a word into its low byte.
pub fn low(w: u16) -> (r: u8)
    ensures
        r == lo_byte(w),
{
    (w % 0x100) as u8
}

/// Split a word into its high byte.
pub fn high(w: u16) -> (r: u8)
    ensures
        r == hi_byte(w),
{
    (w / 0x100) as u8
}

} // verus!
