//! The addressing-mode resolver: from a mode and the byte stream at the
//! program counter, compute the effective address (or, for Immediate, the
//! operand byte itself) and report whether a page-boundary crossing makes
//! the instruction cost one extra cycle.
//!
//! Indirect mode replicates the original hardware page-wrap bug: when the
//! pointer's low byte is $FF, the pointer's high byte is fetched from the
//! start of the same page, not from the next page.

use vstd::prelude::*;

use crate::bus::Bus;
use crate::ops::AddressingMode;
use crate::word::{hi_byte, make_word, mrd, r16, w16, w8, word_from, wrap16, wrap8};
use crate::word::high;

verus! {

/// What `resolve` returns: the effective address (or immediate operand) and
/// whether a page was crossed. For Relative mode the flag reports whether
/// the branch target lies on a different page from the instruction's
/// successor; the penalty applies only when the branch is taken.
pub open spec fn spec_resolve(mode: AddressingMode, pc: u16, x: u8, y: u8, m: Seq<u8>) -> (u16,
    bool) {
    match mode {
        AddressingMode::Implied => (0u16, false),
        AddressingMode::Immediate => (mrd(m, w16(pc + 1)) as u16, false),
        AddressingMode::ZeroPage => (mrd(m, w16(pc + 1)) as u16, false),
        AddressingMode::ZeroPageX => (w8(mrd(m, w16(pc + 1)) + x) as u16, false),
        AddressingMode::ZeroPageY => (w8(mrd(m, w16(pc + 1)) + y) as u16, false),
        AddressingMode::Absolute => (r16(m, w16(pc + 1)), false),
        AddressingMode::AbsoluteX => {
            let base = r16(m, w16(pc + 1));
            let ea = w16(base + x);
            (ea, hi_byte(ea) != hi_byte(base))
        },
        AddressingMode::AbsoluteY => {
            let base = r16(m, w16(pc + 1));
            let ea = w16(base + y);
            (ea, hi_byte(ea) != hi_byte(base))
        },
        AddressingMode::Indirect => {
            let ptr = r16(m, w16(pc + 1));
            let lo = mrd(m, ptr);
            // Hardware bug: the high byte comes from the same page as `ptr`.
            let hi = mrd(m, word_from(w8(ptr + 1), hi_byte(ptr)));
            (word_from(lo, hi), false)
        },
        AddressingMode::IndirectX => {
            let zp = w8(mrd(m, w16(pc + 1)) + x);
            let ea = word_from(mrd(m, zp as u16), mrd(m, w8(zp + 1) as u16));
            (ea, false)
        },
        AddressingMode::IndirectY => {
            let zp = mrd(m, w16(pc + 1));
            let base = word_from(mrd(m, zp as u16), mrd(m, w8(zp + 1) as u16));
            let ea = w16(base + y);
            (ea, hi_byte(ea) != hi_byte(base))
        },
        AddressingMode::Relative => {
            let off = mrd(m, w16(pc + 1));
            let target = w16(pc + 2 + off - (if off >= 0x80 {
                256int
            } else {
                0int
            }));
            (target, hi_byte(target) != hi_byte(w16(pc + 2)))
        },
    }
}

/// Resolve an addressing mode against the byte stream: `pc` is the address
/// of the opcode byte, operand bytes follow it.
pub fn resolve(mode: AddressingMode, pc: u16, x: u8, y: u8, bus: &Bus) -> (r: (u16, bool))
    requires
        bus.inv(),
    ensures
        r == spec_resolve(mode, pc, x, y, bus@),
{
    match mode {
        AddressingMode::Implied => (0u16, false),
        AddressingMode::Immediate => (bus.read(wrap16(pc as u32 + 1)) as u16, false),
        AddressingMode::ZeroPage => (bus.read(wrap16(pc as u32 + 1)) as u16, false),
        AddressingMode::ZeroPageX => {
            let operand = bus.read(wrap16(pc as u32 + 1));
            (wrap8(operand as u32 + x as u32) as u16, false)
        },
        AddressingMode::ZeroPageY => {
            let operand = bus.read(wrap16(pc as u32 + 1));
            (wrap8(operand as u32 + y as u32) as u16, false)
        },
        AddressingMode::Absolute => (read16(bus, wrap16(pc as u32 + 1)), false),
        AddressingMode::AbsoluteX => {
            let base = read16(bus, wrap16(pc as u32 + 1));
            let ea = wrap16(base as u32 + x as u32);
            (ea, high(ea) != high(base))
        },
        AddressingMode::AbsoluteY => {
            let base = read16(bus, wrap16(pc as u32 + 1));
            let ea = wrap16(base as u32 + y as u32);
            (ea, high(ea) != high(base))
        },
        AddressingMode::Indirect => {
            let ptr = read16(bus, wrap16(pc as u32 + 1));
            let lo = bus.read(ptr);
            let hi = bus.read(make_word(wrap8(ptr as u32 + 1), high(ptr)));
            (make_word(lo, hi), false)
        },
        AddressingMode::IndirectX => {
            let operand = bus.read(wrap16(pc as u32 + 1));
            let zp = wrap8(operand as u32 + x as u32);
            let lo = bus.read(zp as u16);
            let hi = bus.read(wrap8(zp as u32 + 1) as u16);
            (make_word(lo, hi), false)
        },
        AddressingMode::IndirectY => {
            let zp = bus.read(wrap16(pc as u32 + 1));
            let lo = bus.read(zp as u16);
            let hi = bus.read(wrap8(zp as u32 + 1) as u16);
            let base = make_word(lo, hi);
            let ea = wrap16(base as u32 + y as u32);
            (ea, high(ea) != high(base))
        },
        AddressingMode::Relative => {
            let off = bus.read(wrap16(pc as u32 + 1));
            let raw: u32 = pc as u32 + 2 + off as u32 + (if off >= 0x80 {
                0x10000 - 256
            } else {
                0
            });
            let target = wrap16(raw);
            proof {
                let signed = pc + 2 + off - (if off >= 0x80 {
                    256int
                } else {
                    0int
                });
                assert(raw as int % 0x10000 == signed % 0x10000) by {
                    if off >= 0x80 {
                        assert(raw == signed + 0x10000);
                        vstd::arithmetic::div_mod::lemma_mod_add_multiples_vanish(
                            signed,
                            0x10000,
                        );
                    }
                };
            }
            (target, high(target) != high(wrap16(pc as u32 + 2)))
        },
    }
}

/// Read a little-endian word through the bus.
pub fn read16(bus: &Bus, a: u16) -> (r: u16)
    requires
        bus.inv(),
    ensures
        r == r16(bus@, a),
{
    let lo = bus.read(a);
    let hi = bus.read(wrap16(a as u32 + 1));
    make_word(lo, hi)
}

} // verus!
