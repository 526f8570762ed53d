//! The CPU core's state: registers, status flags, the hardware stack in
//! page 1, the interrupt latches and the reset sequence. The core never
//! owns the bus: every call that touches memory borrows it from the
//! enclosing machine.

use vstd::prelude::*;

use crate::bus::Bus;
use crate::status::{spec_clear, spec_get, spec_set, StatusFlags, StatusRegisters};
use crate::word::{mrd, mwr, r16, w8, word_from};
use crate::word::{make_word, wrap8};

verus! {

/// Low byte of the NMI vector.
pub const NMI_VECTOR: u16 = 0xfffa;

/// Low byte of the reset vector.
pub const RESET_VECTOR: u16 = 0xfffc;

/// Low byte of the IRQ/BRK vector.
pub const IRQ_VECTOR: u16 = 0xfffe;

/// The processor state: registers, flags, the cycles still owed by the
/// instruction in flight, the pending-interrupt latches and the halted flag.
#[derive(Clone, Copy, Debug, PartialEq, Eq, Structural)]
pub struct Cpu {
    /// Program counter: address of the next opcode byte.
    pub pc: u16,
    /// Stack pointer: an 8-bit offset into page 1 ($0100-$01FF).
    pub sp: u8,
    /// Accumulator.
    pub a: u8,
    /// Index register X.
    pub x: u8,
    /// Index register Y.
    pub y: u8,
    /// Status flags.
    pub sr: StatusRegisters,
    /// Cycles the in-flight instruction still occupies the engine for.
    pub cycles: u8,
    /// Level of the maskable-interrupt request line.
    pub irq_line: bool,
    /// Latched non-maskable-interrupt edge.
    pub nmi_pending: bool,
    /// Terminal state; only a reset resumes execution.
    pub halted: bool,
}

/// The address within the stack page that a stack-pointer offset names.
pub open spec fn stack_addr(sp: u8) -> u16 {
    word_from(sp, 1)
}

/// What a push does: store at $0100 + SP, then decrement SP, wrapping
/// within the page.
pub open spec fn spec_push(c: Cpu, m: Seq<u8>, v: u8) -> (Cpu, Seq<u8>) {
    (Cpu { sp: w8(c.sp - 1), ..c }, mwr(m, stack_addr(c.sp), v))
}

/// What a pop does: increment SP, wrapping within the page, then load from
/// $0100 + SP.
pub open spec fn spec_pop(c: Cpu, m: Seq<u8>) -> (Cpu, u8) {
    let sp2 = w8(c.sp + 1);
    (Cpu { sp: sp2, ..c }, mrd(m, stack_addr(sp2)))
}

/// What reset does: load PC from the reset vector, SP to $FD, set
/// Interrupt-Disable, clear Decimal, the documented startup values in
/// A/X/Y, both interrupt latches released, and 7 cycles of reset latency
/// before the first fetch.
pub open spec fn spec_reset(c: Cpu, m: Seq<u8>) -> Cpu {
    Cpu {
        pc: r16(m, RESET_VECTOR),
        sp: 0xfd,
        a: 0xaa,
        x: 0,
        y: 0,
        sr: StatusRegisters(spec_clear(spec_set(c.sr.0, StatusFlags::I), StatusFlags::D)),
        cycles: 7,
        irq_line: false,
        nmi_pending: false,
        halted: false,
    }
}

impl Cpu {
    /// The engine never owes more cycles than the longest sequence (an
    /// interrupt entry or a page-crossed branch) costs.
    pub open spec fn inv(&self) -> bool {
        self.cycles <= 7
    }

    /// A powered-on but not yet reset processor: everything zero.
    pub fn new() -> (r: Cpu)
        ensures
            r == (Cpu {
                pc: 0u16,
                sp: 0u8,
                a: 0u8,
                x: 0u8,
                y: 0u8,
                sr: StatusRegisters(0u8),
                cycles: 0u8,
                irq_line: false,
                nmi_pending: false,
                halted: false,
            }),
            r.inv(),
    {
        Cpu {
            pc: 0,
            sp: 0,
            a: 0,
            x: 0,
            y: 0,
            sr: StatusRegisters::new(0),
            cycles: 0,
            irq_line: false,
            nmi_pending: false,
            halted: false,
        }
    }

    /// Reset the processor: PC from $FFFC/$FFFD, SP = $FD,
    /// Interrupt-Disable set, Decimal clear, 7 cycles of latency.
    pub fn reset(&mut self, bus: &Bus)
        requires
            bus.inv(),
        ensures
            *final(self) == spec_reset(*old(self), bus@),
            final(self).inv(),
    {
        self.pc = crate::resolve::read16(bus, RESET_VECTOR);
        self.sp = 0xfd;
        self.a = 0xaa;
        self.x = 0;
        self.y = 0;
        self.sr.set(StatusFlags::I);
        self.sr.clear(StatusFlags::D);
        self.cycles = 7;
        self.irq_line = false;
        self.nmi_pending = false;
        self.halted = false;
    }

    /// Whether a flag reads as set.
    pub fn get_flag(&self, flag: StatusFlags) -> (r: bool)
        ensures
            r == spec_get(self.sr.0, flag),
    {
        self.sr.get(flag)
    }

    /// Set one status flag; nothing else changes.
    pub fn set_flag(&mut self, flag: StatusFlags)
        ensures
            *final(self) == (Cpu {
                sr: StatusRegisters(spec_set(old(self).sr.0, flag)),
                ..*old(self)
            }),
    {
        self.sr.set(flag);
    }

    /// Clear one status flag; nothing else changes.
    pub fn clear_flag(&mut self, flag: StatusFlags)
        ensures
            *final(self) == (Cpu {
                sr: StatusRegisters(spec_clear(old(self).sr.0, flag)),
                ..*old(self)
            }),
    {
        self.sr.clear(flag);
    }

    /// The SEI operation: set Interrupt-Disable.
    pub fn op_sei(&mut self)
        ensures
            *final(self) == (Cpu {
                sr: StatusRegisters(spec_set(old(self).sr.0, StatusFlags::I)),
                ..*old(self)
            }),
    {
        self.sr.set(StatusFlags::I);
    }

    /// Raise or release the maskable-interrupt request line.
    pub fn set_irq(&mut self, level: bool)
        ensures
            *final(self) == (Cpu { irq_line: level, ..*old(self) }),
    {
        self.irq_line = level;
    }

    /// Latch a non-maskable-interrupt edge.
    pub fn nmi(&mut self)
        ensures
            *final(self) == (Cpu { nmi_pending: true, ..*old(self) }),
    {
        self.nmi_pending = true;
    }

    /// Push a byte onto the hardware stack.
    pub fn push(&mut self, bus: &mut Bus, v: u8)
        requires
            old(bus).inv(),
        ensures
            final(bus).inv(),
            (*final(self), final(bus)@) == spec_push(*old(self), old(bus)@, v),
    {
        bus.write(make_word(self.sp, 1), v);
        self.sp = wrap8(self.sp as u32 + 0x100 - 1);
        proof {
            assert(old(self).sp as int + 0x100 - 1 == old(self).sp - 1 + 0x100);
            vstd::arithmetic::div_mod::lemma_mod_add_multiples_vanish(
                old(self).sp - 1,
                0x100,
            );
        }
    }

    /// Pop a byte off the hardware stack.
    pub fn pop(&mut self, bus: &Bus) -> (r: u8)
        requires
            bus.inv(),
        ensures
            (*final(self), r) == spec_pop(*old(self), bus@),
    {
        self.sp = wrap8(self.sp as u32 + 1);
        bus.read(make_word(self.sp, 1))
    }
}

/// Pushing a byte and popping it back returns the byte and restores the
/// processor exactly (in particular the stack pointer), from every starting
/// state, including wraparound at the page boundary.
pub proof fn lemma_push_pop_inverse(c: Cpu, m: Seq<u8>, v: u8)
    requires
        m.len() == 0x10000,
    ensures
        ({
            let (c1, m1) = spec_push(c, m, v);
            let (c2, r) = spec_pop(c1, m1);
            r == v && c2 == c
        }),
{
    let (c1, m1) = spec_push(c, m, v);
    let (c2, r) = spec_pop(c1, m1);
    assert(w8(w8(c.sp - 1) + 1) == c.sp) by {
        vstd::arithmetic::div_mod::lemma_mod_add_multiples_vanish(c.sp - 1, 0x100);
    };
    assert(stack_addr(c.sp) < 0x10000);
    assert(r == v);
}

} // verus!
