//! The fetch/decode/execute engine. `spec_step` is the mathematical
//! semantics of one instruction boundary - interrupt poll included - and
//! the two execution modes are proved against it: `Cpu::step` runs a whole
//! instruction atomically and reports its cycle cost, `Cpu::clock` advances
//! by exactly one clock cycle, occupying the engine for an instruction's
//! full cost through the cycles-remaining counter. Both modes agree on
//! total cycle counts (`lemma_clock_step_agree`).

use vstd::prelude::*;

use crate::bus::Bus;
use crate::cpu::{spec_pop, spec_push, Cpu, IRQ_VECTOR, NMI_VECTOR};
use crate::ops::{decode, spec_decode, AddressingMode, Instruction, Op};
use crate::resolve::{read16, resolve, spec_resolve};
use crate::status::{
    spec_assign, spec_clear, spec_get, spec_reported, spec_set, StatusFlags, StatusRegisters,
};
use crate::word::{hi_byte, lo_byte, mrd, mwr, r16, w16, w8, word_from};
use crate::word::{high, low, make_word, wrap16, wrap8};

verus! {

/// What one call of `step` reports: the clock cycles the instruction (plus
/// any cycle debt still owed, e.g. reset latency) consumed, and the
/// diagnostic mark for an undocumented opcode executed as a no-op.
#[derive(Clone, Copy, Debug, PartialEq, Eq, Structural)]
pub struct StepInfo {
    pub cycles: u8,
    pub unknown: bool,
}

/// Zero and Negative set from a value, as every load, transfer and ALU
/// write-back does.
pub open spec fn zn(sr: StatusRegisters, v: u8) -> StatusRegisters {
    StatusRegisters(
        spec_assign(spec_assign(sr.0, StatusFlags::Z, v == 0), StatusFlags::N, v >= 0x80),
    )
}

/// The operand value an instruction works on: the immediate byte itself, or
/// the byte at the effective address.
pub open spec fn spec_operand(d: Instruction, ea: u16, m: Seq<u8>) -> u8 {
    if d.mode == AddressingMode::Immediate {
        w8(ea as int)
    } else {
        mrd(m, ea)
    }
}

/// A byte reinterpreted as a signed two's-complement value.
pub open spec fn signed8(b: u8) -> int {
    if b < 0x80 {
        b as int
    } else {
        b - 256
    }
}

/// Add with carry: result byte, carry out (unsigned overflow) and overflow
/// (signed overflow). When `dec` is set the documented BCD adjustment pass
/// applies: each nibble over 9 is pushed up by 6 and carries into the next;
/// the overflow flag still follows the binary signed rule.
pub open spec fn spec_adc_val(a: u8, v: u8, cin: bool, dec: bool) -> (u8, bool, bool) {
    let ci: int = if cin {
        1
    } else {
        0
    };
    let ovf = !(-128 <= signed8(a) + signed8(v) + ci <= 127);
    if !dec {
        let sum = a + v + ci;
        (w8(sum), sum > 255, ovf)
    } else {
        let lo = (a % 16) + (v % 16) + ci;
        let lo2 = if lo > 9 {
            lo + 6
        } else {
            lo
        };
        let hi = (a / 16) + (v / 16) + (if lo2 > 15 {
            1int
        } else {
            0int
        });
        let carry = hi > 9;
        let hi2 = if hi > 9 {
            hi + 6
        } else {
            hi
        };
        (w8((hi2 % 16) * 16 + (lo2 % 16)), carry, ovf)
    }
}

/// Subtract with borrow (`cin` is the carry flag, so the borrow is its
/// complement): result byte, carry out (set when no borrow was needed) and
/// signed overflow. When `dec` is set the documented BCD adjustment pass
/// applies: each nibble that borrowed is pulled back by 10.
pub open spec fn spec_sbc_val(a: u8, v: u8, cin: bool, dec: bool) -> (u8, bool, bool) {
    let bi: int = if cin {
        0
    } else {
        1
    };
    let diff = a - v - bi;
    let carry = diff >= 0;
    let ovf = !(-128 <= signed8(a) - signed8(v) - bi <= 127);
    if !dec {
        (w8(diff), carry, ovf)
    } else {
        let lo = (a % 16) - (v % 16) - bi;
        let lo2 = if lo < 0 {
            lo + 10
        } else {
            lo
        };
        let hi = (a / 16) - (v / 16) - (if lo < 0 {
            1int
        } else {
            0int
        });
        let hi2 = if hi < 0 {
            hi + 10
        } else {
            hi
        };
        (w8((hi2 % 16) * 16 + (lo2 % 16)), carry, ovf)
    }
}

/// Flags after ADC/SBC: Carry, Zero, Overflow, Negative.
pub open spec fn arith_sr(sr: StatusRegisters, r: u8, carry: bool, ovf: bool) -> StatusRegisters {
    StatusRegisters(
        spec_assign(
            spec_assign(
                spec_assign(spec_assign(sr.0, StatusFlags::C, carry), StatusFlags::Z, r == 0),
                StatusFlags::V,
                ovf,
            ),
            StatusFlags::N,
            r >= 0x80,
        ),
    )
}

/// Flags after a compare: subtract without storing, Carry when no borrow,
/// Zero on equality, Negative from bit 7 of the difference.
pub open spec fn cmp_sr(sr: StatusRegisters, reg: u8, v: u8) -> StatusRegisters {
    StatusRegisters(
        spec_assign(
            spec_assign(spec_assign(sr.0, StatusFlags::C, reg >= v), StatusFlags::Z, reg == v),
            StatusFlags::N,
            w8(reg - v) >= 0x80,
        ),
    )
}

/// Flags after BIT: Zero from the masked accumulator, Overflow and Negative
/// copied from bits 6 and 7 of the operand.
pub open spec fn bit_sr(sr: StatusRegisters, a: u8, v: u8) -> StatusRegisters {
    StatusRegisters(
        spec_assign(
            spec_assign(
                spec_assign(sr.0, StatusFlags::Z, (a & v) == 0),
                StatusFlags::V,
                (v / 0x40) % 2 == 1,
            ),
            StatusFlags::N,
            v >= 0x80,
        ),
    )
}

/// Where a shift or rotate writes its result: the accumulator for the
/// one-byte form, memory otherwise. Zero/Negative from the result, Carry
/// from the bit shifted out.
pub open spec fn shift_out(
    c: Cpu,
    m: Seq<u8>,
    implied: bool,
    ea: u16,
    pc2: u16,
    cyc: u8,
    r: u8,
    carry: bool,
) -> (Cpu, Seq<u8>, u8, bool) {
    let sr2 = StatusRegisters(spec_assign(zn(c.sr, r).0, StatusFlags::C, carry));
    if implied {
        (Cpu { pc: pc2, a: r, sr: sr2, ..c }, m, cyc, false)
    } else {
        (Cpu { pc: pc2, sr: sr2, ..c }, mwr(m, ea, r), cyc, false)
    }
}

/// A conditional branch: when taken, the target becomes the program counter
/// and the branch costs 3 cycles, one more if the target is on a different
/// page from the instruction's successor; when not taken, 2 cycles.
pub open spec fn spec_branch(c: Cpu, ea: u16, crossed: bool, pc2: u16, taken: bool) -> (Cpu, u8) {
    if taken {
        (Cpu { pc: ea, ..c }, (3 + (if crossed {
            1int
        } else {
            0int
        })) as u8)
    } else {
        (Cpu { pc: pc2, ..c }, 2u8)
    }
}

/// Interrupt entry, common to NMI, IRQ and BRK's tail: push PC high then
/// low, push the status byte (Break clear, Unused reading 1), set
/// Interrupt-Disable, load PC from the vector.
pub open spec fn spec_interrupt(c: Cpu, m: Seq<u8>, vector: u16) -> (Cpu, Seq<u8>) {
    let (c1, m1) = spec_push(c, m, hi_byte(c.pc));
    let (c2, m2) = spec_push(c1, m1, lo_byte(c.pc));
    let (c3, m3) = spec_push(c2, m2, spec_reported(c.sr.0) & !0x10);
    (Cpu { pc: r16(m3, vector), sr: StatusRegisters(spec_set(c3.sr.0, StatusFlags::I)), ..c3 }, m3)
}

/// The semantics of executing the instruction at the program counter:
/// the machine state afterwards, the cycles consumed, and whether the
/// opcode was undocumented (executed as a one-byte, one-cycle no-op,
/// flagged for diagnostics).
pub open spec fn spec_exec(c: Cpu, m: Seq<u8>) -> (Cpu, Seq<u8>, u8, bool) {
    let op = mrd(m, c.pc);
    let d = spec_decode(op);
    let (ea, crossed) = spec_resolve(d.mode, c.pc, c.x, c.y, m);
    let v = spec_operand(d, ea, m);
    let pc2 = w16(c.pc + d.length);
    let cyc = (d.cycles + (if d.penalty && crossed {
        1int
    } else {
        0int
    })) as u8;
    match d.name {
        Op::Lda => (Cpu { pc: pc2, a: v, sr: zn(c.sr, v), ..c }, m, cyc, false),
        Op::Ldx => (Cpu { pc: pc2, x: v, sr: zn(c.sr, v), ..c }, m, cyc, false),
        Op::Ldy => (Cpu { pc: pc2, y: v, sr: zn(c.sr, v), ..c }, m, cyc, false),
        Op::Sta => (Cpu { pc: pc2, ..c }, mwr(m, ea, c.a), cyc, false),
        Op::Stx => (Cpu { pc: pc2, ..c }, mwr(m, ea, c.x), cyc, false),
        Op::Sty => (Cpu { pc: pc2, ..c }, mwr(m, ea, c.y), cyc, false),
        Op::Tax => (Cpu { pc: pc2, x: c.a, sr: zn(c.sr, c.a), ..c }, m, cyc, false),
        Op::Tay => (Cpu { pc: pc2, y: c.a, sr: zn(c.sr, c.a), ..c }, m, cyc, false),
        Op::Txa => (Cpu { pc: pc2, a: c.x, sr: zn(c.sr, c.x), ..c }, m, cyc, false),
        Op::Tya => (Cpu { pc: pc2, a: c.y, sr: zn(c.sr, c.y), ..c }, m, cyc, false),
        Op::Tsx => (Cpu { pc: pc2, x: c.sp, sr: zn(c.sr, c.sp), ..c }, m, cyc, false),
        Op::Txs => (Cpu { pc: pc2, sp: c.x, ..c }, m, cyc, false),
        Op::Inx => {
            let r = w8(c.x + 1);
            (Cpu { pc: pc2, x: r, sr: zn(c.sr, r), ..c }, m, cyc, false)
        },
        Op::Iny => {
            let r = w8(c.y + 1);
            (Cpu { pc: pc2, y: r, sr: zn(c.sr, r), ..c }, m, cyc, false)
        },
        Op::Dex => {
            let r = w8(c.x - 1);
            (Cpu { pc: pc2, x: r, sr: zn(c.sr, r), ..c }, m, cyc, false)
        },
        Op::Dey => {
            let r = w8(c.y - 1);
            (Cpu { pc: pc2, y: r, sr: zn(c.sr, r), ..c }, m, cyc, false)
        },
        Op::Inc => {
            let r = w8(v + 1);
            (Cpu { pc: pc2, sr: zn(c.sr, r), ..c }, mwr(m, ea, r), cyc, false)
        },
        Op::Dec => {
            let r = w8(v - 1);
            (Cpu { pc: pc2, sr: zn(c.sr, r), ..c }, mwr(m, ea, r), cyc, false)
        },
        Op::And => {
            let r = c.a & v;
            (Cpu { pc: pc2, a: r, sr: zn(c.sr, r), ..c }, m, cyc, false)
        },
        Op::Ora => {
            let r = c.a | v;
            (Cpu { pc: pc2, a: r, sr: zn(c.sr, r), ..c }, m, cyc, false)
        },
        Op::Eor => {
            let r = c.a ^ v;
            (Cpu { pc: pc2, a: r, sr: zn(c.sr, r), ..c }, m, cyc, false)
        },
        Op::Bit => (Cpu { pc: pc2, sr: bit_sr(c.sr, c.a, v), ..c }, m, cyc, false),
        Op::Adc => {
            let (r, carry, ovf) = spec_adc_val(
                c.a,
                v,
                spec_get(c.sr.0, StatusFlags::C),
                spec_get(c.sr.0, StatusFlags::D),
            );
            (Cpu { pc: pc2, a: r, sr: arith_sr(c.sr, r, carry, ovf), ..c }, m, cyc, false)
        },
        Op::Sbc => {
            let (r, carry, ovf) = spec_sbc_val(
                c.a,
                v,
                spec_get(c.sr.0, StatusFlags::C),
                spec_get(c.sr.0, StatusFlags::D),
            );
            (Cpu { pc: pc2, a: r, sr: arith_sr(c.sr, r, carry, ovf), ..c }, m, cyc, false)
        },
        Op::Cmp => (Cpu { pc: pc2, sr: cmp_sr(c.sr, c.a, v), ..c }, m, cyc, false),
        Op::Cpx => (Cpu { pc: pc2, sr: cmp_sr(c.sr, c.x, v), ..c }, m, cyc, false),
        Op::Cpy => (Cpu { pc: pc2, sr: cmp_sr(c.sr, c.y, v), ..c }, m, cyc, false),
        Op::Asl => {
            let implied = d.mode == AddressingMode::Implied;
            let src = if implied {
                c.a
            } else {
                v
            };
            shift_out(c, m, implied, ea, pc2, cyc, w8(src * 2), src >= 0x80)
        },
        Op::Lsr => {
            let implied = d.mode == AddressingMode::Implied;
            let src = if implied {
                c.a
            } else {
                v
            };
            shift_out(c, m, implied, ea, pc2, cyc, src / 2, src % 2 == 1)
        },
        Op::Rol => {
            let implied = d.mode == AddressingMode::Implied;
            let src = if implied {
                c.a
            } else {
                v
            };
            let ci: int = if spec_get(c.sr.0, StatusFlags::C) {
                1
            } else {
                0
            };
            shift_out(c, m, implied, ea, pc2, cyc, w8(src * 2 + ci), src >= 0x80)
        },
        Op::Ror => {
            let implied = d.mode == AddressingMode::Implied;
            let src = if implied {
                c.a
            } else {
                v
            };
            let hi_in: u8 = if spec_get(c.sr.0, StatusFlags::C) {
                0x80
            } else {
                0
            };
            shift_out(c, m, implied, ea, pc2, cyc, (src / 2 + hi_in) as u8, src % 2 == 1)
        },
        Op::Bpl => {
            let (c2, cy) = spec_branch(c, ea, crossed, pc2, !spec_get(c.sr.0, StatusFlags::N));
            (c2, m, cy, false)
        },
        Op::Bmi => {
            let (c2, cy) = spec_branch(c, ea, crossed, pc2, spec_get(c.sr.0, StatusFlags::N));
            (c2, m, cy, false)
        },
        Op::Bvc => {
            let (c2, cy) = spec_branch(c, ea, crossed, pc2, !spec_get(c.sr.0, StatusFlags::V));
            (c2, m, cy, false)
        },
        Op::Bvs => {
            let (c2, cy) = spec_branch(c, ea, crossed, pc2, spec_get(c.sr.0, StatusFlags::V));
            (c2, m, cy, false)
        },
        Op::Bcc => {
            let (c2, cy) = spec_branch(c, ea, crossed, pc2, !spec_get(c.sr.0, StatusFlags::C));
            (c2, m, cy, false)
        },
        Op::Bcs => {
            let (c2, cy) = spec_branch(c, ea, crossed, pc2, spec_get(c.sr.0, StatusFlags::C));
            (c2, m, cy, false)
        },
        Op::Bne => {
            let (c2, cy) = spec_branch(c, ea, crossed, pc2, !spec_get(c.sr.0, StatusFlags::Z));
            (c2, m, cy, false)
        },
        Op::Beq => {
            let (c2, cy) = spec_branch(c, ea, crossed, pc2, spec_get(c.sr.0, StatusFlags::Z));
            (c2, m, cy, false)
        },
        Op::Jmp => (Cpu { pc: ea, ..c }, m, cyc, false),
        Op::Jsr => {
            let ret = w16(c.pc + 2);
            let (c1, m1) = spec_push(c, m, hi_byte(ret));
            let (c2, m2) = spec_push(c1, m1, lo_byte(ret));
            (Cpu { pc: ea, ..c2 }, m2, cyc, false)
        },
        Op::Rts => {
            let (c1, plo) = spec_pop(c, m);
            let (c2, phi) = spec_pop(c1, m);
            (Cpu { pc: w16(word_from(plo, phi) + 1), ..c2 }, m, cyc, false)
        },
        Op::Rti => {
            // The popped status comes back without the Break bit: a BRK's
            // pushed status carries it, the register after return does not.
            let (c1, st) = spec_pop(c, m);
            let (c2, plo) = spec_pop(c1, m);
            let (c3, phi) = spec_pop(c2, m);
            (Cpu { pc: word_from(plo, phi), sr: StatusRegisters(st & !0x10), ..c3 }, m, cyc, false)
        },
        Op::Pha => {
            let (c1, m1) = spec_push(c, m, c.a);
            (Cpu { pc: pc2, ..c1 }, m1, cyc, false)
        },
        Op::Php => {
            let (c1, m1) = spec_push(c, m, spec_reported(c.sr.0) | 0x10);
            (Cpu { pc: pc2, ..c1 }, m1, cyc, false)
        },
        Op::Pla => {
            let (c1, r) = spec_pop(c, m);
            (Cpu { pc: pc2, a: r, sr: zn(c.sr, r), ..c1 }, m, cyc, false)
        },
        Op::Plp => {
            // As with RTI, the Break bit is not a stored flag: it is pushed
            // set by PHP and BRK but never restored.
            let (c1, r) = spec_pop(c, m);
            (Cpu { pc: pc2, sr: StatusRegisters(r & !0x10), ..c1 }, m, cyc, false)
        },
        Op::Clc => (
            Cpu { pc: pc2, sr: StatusRegisters(spec_clear(c.sr.0, StatusFlags::C)), ..c },
            m,
            cyc,
            false,
        ),
        Op::Sec => (
            Cpu { pc: pc2, sr: StatusRegisters(spec_set(c.sr.0, StatusFlags::C)), ..c },
            m,
            cyc,
            false,
        ),
        Op::Cli => (
            Cpu { pc: pc2, sr: StatusRegisters(spec_clear(c.sr.0, StatusFlags::I)), ..c },
            m,
            cyc,
            false,
        ),
        Op::Sei => (
            Cpu { pc: pc2, sr: StatusRegisters(spec_set(c.sr.0, StatusFlags::I)), ..c },
            m,
            cyc,
            false,
        ),
        Op::Clv => (
            Cpu { pc: pc2, sr: StatusRegisters(spec_clear(c.sr.0, StatusFlags::V)), ..c },
            m,
            cyc,
            false,
        ),
        Op::Cld => (
            Cpu { pc: pc2, sr: StatusRegisters(spec_clear(c.sr.0, StatusFlags::D)), ..c },
            m,
            cyc,
            false,
        ),
        Op::Sed => (
            Cpu { pc: pc2, sr: StatusRegisters(spec_set(c.sr.0, StatusFlags::D)), ..c },
            m,
            cyc,
            false,
        ),
        Op::Brk => {
            // BRK pushes the address two past the opcode, and pushes the
            // status with the Break flag set so that a handler can tell a
            // software interrupt from a hardware one; the live Break bit is
            // left as it was.
            let ret = w16(c.pc + 2);
            let (c1, m1) = spec_push(c, m, hi_byte(ret));
            let (c2, m2) = spec_push(c1, m1, lo_byte(ret));
            let (c3, m3) = spec_push(c2, m2, spec_reported(c.sr.0) | 0x10);
            (
                Cpu {
                    pc: r16(m3, IRQ_VECTOR),
                    sr: StatusRegisters(spec_set(c3.sr.0, StatusFlags::I)),
                    ..c3
                },
                m3,
                cyc,
                false,
            )
        },
        Op::Nop => (Cpu { pc: pc2, ..c }, m, cyc, false),
        Op::Unknown => (Cpu { pc: pc2, ..c }, m, 1u8, true),
    }
}

/// The interrupt poll at an instruction boundary, then the instruction: a
/// latched NMI is always honoured and takes priority over IRQ; the IRQ line
/// is honoured only while Interrupt-Disable is clear; otherwise the
/// instruction at the program counter executes.
pub open spec fn spec_dispatch(c: Cpu, m: Seq<u8>) -> (Cpu, Seq<u8>, u8, bool) {
    if c.nmi_pending {
        let (c1, m1) = spec_interrupt(c, m, NMI_VECTOR);
        (Cpu { nmi_pending: false, ..c1 }, m1, 7u8, false)
    } else if c.irq_line && !spec_get(c.sr.0, StatusFlags::I) {
        let (c1, m1) = spec_interrupt(c, m, IRQ_VECTOR);
        (c1, m1, 7u8, false)
    } else {
        spec_exec(c, m)
    }
}

/// The semantics of `Cpu::step`: nothing in the halted state; otherwise one
/// instruction boundary, with any cycle debt still owed (reset latency, or
/// cycles left by interleaved `clock` calls) settled and counted into the
/// reported cost.
pub open spec fn spec_step(c: Cpu, m: Seq<u8>) -> (Cpu, Seq<u8>, StepInfo) {
    if c.halted {
        (c, m, StepInfo { cycles: 0u8, unknown: false })
    } else {
        let c0 = Cpu { cycles: 0u8, ..c };
        let (c2, m2, cyc, unk) = spec_dispatch(c0, m);
        (c2, m2, StepInfo { cycles: (c.cycles + cyc) as u8, unknown: unk })
    }
}

/// The semantics of `Cpu::clock`: nothing in the halted state; a tick of
/// the cycles-remaining counter while an instruction is in flight; the next
/// instruction boundary on the tick where the counter has reached zero.
pub open spec fn spec_clock(c: Cpu, m: Seq<u8>) -> (Cpu, Seq<u8>) {
    if c.halted {
        (c, m)
    } else if c.cycles > 0 {
        (Cpu { cycles: (c.cycles - 1) as u8, ..c }, m)
    } else {
        let (c2, m2, cyc, unk) = spec_dispatch(c, m);
        (Cpu { cycles: (cyc - 1) as u8, ..c2 }, m2)
    }
}

/// `n` clock calls in a row.
pub open spec fn spec_clock_n(c: Cpu, m: Seq<u8>, n: nat) -> (Cpu, Seq<u8>)
    decreases n,
{
    if n == 0 {
        (c, m)
    } else {
        let (c1, m1) = spec_clock(c, m);
        spec_clock_n(c1, m1, (n - 1) as nat)
    }
}

impl Cpu {
    /// Set Zero and Negative from a value.
    fn set_zn(&mut self, v: u8)
        ensures
            *final(self) == (Cpu { sr: zn(old(self).sr, v), ..*old(self) }),
    {
        self.sr.assign(StatusFlags::Z, v == 0);
        self.sr.assign(StatusFlags::N, v >= 0x80);
    }

    /// Interrupt entry: push PC and status, set Interrupt-Disable, load the
    /// vector.
    fn interrupt(&mut self, bus: &mut Bus, vector: u16)
        requires
            old(bus).inv(),
        ensures
            final(bus).inv(),
            (*final(self), final(bus)@) == spec_interrupt(*old(self), old(bus)@, vector),
    {
        let pc = self.pc;
        self.push(bus, high(pc));
        self.push(bus, low(pc));
        let st = self.sr.reported() & !0x10;
        self.push(bus, st);
        self.sr.set(StatusFlags::I);
        self.pc = read16(bus, vector);
    }

    /// Compare a register with an operand, setting Carry, Zero, Negative.
    fn do_cmp(&mut self, reg: u8, v: u8)
        ensures
            *final(self) == (Cpu { sr: cmp_sr(old(self).sr, reg, v), ..*old(self) }),
    {
        let diff = wrap8(reg as u32 + 256 - v as u32);
        proof {
            vstd::arithmetic::div_mod::lemma_mod_add_multiples_vanish(reg - v, 0x100);
        }
        self.sr.assign(StatusFlags::C, reg >= v);
        self.sr.assign(StatusFlags::Z, reg == v);
        self.sr.assign(StatusFlags::N, diff >= 0x80);
    }

    /// Write a shift or rotate result back, with its flags.
    fn do_shift(&mut self, bus: &mut Bus, implied: bool, ea: u16, pc2: u16, r: u8, carry: bool)
        requires
            old(bus).inv(),
        ensures
            final(bus).inv(),
            ({
                let (c2, m2, cyc, unk) = shift_out(
                    *old(self),
                    old(bus)@,
                    implied,
                    ea,
                    pc2,
                    0u8,
                    r,
                    carry,
                );
                *final(self) == c2 && final(bus)@ == m2
            }),
    {
        self.set_zn(r);
        self.sr.assign(StatusFlags::C, carry);
        if implied {
            self.a = r;
        } else {
            bus.write(ea, r);
        }
        self.pc = pc2;
    }

    /// Take or skip a conditional branch, returning its cycle cost.
    fn do_branch(&mut self, taken: bool, ea: u16, crossed: bool, pc2: u16) -> (r: u8)
        ensures
            ({
                let (c2, cy) = spec_branch(*old(self), ea, crossed, pc2, taken);
                *final(self) == c2 && r == cy
            }),
    {
        if taken {
            self.pc = ea;
            if crossed {
                4
            } else {
                3
            }
        } else {
            self.pc = pc2;
            2
        }
    }

    /// Execute the instruction at the program counter.
    #[verifier::rlimit(100)]
    #[verifier::spinoff_prover]
    fn exec_instr(&mut self, bus: &mut Bus) -> (r: (u8, bool))
        requires
            old(bus).inv(),
        ensures
            final(bus).inv(),
            (*final(self), final(bus)@, r.0, r.1) == spec_exec(*old(self), old(bus)@),
    {
        let op = bus.read(self.pc);
        let d = decode(op);
        proof {
            crate::ops::lemma_decode_shape(op);
        }
        let (ea, crossed) = resolve(d.mode, self.pc, self.x, self.y, bus);
        let v = if d.mode == AddressingMode::Immediate {
            wrap8(ea as u32)
        } else {
            bus.read(ea)
        };
        let pc2 = wrap16(self.pc as u32 + d.length as u32);
        let pen: u8 = if d.penalty && crossed {
            1
        } else {
            0
        };
        let cyc = d.cycles + pen;
        match d.name {
            Op::Lda => {
                self.a = v;
                self.set_zn(v);
                self.pc = pc2;
                (cyc, false)
            },
            Op::Ldx => {
                self.x = v;
                self.set_zn(v);
                self.pc = pc2;
                (cyc, false)
            },
            Op::Ldy => {
                self.y = v;
                self.set_zn(v);
                self.pc = pc2;
                (cyc, false)
            },
            Op::Sta => {
                bus.write(ea, self.a);
                self.pc = pc2;
                (cyc, false)
            },
            Op::Stx => {
                bus.write(ea, self.x);
                self.pc = pc2;
                (cyc, false)
            },
            Op::Sty => {
                bus.write(ea, self.y);
                self.pc = pc2;
                (cyc, false)
            },
            Op::Tax => {
                let r = self.a;
                self.x = r;
                self.set_zn(r);
                self.pc = pc2;
                (cyc, false)
            },
            Op::Tay => {
                let r = self.a;
                self.y = r;
                self.set_zn(r);
                self.pc = pc2;
                (cyc, false)
            },
            Op::Txa => {
                let r = self.x;
                self.a = r;
                self.set_zn(r);
                self.pc = pc2;
                (cyc, false)
            },
            Op::Tya => {
                let r = self.y;
                self.a = r;
                self.set_zn(r);
                self.pc = pc2;
                (cyc, false)
            },
            Op::Tsx => {
                let r = self.sp;
                self.x = r;
                self.set_zn(r);
                self.pc = pc2;
                (cyc, false)
            },
            Op::Txs => {
                self.sp = self.x;
                self.pc = pc2;
                (cyc, false)
            },
            Op::Inx => {
                let r = wrap8(self.x as u32 + 1);
                self.x = r;
                self.set_zn(r);
                self.pc = pc2;
                (cyc, false)
            },
            Op::Iny => {
                let r = wrap8(self.y as u32 + 1);
                self.y = r;
                self.set_zn(r);
                self.pc = pc2;
                (cyc, false)
            },
            Op::Dex => {
                let r = wrap8(self.x as u32 + 256 - 1);
                proof {
                    vstd::arithmetic::div_mod::lemma_mod_add_multiples_vanish(
                        old(self).x - 1,
                        0x100,
                    );
                }
                self.x = r;
                self.set_zn(r);
                self.pc = pc2;
                (cyc, false)
            },
            Op::Dey => {
                let r = wrap8(self.y as u32 + 256 - 1);
                proof {
                    vstd::arithmetic::div_mod::lemma_mod_add_multiples_vanish(
                        old(self).y - 1,
                        0x100,
                    );
                }
                self.y = r;
                self.set_zn(r);
                self.pc = pc2;
                (cyc, false)
            },
            Op::Inc => {
                let r = wrap8(v as u32 + 1);
                bus.write(ea, r);
                self.set_zn(r);
                self.pc = pc2;
                (cyc, false)
            },
            Op::Dec => {
                let r = wrap8(v as u32 + 256 - 1);
                proof {
                    vstd::arithmetic::div_mod::lemma_mod_add_multiples_vanish(v - 1, 0x100);
                }
                bus.write(ea, r);
                self.set_zn(r);
                self.pc = pc2;
                (cyc, false)
            },
            Op::And => {
                let r = self.a & v;
                self.a = r;
                self.set_zn(r);
                self.pc = pc2;
                (cyc, false)
            },
            Op::Ora => {
                let r = self.a | v;
                self.a = r;
                self.set_zn(r);
                self.pc = pc2;
                (cyc, false)
            },
            Op::Eor => {
                let r = self.a ^ v;
                self.a = r;
                self.set_zn(r);
                self.pc = pc2;
                (cyc, false)
            },
            Op::Bit => {
                let a = self.a;
                self.sr.assign(StatusFlags::Z, (a & v) == 0);
                self.sr.assign(StatusFlags::V, (v / 0x40) % 2 == 1);
                self.sr.assign(StatusFlags::N, v >= 0x80);
                self.pc = pc2;
                (cyc, false)
            },
            Op::Adc => {
                let (r, carry, ovf) = adc_val(
                    self.a,
                    v,
                    self.sr.get(StatusFlags::C),
                    self.sr.get(StatusFlags::D),
                );
                self.a = r;
                self.sr.assign(StatusFlags::C, carry);
                self.sr.assign(StatusFlags::Z, r == 0);
                self.sr.assign(StatusFlags::V, ovf);
                self.sr.assign(StatusFlags::N, r >= 0x80);
                self.pc = pc2;
                (cyc, false)
            },
            Op::Sbc => {
                let (r, carry, ovf) = sbc_val(
                    self.a,
                    v,
                    self.sr.get(StatusFlags::C),
                    self.sr.get(StatusFlags::D),
                );
                self.a = r;
                self.sr.assign(StatusFlags::C, carry);
                self.sr.assign(StatusFlags::Z, r == 0);
                self.sr.assign(StatusFlags::V, ovf);
                self.sr.assign(StatusFlags::N, r >= 0x80);
                self.pc = pc2;
                (cyc, false)
            },
            Op::Cmp => {
                let reg = self.a;
                self.do_cmp(reg, v);
                self.pc = pc2;
                (cyc, false)
            },
            Op::Cpx => {
                let reg = self.x;
                self.do_cmp(reg, v);
                self.pc = pc2;
                (cyc, false)
            },
            Op::Cpy => {
                let reg = self.y;
                self.do_cmp(reg, v);
                self.pc = pc2;
                (cyc, false)
            },
            Op::Asl => {
                let implied = d.mode == AddressingMode::Implied;
                let src = if implied {
                    self.a
                } else {
                    v
                };
                let r = wrap8(src as u32 * 2);
                self.do_shift(bus, implied, ea, pc2, r, src >= 0x80);
                (cyc, false)
            },
            Op::Lsr => {
                let implied = d.mode == AddressingMode::Implied;
                let src = if implied {
                    self.a
                } else {
                    v
                };
                self.do_shift(bus, implied, ea, pc2, src / 2, src % 2 == 1);
                (cyc, false)
            },
            Op::Rol => {
                let implied = d.mode == AddressingMode::Implied;
                let src = if implied {
                    self.a
                } else {
                    v
                };
                let ci: u32 = if self.sr.get(StatusFlags::C) {
                    1
                } else {
                    0
                };
                let r = wrap8(src as u32 * 2 + ci);
                self.do_shift(bus, implied, ea, pc2, r, src >= 0x80);
                (cyc, false)
            },
            Op::Ror => {
                let implied = d.mode == AddressingMode::Implied;
                let src = if implied {
                    self.a
                } else {
                    v
                };
                let hi_in: u8 = if self.sr.get(StatusFlags::C) {
                    0x80
                } else {
                    0
                };
                self.do_shift(bus, implied, ea, pc2, src / 2 + hi_in, src % 2 == 1);
                (cyc, false)
            },
            Op::Bpl => {
                let taken = !self.sr.get(StatusFlags::N);
                (self.do_branch(taken, ea, crossed, pc2), false)
            },
            Op::Bmi => {
                let taken = self.sr.get(StatusFlags::N);
                (self.do_branch(taken, ea, crossed, pc2), false)
            },
            Op::Bvc => {
                let taken = !self.sr.get(StatusFlags::V);
                (self.do_branch(taken, ea, crossed, pc2), false)
            },
            Op::Bvs => {
                let taken = self.sr.get(StatusFlags::V);
                (self.do_branch(taken, ea, crossed, pc2), false)
            },
            Op::Bcc => {
                let taken = !self.sr.get(StatusFlags::C);
                (self.do_branch(taken, ea, crossed, pc2), false)
            },
            Op::Bcs => {
                let taken = self.sr.get(StatusFlags::C);
                (self.do_branch(taken, ea, crossed, pc2), false)
            },
            Op::Bne => {
                let taken = !self.sr.get(StatusFlags::Z);
                (self.do_branch(taken, ea, crossed, pc2), false)
            },
            Op::Beq => {
                let taken = self.sr.get(StatusFlags::Z);
                (self.do_branch(taken, ea, crossed, pc2), false)
            },
            Op::Jmp => {
                self.pc = ea;
                (cyc, false)
            },
            Op::Jsr => {
                let ret = wrap16(self.pc as u32 + 2);
                self.push(bus, high(ret));
                self.push(bus, low(ret));
                self.pc = ea;
                (cyc, false)
            },
            Op::Rts => {
                let plo = self.pop(bus);
                let phi = self.pop(bus);
                self.pc = wrap16(make_word(plo, phi) as u32 + 1);
                (cyc, false)
            },
            Op::Rti => {
                let st = self.pop(bus);
                let plo = self.pop(bus);
                let phi = self.pop(bus);
                self.sr = StatusRegisters::new(st & !0x10);
                self.pc = make_word(plo, phi);
                (cyc, false)
            },
            Op::Pha => {
                let a = self.a;
                self.push(bus, a);
                self.pc = pc2;
                (cyc, false)
            },
            Op::Php => {
                let st = self.sr.reported() | 0x10;
                self.push(bus, st);
                self.pc = pc2;
                (cyc, false)
            },
            Op::Pla => {
                let r = self.pop(bus);
                self.a = r;
                self.set_zn(r);
                self.pc = pc2;
                (cyc, false)
            },
            Op::Plp => {
                let r = self.pop(bus);
                self.sr = StatusRegisters::new(r & !0x10);
                self.pc = pc2;
                (cyc, false)
            },
            Op::Clc => {
                self.sr.clear(StatusFlags::C);
                self.pc = pc2;
                (cyc, false)
            },
            Op::Sec => {
                self.sr.set(StatusFlags::C);
                self.pc = pc2;
                (cyc, false)
            },
            Op::Cli => {
                self.sr.clear(StatusFlags::I);
                self.pc = pc2;
                (cyc, false)
            },
            Op::Sei => {
                self.sr.set(StatusFlags::I);
                self.pc = pc2;
                (cyc, false)
            },
            Op::Clv => {
                self.sr.clear(StatusFlags::V);
                self.pc = pc2;
                (cyc, false)
            },
            Op::Cld => {
                self.sr.clear(StatusFlags::D);
                self.pc = pc2;
                (cyc, false)
            },
            Op::Sed => {
                self.sr.set(StatusFlags::D);
                self.pc = pc2;
                (cyc, false)
            },
            Op::Brk => {
                let ret = wrap16(self.pc as u32 + 2);
                self.push(bus, high(ret));
                self.push(bus, low(ret));
                let st = self.sr.reported() | 0x10;
                self.push(bus, st);
                self.sr.set(StatusFlags::I);
                self.pc = read16(bus, IRQ_VECTOR);
                (cyc, false)
            },
            Op::Nop => {
                self.pc = pc2;
                (cyc, false)
            },
            Op::Unknown => {
                self.pc = pc2;
                (1, true)
            },
        }
    }

    /// The interrupt poll, then one instruction.
    fn exec_dispatch(&mut self, bus: &mut Bus) -> (r: (u8, bool))
        requires
            old(bus).inv(),
        ensures
            final(bus).inv(),
            (*final(self), final(bus)@, r.0, r.1) == spec_dispatch(*old(self), old(bus)@),
    {
        if self.nmi_pending {
            self.interrupt(bus, NMI_VECTOR);
            self.nmi_pending = false;
            (7, false)
        } else if self.irq_line && !self.sr.get(StatusFlags::I) {
            self.interrupt(bus, IRQ_VECTOR);
            (7, false)
        } else {
            self.exec_instr(bus)
        }
    }

    /// Instruction-step mode: run one whole instruction (after settling any
    /// cycle debt still owed, which is counted into the reported cost) and
    /// report its total cycle cost and the undocumented-opcode diagnostic.
    pub fn step(&mut self, bus: &mut Bus) -> (r: StepInfo)
        requires
            old(bus).inv(),
            old(self).inv(),
        ensures
            final(bus).inv(),
            final(self).inv(),
            (*final(self), final(bus)@, r) == spec_step(*old(self), old(bus)@),
    {
        if self.halted {
            return StepInfo { cycles: 0, unknown: false };
        }
        let debt = self.cycles;
        self.cycles = 0;
        let (cyc, unk) = self.exec_dispatch(bus);
        proof {
            lemma_dispatch_shape(Cpu { cycles: 0u8, ..*old(self) }, old(bus)@);
        }
        StepInfo { cycles: debt + cyc, unknown: unk }
    }

    /// Cycle-step mode: advance by exactly one clock cycle. An instruction
    /// of cost N occupies the engine for N calls; only on the call where
    /// the cycles-remaining counter has reached zero does the next fetch
    /// (and the interrupt poll) occur.
    pub fn clock(&mut self, bus: &mut Bus)
        requires
            old(bus).inv(),
            old(self).inv(),
        ensures
            final(bus).inv(),
            final(self).inv(),
            (*final(self), final(bus)@) == spec_clock(*old(self), old(bus)@),
    {
        if self.halted {
            return ;
        }
        if self.cycles > 0 {
            self.cycles = self.cycles - 1;
            return ;
        }
        let (cyc, unk) = self.exec_dispatch(bus);
        proof {
            lemma_dispatch_shape(*old(self), old(bus)@);
        }
        self.cycles = cyc - 1;
    }
}

/// Add with carry, binary or decimal.
fn adc_val(a: u8, v: u8, cin: bool, dec: bool) -> (r: (u8, bool, bool))
    ensures
        r == spec_adc_val(a, v, cin, dec),
{
    let ci: u32 = if cin {
        1
    } else {
        0
    };
    let sa: i32 = if a < 0x80 {
        a as i32
    } else {
        a as i32 - 256
    };
    let sv: i32 = if v < 0x80 {
        v as i32
    } else {
        v as i32 - 256
    };
    let ss: i32 = sa + sv + ci as i32;
    let ovf = ss < -128 || ss > 127;
    if !dec {
        let sum: u32 = a as u32 + v as u32 + ci;
        (wrap8(sum), sum > 255, ovf)
    } else {
        let lo: u32 = a as u32 % 16 + v as u32 % 16 + ci;
        let lo2: u32 = if lo > 9 {
            lo + 6
        } else {
            lo
        };
        let hi: u32 = a as u32 / 16 + v as u32 / 16 + (if lo2 > 15 {
            1
        } else {
            0
        });
        let carry = hi > 9;
        let hi2: u32 = if hi > 9 {
            hi + 6
        } else {
            hi
        };
        (wrap8((hi2 % 16) * 16 + lo2 % 16), carry, ovf)
    }
}

/// Subtract with borrow, binary or decimal. Intermediate values are kept
/// non-negative with offsets that vanish modulo 16 and 256.
fn sbc_val(a: u8, v: u8, cin: bool, dec: bool) -> (r: (u8, bool, bool))
    ensures
        r == spec_sbc_val(a, v, cin, dec),
{
    let bi: u32 = if cin {
        0
    } else {
        1
    };
    let sa: i32 = if a < 0x80 {
        a as i32
    } else {
        a as i32 - 256
    };
    let sv: i32 = if v < 0x80 {
        v as i32
    } else {
        v as i32 - 256
    };
    let ss: i32 = sa - sv - bi as i32;
    let ovf = ss < -128 || ss > 127;
    let diff_off: u32 = a as u32 + 256 - v as u32 - bi;
    let carry = diff_off >= 256;
    proof {
        vstd::arithmetic::div_mod::lemma_mod_add_multiples_vanish(a - v - bi, 0x100);
    }
    if !dec {
        (wrap8(diff_off), carry, ovf)
    } else {
        let lo_off: u32 = a as u32 % 16 + 32 - v as u32 % 16 - bi;
        let borrow_lo = lo_off < 32;
        let lo2_off: u32 = if borrow_lo {
            lo_off + 10
        } else {
            lo_off
        };
        let hi_off: u32 = a as u32 / 16 + 32 - v as u32 / 16 - (if borrow_lo {
            1
        } else {
            0
        });
        let hi2_off: u32 = if hi_off < 32 {
            hi_off + 10
        } else {
            hi_off
        };
        proof {
            let lo = (a % 16) - (v % 16) - bi;
            let lo2 = if lo < 0 {
                lo + 10
            } else {
                lo
            };
            let hi = (a / 16) - (v / 16) - (if lo < 0 {
                1int
            } else {
                0int
            });
            let hi2 = if hi < 0 {
                hi + 10
            } else {
                hi
            };
            vstd::arithmetic::div_mod::lemma_mod_multiples_vanish(2, lo2, 16);
            vstd::arithmetic::div_mod::lemma_mod_multiples_vanish(2, hi2, 16);
            assert(lo2_off == lo2 + 32);
            assert(hi2_off == hi2 + 32);
        }
        (wrap8((hi2_off % 16) * 16 + lo2_off % 16), carry, ovf)
    }
}

/// The cost of a dispatch is 1 to 8 cycles, and a dispatch never touches
/// the cycles-remaining counter or the halted flag.
#[verifier::rlimit(100)]
pub proof fn lemma_dispatch_shape(c: Cpu, m: Seq<u8>)
    ensures
        ({
            let (c2, m2, cyc, unk) = spec_dispatch(c, m);
            1 <= cyc <= 8 && c2.cycles == c.cycles && c2.halted == c.halted
        }),
{
    crate::ops::lemma_decode_shape(mrd(m, c.pc));
}

/// Running clocks in two batches is the same as running them in one.
pub proof fn lemma_clock_n_add(c: Cpu, m: Seq<u8>, j: nat, k: nat)
    ensures
        spec_clock_n(c, m, j + k) == ({
            let (c1, m1) = spec_clock_n(c, m, j);
            spec_clock_n(c1, m1, k)
        }),
    decreases j,
{
    if j > 0 {
        let (c1, m1) = spec_clock(c, m);
        lemma_clock_n_add(c1, m1, (j - 1) as nat, k);
    }
}

/// While an instruction is in flight, clocks only tick the counter down:
/// as many clocks as the counter holds bring it to zero and change nothing
/// else.
proof fn lemma_clock_countdown(c: Cpu, m: Seq<u8>)
    requires
        !c.halted,
    ensures
        spec_clock_n(c, m, c.cycles as nat) == ((Cpu { cycles: 0u8, ..c }, m)),
    decreases c.cycles,
{
    if c.cycles == 0 {
        assert((Cpu { cycles: 0u8, ..c }) == c);
    } else {
        lemma_clock_countdown(Cpu { cycles: (c.cycles - 1) as u8, ..c }, m);
    }
}

/// The two execution modes agree: from any non-halted state, running as
/// many clock cycles as one `step` reports lands in exactly the state that
/// the `step` produces - same registers, same flags, same memory, and the
/// same total cycle count for the instruction.
#[verifier::rlimit(100)]
pub proof fn lemma_clock_step_agree(c: Cpu, m: Seq<u8>)
    requires
        !c.halted,
        c.inv(),
    ensures
        ({
            let (c2, m2, info) = spec_step(c, m);
            spec_clock_n(c, m, info.cycles as nat) == ((c2, m2))
        }),
{
    let c0 = Cpu { cycles: 0u8, ..c };
    let (c2, m2, cyc, unk) = spec_dispatch(c0, m);
    lemma_dispatch_shape(c0, m);
    let c3 = Cpu { cycles: (cyc - 1) as u8, ..c2 };
    // Settle the debt: c.cycles clocks reach the instruction boundary.
    lemma_clock_countdown(c, m);
    lemma_clock_n_add(c, m, c.cycles as nat, cyc as nat);
    // One clock at the boundary performs the dispatch ...
    assert(spec_clock(c0, m) == ((c3, m2)));
    lemma_clock_n_add(c0, m, 1, (cyc - 1) as nat);
    reveal_with_fuel(spec_clock_n, 2);
    assert(spec_clock_n(c0, m, 1) == ((c3, m2)));
    // ... and the rest tick its cost down to zero.
    lemma_clock_countdown(c3, m2);
    assert((Cpu { cycles: 0u8, ..c3 }) == c2);
}

/// Interrupt priority: whenever an NMI edge is latched - in particular
/// when the IRQ line is asserted on the same cycle - the next instruction
/// boundary services the NMI: its vector is loaded, never IRQ's, the latch
/// is released and Interrupt-Disable is set.
pub proof fn lemma_nmi_priority(c: Cpu, m: Seq<u8>)
    requires
        !c.halted,
        c.nmi_pending,
    ensures
        ({
            let (c2, m2, info) = spec_step(c, m);
            &&& c2.pc == r16(m2, NMI_VECTOR)
            &&& !c2.nmi_pending
            &&& spec_get(c2.sr.0, StatusFlags::I)
        }),
{
    let c0 = Cpu { cycles: 0u8, ..c };
    let (c1, m1) = spec_interrupt(c0, m, NMI_VECTOR);
    crate::status::lemma_set_then_get(c0.sr.0, StatusFlags::I);
}

/// A masked IRQ is deferred: while Interrupt-Disable is set and no NMI is
/// latched, an asserted IRQ line changes nothing about the step - the
/// instruction at the program counter executes as if no interrupt were
/// pending.
pub proof fn lemma_irq_masked(c: Cpu, m: Seq<u8>)
    requires
        !c.halted,
        !c.nmi_pending,
        c.irq_line,
        spec_get(c.sr.0, StatusFlags::I),
    ensures
        ({
            let c0 = Cpu { cycles: 0u8, ..c };
            let (c2, m2, cyc, unk) = spec_exec(c0, m);
            spec_step(c, m) == ((
                c2,
                m2,
                StepInfo { cycles: (c.cycles + cyc) as u8, unknown: unk },
            ))
        }),
{
}

/// Once Interrupt-Disable clears, a still-asserted IRQ line is honoured at
/// the next instruction boundary: its vector is loaded and the flag is set
/// again for the handler.
pub proof fn lemma_irq_taken(c: Cpu, m: Seq<u8>)
    requires
        !c.halted,
        !c.nmi_pending,
        c.irq_line,
        !spec_get(c.sr.0, StatusFlags::I),
    ensures
        ({
            let (c2, m2, info) = spec_step(c, m);
            &&& c2.pc == r16(m2, IRQ_VECTOR)
            &&& spec_get(c2.sr.0, StatusFlags::I)
        }),
{
    let c0 = Cpu { cycles: 0u8, ..c };
    crate::status::lemma_set_then_get(c0.sr.0, StatusFlags::I);
}

} // verus!
