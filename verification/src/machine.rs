//! The machine: it owns the bus exclusively, and the CPU core borrows the
//! bus for the duration of each call. This breaks the ownership cycle
//! between the two without shared or boxed ownership.

use vstd::prelude::*;

use crate::bus::{Bus, Memory};
use crate::cpu::{spec_reset, Cpu};
use crate::disasm::Block;
use crate::engine::{lemma_clock_n_add, spec_clock_n};
use crate::word::{mwr, w16};
use crate::word::wrap16_64;

verus! {

/// A block's bytes written into memory from its start address on,
/// consuming the bytes from position `i`.
pub open spec fn spec_load(m: Seq<u8>, start: u16, bytes: Seq<u8>, i: nat) -> Seq<u8>
    decreases bytes.len() - i,
{
    if i >= bytes.len() {
        m
    } else {
        spec_load(mwr(m, w16(start + i), bytes[i as int]), start, bytes, (i + 1) as nat)
    }
}

/// The whole machine: one CPU core and the bus it borrows.
pub struct C64 {
    pub cpu: Cpu,
    pub bus: Bus,
}

impl C64 {
    pub open spec fn inv(&self) -> bool {
        self.bus.inv() && self.cpu.inv()
    }

    /// A powered-on machine: zeroed memory, CPU not yet reset.
    pub fn new() -> (r: C64)
        ensures
            r.inv(),
            r.cpu == (Cpu {
                pc: 0u16,
                sp: 0u8,
                a: 0u8,
                x: 0u8,
                y: 0u8,
                sr: crate::status::StatusRegisters(0u8),
                cycles: 0u8,
                irq_line: false,
                nmi_pending: false,
                halted: false,
            }),
            forall|i: int| 0 <= i < 0x10000 ==> r.bus@[i] == 0u8,
    {
        let cpu = Cpu::new();
        let bus = Bus::new(Memory::new(0));
        C64 { cpu, bus }
    }

    /// Reset the CPU against the machine's memory: PC from the reset
    /// vector, SP to $FD, Interrupt-Disable set, Decimal clear.
    pub fn reset(&mut self)
        requires
            old(self).inv(),
        ensures
            final(self).inv(),
            final(self).bus == old(self).bus,
            final(self).cpu == spec_reset(old(self).cpu, old(self).bus@),
    {
        let bus = &self.bus;
        self.cpu.reset(bus);
    }

    /// Load a block of code into memory at its start address, then drive
    /// the clock for the given number of cycles.
    pub fn run(&mut self, block: &Block, ticks: u64)
        requires
            old(self).inv(),
        ensures
            final(self).inv(),
            ({
                let loaded = spec_load(old(self).bus@, block.start, block.instructions@, 0);
                (final(self).cpu, final(self).bus@) == spec_clock_n(
                    old(self).cpu,
                    loaded,
                    ticks as nat,
                )
            }),
    {
        let ghost m0 = self.bus@;
        let n = block.instructions.len();
        let mut i: usize = 0;
        while i < n
            invariant
                i <= n,
                n == block.instructions@.len(),
                self.bus.inv(),
                self.cpu == old(self).cpu,
                self.cpu.inv(),
                spec_load(m0, block.start, block.instructions@, 0) == spec_load(
                    self.bus@,
                    block.start,
                    block.instructions@,
                    i as nat,
                ),
            decreases n - i,
        {
            let addr = wrap16_64(block.start as u64 + (i % 0x10000) as u64);
            proof {
                vstd::arithmetic::div_mod::lemma_add_mod_noop(
                    block.start as int,
                    i as int,
                    0x10000,
                );
                vstd::arithmetic::div_mod::lemma_add_mod_noop(
                    block.start as int,
                    (i % 0x10000) as int,
                    0x10000,
                );
                assert(addr == w16(block.start + i));
            }
            self.bus.write(addr, block.instructions[i]);
            i = i + 1;
        }
        let ghost loaded = self.bus@;
        let ghost c0 = self.cpu;
        let mut t: u64 = 0;
        while t < ticks
            invariant
                t <= ticks,
                self.bus.inv(),
                self.cpu.inv(),
                (self.cpu, self.bus@) == spec_clock_n(c0, loaded, t as nat),
            decreases ticks - t,
        {
            let ghost pre = (self.cpu, self.bus@);
            self.cpu.clock(&mut self.bus);
            t = t + 1;
            proof {
                lemma_clock_n_add(c0, loaded, (t - 1) as nat, 1nat);
                reveal_with_fuel(spec_clock_n, 2);
                assert((self.cpu, self.bus@) == spec_clock_n(c0, loaded, t as nat));
            }
        }
    }
}

} // verus!
