//! The memory bus: a flat 64 KB byte store, total over the full 16-bit
//! address space. Reserved ranges (zero page, the stack page, the interrupt
//! vectors at $FFFA-$FFFF) are a layout convention enforced by the CPU's
//! use of the bus, not by the type.

use vstd::prelude::*;

verus! {

/// Number of addressable bytes: the full 16-bit address space.
pub const MEMORY_SIZE: usize = 0x10000;

/// The flat 64 KB byte store backing the bus.
pub struct Memory {
    bytes: Vec<u8>,
}

impl View for Memory {
    type V = Seq<u8>;

    closed spec fn view(&self) -> Seq<u8> {
        self.bytes@
    }
}

impl Memory {
    /// Every byte store holds exactly one byte per 16-bit address.
    pub open spec fn inv(&self) -> bool {
        self@.len() == MEMORY_SIZE
    }

    /// A fresh store with every byte set to `fill`.
    pub fn new(fill: u8) -> (r: Memory)
        ensures
            r.inv(),
            forall|i: int| 0 <= i < MEMORY_SIZE ==> r@[i] == fill,
    {
        let mut bytes: Vec<u8> = Vec::new();
        let mut n: usize = 0;
        while n < MEMORY_SIZE
            invariant
                n == bytes@.len(),
                n <= MEMORY_SIZE,
                forall|i: int| 0 <= i < n ==> bytes@[i] == fill,
            decreases MEMORY_SIZE - n,
        {
            bytes.push(fill);
            n = n + 1;
        }
        Memory { bytes }
    }
}

/// The bus owns the byte store exclusively; the CPU borrows the bus for the
/// duration of each call. Both operations are total: a 16-bit address is
/// always in range, so nothing can fault.
pub struct Bus {
    memory: Memory,
}

impl View for Bus {
    type V = Seq<u8>;

    closed spec fn view(&self) -> Seq<u8> {
        self.memory@
    }
}

impl Bus {
    pub open spec fn inv(&self) -> bool {
        self@.len() == MEMORY_SIZE
    }

    pub fn new(memory: Memory) -> (r: Bus)
        requires
            memory.inv(),
        ensures
            r.inv(),
            r@ == memory@,
    {
        Bus { memory }
    }

    /// Read the byte at `address`. Total: every 16-bit address is backed.
    pub fn read(&self, address: u16) -> (r: u8)
        requires
            self.inv(),
        ensures
            r == self@[address as int],
    {
        self.memory.bytes[address as usize]
    }

    /// Write `value` at `address`. Total; no other byte changes.
    pub fn write(&mut self, address: u16, value: u8)
        requires
            old(self).inv(),
        ensures
            final(self).inv(),
            final(self)@ == old(self)@.update(address as int, value),
    {
        self.memory.bytes[address as usize] = value;
    }
}

} // verus!
