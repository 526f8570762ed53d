//! The processor status register: eight flag bits packed in one byte, with
//! named accessors instead of raw masks at the call sites. Bit 5 (Unused)
//! is always reported as 1, whatever was stored, as on the real part.

use vstd::prelude::*;

verus! {

/// The eight status flags, in bit order from bit 0 (Carry) to bit 7
/// (Negative).
#[derive(Clone, Copy, Debug, PartialEq, Eq, Structural)]
pub enum StatusFlags {
    /// Carry
    C,
    /// Zero
    Z,
    /// Interrupt disable
    I,
    /// Decimal mode
    D,
    /// Break
    B,
    /// Unused: always reported as 1
    U,
    /// Overflow
    V,
    /// Negative
    N,
}

/// The one-hot mask of a flag within the status byte.
pub open spec fn spec_mask(flag: StatusFlags) -> u8 {
    match flag {
        StatusFlags::C => 0x01,
        StatusFlags::Z => 0x02,
        StatusFlags::I => 0x04,
        StatusFlags::D => 0x08,
        StatusFlags::B => 0x10,
        StatusFlags::U => 0x20,
        StatusFlags::V => 0x40,
        StatusFlags::N => 0x80,
    }
}

/// The status byte as reported to a reader: bit 5 reads as 1 always.
pub open spec fn spec_reported(bits: u8) -> u8 {
    bits | 0x20
}

/// What `get` returns: the reported value of one flag.
pub open spec fn spec_get(bits: u8, flag: StatusFlags) -> bool {
    spec_reported(bits) & spec_mask(flag) != 0
}

/// What `set` stores.
pub open spec fn spec_set(bits: u8, flag: StatusFlags) -> u8 {
    bits | spec_mask(flag)
}

/// What `clear` stores.
pub open spec fn spec_clear(bits: u8, flag: StatusFlags) -> u8 {
    bits & !spec_mask(flag)
}

/// The packed status register. The stored byte is the raw bit pattern; every
/// read path (`get`, `reported`) forces the Unused bit to 1.
#[derive(Clone, Copy, Debug, PartialEq, Eq, Structural)]
pub struct StatusRegisters(pub u8);

impl StatusRegisters {
    pub fn new(value: u8) -> (r: StatusRegisters)
        ensures
            r.0 == value,
    {
        StatusRegisters(value)
    }

    /// A register holding exactly the given flag (plus the always-on Unused
    /// bit when read back).
    pub fn flags(flags: StatusFlags) -> (r: StatusRegisters)
        ensures
            r.0 == spec_mask(flags),
    {
        StatusRegisters(Self::mask(flags))
    }

    /// The one-hot bit mask of a flag.
    pub fn mask(flag: StatusFlags) -> (r: u8)
        ensures
            r == spec_mask(flag),
    {
        match flag {
            StatusFlags::C => 0x01,
            StatusFlags::Z => 0x02,
            StatusFlags::I => 0x04,
            StatusFlags::D => 0x08,
            StatusFlags::B => 0x10,
            StatusFlags::U => 0x20,
            StatusFlags::V => 0x40,
            StatusFlags::N => 0x80,
        }
    }

    /// The full status byte as the processor reports it: bit 5 always 1.
    pub fn reported(&self) -> (r: u8)
        ensures
            r == spec_reported(self.0),
    {
        self.0 | 0x20
    }

    /// Whether the flag reads as set. `U` always does.
    pub fn get(&self, flag: StatusFlags) -> (r: bool)
        ensures
            r == spec_get(self.0, flag),
    {
        (self.0 | 0x20) & Self::mask(flag) != 0
    }

    /// Set one flag; no other stored bit changes.
    pub fn set(&mut self, flag: StatusFlags)
        ensures
            final(self).0 == spec_set(old(self).0, flag),
    {
        self.0 = self.0 | Self::mask(flag);
    }

    /// Clear one flag's stored bit; no other stored bit changes. (`U` still
    /// reads as 1 afterwards.)
    pub fn clear(&mut self, flag: StatusFlags)
        ensures
            final(self).0 == spec_clear(old(self).0, flag),
    {
        self.0 = self.0 & !Self::mask(flag);
    }

    /// Store `flag` as set when `value` holds, as clear otherwise.
    pub fn assign(&mut self, flag: StatusFlags, value: bool)
        ensures
            final(self).0 == spec_assign(old(self).0, flag, value),
    {
        if value {
            self.set(flag);
        } else {
            self.clear(flag);
        }
    }
}

/// What `assign` stores.
pub open spec fn spec_assign(bits: u8, flag: StatusFlags, value: bool) -> u8 {
    if value {
        spec_set(bits, flag)
    } else {
        spec_clear(bits, flag)
    }
}

/// Setting a flag twice stores the same byte as setting it once.
pub proof fn lemma_set_idempotent(bits: u8, flag: StatusFlags)
    ensures
        spec_set(spec_set(bits, flag), flag) == spec_set(bits, flag),
{
    let m = spec_mask(flag);
    assert((bits | m) | m == bits | m) by (bit_vector);
}

/// Clearing a flag that already reads clear leaves the stored byte unchanged.
pub proof fn lemma_clear_absent_noop(bits: u8, flag: StatusFlags)
    requires
        !spec_get(bits, flag),
    ensures
        spec_clear(bits, flag) == bits,
{
    let m = spec_mask(flag);
    assert((bits | 0x20) & m == 0 ==> bits & !m == bits) by (bit_vector);
}

/// Clearing a flag twice stores the same byte as clearing it once.
pub proof fn lemma_clear_idempotent(bits: u8, flag: StatusFlags)
    ensures
        spec_clear(spec_clear(bits, flag), flag) == spec_clear(bits, flag),
{
    let m = spec_mask(flag);
    assert((bits & !m) & !m == bits & !m) by (bit_vector);
}

/// After a set, the flag reads as set, from any starting byte.
pub proof fn lemma_set_then_get(bits: u8, flag: StatusFlags)
    ensures
        spec_get(spec_set(bits, flag), flag),
{
    let m = spec_mask(flag);
    assert(m != 0 ==> (bits | m | 0x20) & m != 0) by (bit_vector);
}

/// After a clear, every flag but Unused reads as clear; Unused still reads
/// as set, because the register always reports bit 5 as 1.
pub proof fn lemma_clear_then_get(bits: u8, flag: StatusFlags)
    ensures
        flag != StatusFlags::U ==> !spec_get(spec_clear(bits, flag), flag),
        flag == StatusFlags::U ==> spec_get(spec_clear(bits, flag), flag),
{
    let m = spec_mask(flag);
    if flag != StatusFlags::U {
        assert(m == 1 || m == 2 || m == 4 || m == 8 || m == 16 || m == 64 || m == 128);
        assert((m == 1 || m == 2 || m == 4 || m == 8 || m == 16 || m == 64 || m == 128)
            ==> ((bits & !m) | 0x20) & m == 0) by (bit_vector);
    } else {
        assert(((bits & !0x20u8) | 0x20) & 0x20 != 0) by (bit_vector);
    }
}

/// Setting or clearing one flag never changes how any other flag reads.
pub proof fn lemma_flags_independent(bits: u8, flag: StatusFlags, other: StatusFlags)
    requires
        flag != other,
    ensures
        spec_get(spec_set(bits, flag), other) == spec_get(bits, other),
        spec_get(spec_clear(bits, flag), other) == spec_get(bits, other),
{
    let m = spec_mask(flag);
    let n = spec_mask(other);
    assert(m == 1 || m == 2 || m == 4 || m == 8 || m == 16 || m == 32 || m == 64 || m == 128);
    assert(n == 1 || n == 2 || n == 4 || n == 8 || n == 16 || n == 32 || n == 64 || n == 128);
    assert(m != n);
    assert((m == 1 || m == 2 || m == 4 || m == 8 || m == 16 || m == 32 || m == 64 || m == 128)
        && (n == 1 || n == 2 || n == 4 || n == 8 || n == 16 || n == 32 || n == 64 || n == 128)
        && m != n ==> m & n == 0) by (bit_vector);
    assert(m & n == 0 ==> ((bits | m) | 0x20) & n == (bits | 0x20) & n) by (bit_vector);
    assert(m & n == 0 ==> ((bits & !m) | 0x20) & n == (bits | 0x20) & n) by (bit_vector);
}

} // verus!
