//! Cycle-accurate emulation of the 6510 8-bit microprocessor: a 64 KB
//! byte-addressable bus, an instruction table for the documented opcode set,
//! an addressing-mode resolver, the fetch/decode/execute engine with
//! flag-accurate arithmetic and interrupt sequencing, and a small
//! disassembler built on the same instruction table.

pub mod assembler;
pub mod bus;
pub mod color;
pub mod cpu;
pub mod disasm;
pub mod engine;
pub mod machine;
pub mod ops;
pub mod resolve;
pub mod status;
pub mod string_util;
pub mod word;

use vstd::prelude::*;

verus! {

} // verus!
