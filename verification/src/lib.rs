//! Instruction-set core of a MOS 6502 emulator: opcode decoding,
//! addressing-mode resolution, instruction execution and a
//! fetch-decode-execute driver.

use vstd::prelude::*;

pub mod addressing;
pub mod alu;
pub mod decode;
pub mod driver;
pub mod execute;
pub mod flags;
pub mod instruction;
pub mod laws;
pub mod memory;
pub mod opcode;
pub mod registers;

verus! {

/// An 8-bit value.
pub type Byte = u8;

/// A 16-bit value: an address, or the program counter.
pub type Byte2 = u16;

} // verus!
