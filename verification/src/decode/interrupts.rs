//! Interrupt and subroutine instructions, each a single fixed byte.

use crate::opcode::Opcode;
use crate::Byte;
use vstd::prelude::*;

verus! {

/// The interrupt or subroutine operation that a byte encodes, if it encodes
/// one.
pub open spec fn interrupt_operation(opcode: Byte) -> Option<Opcode> {
    if opcode == 0x00 {
        Some(Opcode::BRK)
    } else if opcode == 0x20 {
        Some(Opcode::JSR)
    } else if opcode == 0x40 {
        Some(Opcode::RTI)
    } else if opcode == 0x60 {
        Some(Opcode::RTS)
    } else {
        None
    }
}

/// Whether a byte is one of the four interrupt and subroutine opcodes.
pub fn is_interrupt_subroutine(opcode: Byte) -> (listed: bool)
    ensures
        listed == interrupt_operation(opcode) is Some,
{
    opcode == 0x00 || opcode == 0x20 || opcode == 0x40 || opcode == 0x60
}

/// The operation of one of the four interrupt and subroutine bytes.
pub fn decode_opcode_interrupt_subroutine(opcode: Byte) -> (operation: Opcode)
    requires
        interrupt_operation(opcode) is Some,
    ensures
        Some(operation) == interrupt_operation(opcode),
{
    match opcode {
        0b0000_0000 => Opcode::BRK,
        0b0010_0000 => Opcode::JSR,
        0b0100_0000 => Opcode::RTI,
        0b0110_0000 => Opcode::RTS,
        _ => unreached(),
    }
}

} // verus!
