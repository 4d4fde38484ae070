//! The remaining single-byte instructions: stack operations, register
//! transfers, flag changes and `NOP`.

use crate::opcode::Opcode;
use crate::Byte;
use vstd::prelude::*;

verus! {

/// The single-byte operation that a byte encodes, if it encodes one.
pub open spec fn other_operation(opcode: Byte) -> Option<Opcode> {
    if opcode == 0x08 {
        Some(Opcode::PHP)
    } else if opcode == 0x28 {
        Some(Opcode::PLP)
    } else if opcode == 0x48 {
        Some(Opcode::PHA)
    } else if opcode == 0x68 {
        Some(Opcode::PLA)
    } else if opcode == 0x88 {
        Some(Opcode::DEY)
    } else if opcode == 0xA8 {
        Some(Opcode::TAY)
    } else if opcode == 0xC8 {
        Some(Opcode::INY)
    } else if opcode == 0xE8 {
        Some(Opcode::INX)
    } else if opcode == 0x18 {
        Some(Opcode::CLC)
    } else if opcode == 0x38 {
        Some(Opcode::SEC)
    } else if opcode == 0x58 {
        Some(Opcode::CLI)
    } else if opcode == 0x78 {
        Some(Opcode::SEI)
    } else if opcode == 0x98 {
        Some(Opcode::TYA)
    } else if opcode == 0xB8 {
        Some(Opcode::CLV)
    } else if opcode == 0xD8 {
        Some(Opcode::CLD)
    } else if opcode == 0xF8 {
        Some(Opcode::SED)
    } else if opcode == 0x8A {
        Some(Opcode::TXA)
    } else if opcode == 0x9A {
        Some(Opcode::TXS)
    } else if opcode == 0xAA {
        Some(Opcode::TAX)
    } else if opcode == 0xBA {
        Some(Opcode::TSX)
    } else if opcode == 0xCA {
        Some(Opcode::DEX)
    } else if opcode == 0xEA {
        Some(Opcode::NOP)
    } else {
        None
    }
}

/// Whether a byte is one of the twenty-two remaining single-byte opcodes:
/// the sixteen that end in `8`, and six of those that end in `A`.
pub fn is_other_instruction(opcode: Byte) -> (listed: bool)
    ensures
        listed == other_operation(opcode) is Some,
{
    opcode % 16 == 0x08 || opcode == 0x8A || opcode == 0x9A || opcode == 0xAA || opcode == 0xBA
        || opcode == 0xCA || opcode == 0xEA
}

/// The operation of one of the twenty-two remaining single-byte opcodes.
pub fn decode_other_instruction(opcode: Byte) -> (operation: Opcode)
    requires
        other_operation(opcode) is Some,
    ensures
        Some(operation) == other_operation(opcode),
{
    match opcode {
        0b0000_1000 => Opcode::PHP,
        0b0010_1000 => Opcode::PLP,
        0b0100_1000 => Opcode::PHA,
        0b0110_1000 => Opcode::PLA,
        0b1000_1000 => Opcode::DEY,
        0b1010_1000 => Opcode::TAY,
        0b1100_1000 => Opcode::INY,
        0b1110_1000 => Opcode::INX,
        0b0001_1000 => Opcode::CLC,
        0b0011_1000 => Opcode::SEC,
        0b0101_1000 => Opcode::CLI,
        0b0111_1000 => Opcode::SEI,
        0b1001_1000 => Opcode::TYA,
        0b1011_1000 => Opcode::CLV,
        0b1101_1000 => Opcode::CLD,
        0b1111_1000 => Opcode::SED,
        0b1000_1010 => Opcode::TXA,
        0b1001_1010 => Opcode::TXS,
        0b1010_1010 => Opcode::TAX,
        0b1011_1010 => Opcode::TSX,
        0b1100_1010 => Opcode::DEX,
        0b1110_1010 => Opcode::NOP,
        _ => unreached(),
    }
}

} // verus!
