//! "Group three" instructions: opcode bytes of the form `aaabbb00`.

use crate::decode::aaa;
use crate::decode::bbb;
use crate::decode::cc;
use crate::opcode::AddressingModeType;
use crate::opcode::Opcode;
use crate::Byte;
use vstd::prelude::*;

verus! {

/// The group-three operation that the three high bits select, if they select
/// one. The first of the eight slots is empty.
pub open spec fn group_three_operation(aaa: int) -> Option<Opcode> {
    if aaa == 1 {
        Some(Opcode::BIT)
    } else if aaa == 2 {
        Some(Opcode::JMP)
    } else if aaa == 3 {
        Some(Opcode::JMP_ABS)
    } else if aaa == 4 {
        Some(Opcode::STY)
    } else if aaa == 5 {
        Some(Opcode::LDY)
    } else if aaa == 6 {
        Some(Opcode::CPY)
    } else if aaa == 7 {
        Some(Opcode::CPX)
    } else {
        None
    }
}

/// The group-three addressing mode that the three middle bits select, if
/// they select one. Three of the eight slots are empty, and the indirect
/// jump reads its operand word as the address of a pointer.
pub open spec fn group_three_mode(aaa: int, bbb: int) -> Option<AddressingModeType> {
    if bbb == 0 {
        Some(AddressingModeType::Immediate)
    } else if bbb == 1 {
        Some(AddressingModeType::ZeroPage)
    } else if bbb == 3 {
        if aaa == 3 {
            Some(AddressingModeType::AbsoluteIndirect)
        } else {
            Some(AddressingModeType::Absolute)
        }
    } else if bbb == 5 {
        Some(AddressingModeType::ZeroPageIndexedWithX)
    } else if bbb == 7 {
        Some(AddressingModeType::AbsoluteIndexedWithX)
    } else {
        None
    }
}

/// The operation of a byte whose two low bits are `00` and whose high bits
/// name an operation of the group.
pub fn decode_opcode_aaa_xxx_00(opcode: Byte) -> (operation: Opcode)
    requires
        cc(opcode) == 0,
        group_three_operation(aaa(opcode)) is Some,
    ensures
        Some(operation) == group_three_operation(aaa(opcode)),
{
    assert(opcode & 0b111_000_11 == (opcode / 32) * 32 + opcode % 4) by (bit_vector);
    match opcode & 0b111_000_11 {
        0b001_000_00 => Opcode::BIT,
        0b010_000_00 => Opcode::JMP,
        0b011_000_00 => Opcode::JMP_ABS,
        0b100_000_00 => Opcode::STY,
        0b101_000_00 => Opcode::LDY,
        0b110_000_00 => Opcode::CPY,
        0b111_000_00 => Opcode::CPX,
        _ => unreached(),
    }
}

/// The addressing mode of a byte whose two low bits are `00` and whose
/// middle bits name a mode of the group.
pub fn decode_addressing_mode_xxx_bbb_00(opcode: Byte) -> (mode: AddressingModeType)
    requires
        cc(opcode) == 0,
        group_three_mode(aaa(opcode), bbb(opcode)) is Some,
    ensures
        Some(mode) == group_three_mode(aaa(opcode), bbb(opcode)),
{
    assert(opcode & 0b000_111_11 == ((opcode / 4) % 8) * 4 + opcode % 4) by (bit_vector);
    match opcode & 0b000_111_11 {
        0b000_000_00 => AddressingModeType::Immediate,
        0b000_001_00 => AddressingModeType::ZeroPage,
        0b000_011_00 => if opcode / 32 == 3 {
            AddressingModeType::AbsoluteIndirect
        } else {
            AddressingModeType::Absolute
        },
        0b000_101_00 => AddressingModeType::ZeroPageIndexedWithX,
        0b000_111_00 => AddressingModeType::AbsoluteIndexedWithX,
        _ => unreached(),
    }
}

} // verus!
