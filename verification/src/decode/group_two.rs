//! "Group two" instructions: opcode bytes of the form `aaabbb10`.

use crate::decode::aaa;
use crate::decode::bbb;
use crate::decode::cc;
use crate::opcode::AddressingModeType;
use crate::opcode::Opcode;
use crate::Byte;
use vstd::prelude::*;

verus! {

/// The group-two operation that the three high bits select.
pub open spec fn group_two_operation(aaa: int) -> Opcode {
    if aaa == 0 {
        Opcode::ASL
    } else if aaa == 1 {
        Opcode::ROL
    } else if aaa == 2 {
        Opcode::LSR
    } else if aaa == 3 {
        Opcode::ROR
    } else if aaa == 4 {
        Opcode::STX
    } else if aaa == 5 {
        Opcode::LDX
    } else if aaa == 6 {
        Opcode::DEC
    } else {
        Opcode::INC
    }
}

/// Whether the three high bits select `STX` or `LDX`, which index by Y where
/// the other operations of the group index by X.
pub open spec fn indexes_by_y(aaa: int) -> bool {
    aaa == 4 || aaa == 5
}

/// The group-two addressing mode that the three middle bits select, if they
/// select one. Two of the eight slots are empty.
pub open spec fn group_two_mode(aaa: int, bbb: int) -> Option<AddressingModeType> {
    if bbb == 0 {
        Some(AddressingModeType::Immediate)
    } else if bbb == 1 {
        Some(AddressingModeType::ZeroPage)
    } else if bbb == 2 {
        Some(AddressingModeType::Accumulator)
    } else if bbb == 3 {
        Some(AddressingModeType::Absolute)
    } else if bbb == 5 {
        if indexes_by_y(aaa) {
            Some(AddressingModeType::ZeroPageIndexedWithY)
        } else {
            Some(AddressingModeType::ZeroPageIndexedWithX)
        }
    } else if bbb == 7 {
        if indexes_by_y(aaa) {
            Some(AddressingModeType::AbsoluteIndexedWithY)
        } else {
            Some(AddressingModeType::AbsoluteIndexedWithX)
        }
    } else {
        None
    }
}

/// The operation of a byte whose two low bits are `10`.
pub fn decode_opcode_aaa_xxx_10(opcode: Byte) -> (operation: Opcode)
    requires
        cc(opcode) == 2,
    ensures
        operation == group_two_operation(aaa(opcode)),
{
    assert(opcode & 0b111_000_11 == (opcode / 32) * 32 + opcode % 4) by (bit_vector);
    match opcode & 0b111_000_11 {
        0b000_000_10 => Opcode::ASL,
        0b001_000_10 => Opcode::ROL,
        0b010_000_10 => Opcode::LSR,
        0b011_000_10 => Opcode::ROR,
        0b100_000_10 => Opcode::STX,
        0b101_000_10 => Opcode::LDX,
        0b110_000_10 => Opcode::DEC,
        0b111_000_10 => Opcode::INC,
        _ => unreached(),
    }
}

/// The addressing mode of a byte whose two low bits are `10` and whose
/// middle bits name a mode of the group.
pub fn decode_addressing_mode_xxx_bbb_10(opcode: Byte) -> (mode: AddressingModeType)
    requires
        cc(opcode) == 2,
        group_two_mode(aaa(opcode), bbb(opcode)) is Some,
    ensures
        Some(mode) == group_two_mode(aaa(opcode), bbb(opcode)),
{
    assert(opcode & 0b000_111_11 == ((opcode / 4) % 8) * 4 + opcode % 4) by (bit_vector);
    let by_y = opcode / 32 == 4 || opcode / 32 == 5;
    match opcode & 0b000_111_11 {
        0b000_000_10 => AddressingModeType::Immediate,
        0b000_001_10 => AddressingModeType::ZeroPage,
        0b000_010_10 => AddressingModeType::Accumulator,
        0b000_011_10 => AddressingModeType::Absolute,
        0b000_101_10 => if by_y {
            AddressingModeType::ZeroPageIndexedWithY
        } else {
            AddressingModeType::ZeroPageIndexedWithX
        },
        0b000_111_10 => if by_y {
            AddressingModeType::AbsoluteIndexedWithY
        } else {
            AddressingModeType::AbsoluteIndexedWithX
        },
        _ => unreached(),
    }
}

} // verus!
