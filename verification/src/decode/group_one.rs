//! "Group one" instructions: opcode bytes of the form `aaabbb01`.

use crate::decode::aaa;
use crate::decode::bbb;
use crate::decode::cc;
use crate::opcode::AddressingModeType;
use crate::opcode::Opcode;
use crate::Byte;
use vstd::prelude::*;

verus! {

/// The group-one operation that the three high bits select.
pub open spec fn group_one_operation(aaa: int) -> Opcode {
    if aaa == 0 {
        Opcode::ORA
    } else if aaa == 1 {
        Opcode::AND
    } else if aaa == 2 {
        Opcode::EOR
    } else if aaa == 3 {
        Opcode::ADC
    } else if aaa == 4 {
        Opcode::STA
    } else if aaa == 5 {
        Opcode::LDA
    } else if aaa == 6 {
        Opcode::CMP
    } else {
        Opcode::SBC
    }
}

/// The group-one addressing mode that the three middle bits select.
pub open spec fn group_one_mode(bbb: int) -> AddressingModeType {
    if bbb == 0 {
        AddressingModeType::IndexedIndirect
    } else if bbb == 1 {
        AddressingModeType::ZeroPage
    } else if bbb == 2 {
        AddressingModeType::Immediate
    } else if bbb == 3 {
        AddressingModeType::Absolute
    } else if bbb == 4 {
        AddressingModeType::IndirectIndexed
    } else if bbb == 5 {
        AddressingModeType::ZeroPageIndexedWithX
    } else if bbb == 6 {
        AddressingModeType::AbsoluteIndexedWithY
    } else {
        AddressingModeType::AbsoluteIndexedWithX
    }
}

/// The operation of a byte whose two low bits are `01`.
pub fn decode_opcode_aaa_xxx_01(opcode: Byte) -> (operation: Opcode)
    requires
        cc(opcode) == 1,
    ensures
        operation == group_one_operation(aaa(opcode)),
{
    assert(opcode & 0b111_000_11 == (opcode / 32) * 32 + opcode % 4) by (bit_vector);
    match opcode & 0b111_000_11 {
        0b000_000_01 => Opcode::ORA,
        0b001_000_01 => Opcode::AND,
        0b010_000_01 => Opcode::EOR,
        0b011_000_01 => Opcode::ADC,
        0b100_000_01 => Opcode::STA,
        0b101_000_01 => Opcode::LDA,
        0b110_000_01 => Opcode::CMP,
        0b111_000_01 => Opcode::SBC,
        _ => unreached(),
    }
}

/// The addressing mode of a byte whose two low bits are `01`.
pub fn decode_addressing_mode_xxx_bbb_01(opcode: Byte) -> (mode: AddressingModeType)
    requires
        cc(opcode) == 1,
    ensures
        mode == group_one_mode(bbb(opcode)),
{
    assert(opcode & 0b000_111_11 == ((opcode / 4) % 8) * 4 + opcode % 4) by (bit_vector);
    match opcode & 0b000_111_11 {
        0b000_000_01 => AddressingModeType::IndexedIndirect,
        0b000_001_01 => AddressingModeType::ZeroPage,
        0b000_010_01 => AddressingModeType::Immediate,
        0b000_011_01 => AddressingModeType::Absolute,
        0b000_100_01 => AddressingModeType::IndirectIndexed,
        0b000_101_01 => AddressingModeType::ZeroPageIndexedWithX,
        0b000_110_01 => AddressingModeType::AbsoluteIndexedWithY,
        0b000_111_01 => AddressingModeType::AbsoluteIndexedWithX,
        _ => unreached(),
    }
}

} // verus!
