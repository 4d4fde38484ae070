//! Conditional branches: opcode bytes of the form `xxy10000`.

use crate::decode::aaa;
use crate::opcode::Opcode;
use crate::Byte;
use vstd::prelude::*;

verus! {

/// Whether a byte has the shape `xxy10000` of a conditional branch.
pub open spec fn is_conditional_branch(opcode: Byte) -> bool {
    opcode as int % 32 == 16
}

/// The branch that the three high bits select: two bits for the flag
/// tested, one for the value it is compared with.
pub open spec fn branch_operation(xxy: int) -> Opcode {
    if xxy == 0 {
        Opcode::BPL
    } else if xxy == 1 {
        Opcode::BMI
    } else if xxy == 2 {
        Opcode::BVC
    } else if xxy == 3 {
        Opcode::BVS
    } else if xxy == 4 {
        Opcode::BCC
    } else if xxy == 5 {
        Opcode::BCS
    } else if xxy == 6 {
        Opcode::BNE
    } else {
        Opcode::BEQ
    }
}

/// Whether a byte has the shape `xxy10000` of a conditional branch: its low
/// five bits are `10000`.
pub fn has_branch_pattern(opcode: Byte) -> (matches: bool)
    ensures
        matches == is_conditional_branch(opcode),
{
    assert(opcode & 0b000_11111 == opcode % 32) by (bit_vector);
    opcode & 0b000_11111 == 0b000_10000
}

/// The branch that a byte of the shape `xxy10000` selects by its three high
/// bits. A byte of any other shape encodes no branch and is not taken here.
pub fn decode_opcode_xx_y_10000(opcode: Byte) -> (operation: Opcode)
    requires
        is_conditional_branch(opcode),
    ensures
        operation == branch_operation(aaa(opcode)),
{
    assert(opcode & 0b111_1_0000 == (opcode / 32) * 32 + ((opcode / 16) % 2) * 16)
        by (bit_vector);
    match opcode & 0b111_1_0000 {
        0b000_10000 => Opcode::BPL,
        0b001_10000 => Opcode::BMI,
        0b010_10000 => Opcode::BVC,
        0b011_10000 => Opcode::BVS,
        0b100_10000 => Opcode::BCC,
        0b101_10000 => Opcode::BCS,
        0b110_10000 => Opcode::BNE,
        0b111_10000 => Opcode::BEQ,
        _ => unreached(),
    }
}

} // verus!
