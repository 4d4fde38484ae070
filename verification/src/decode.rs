//! The opcode decoder: from a byte to an operation and an addressing mode.

use crate::addressing::attached;
use crate::addressing::AddressingModeBuilder;
use crate::decode::conditionals::branch_operation;
use crate::decode::conditionals::decode_opcode_xx_y_10000;
use crate::decode::conditionals::has_branch_pattern;
use crate::decode::conditionals::is_conditional_branch;
use crate::decode::group_one::decode_addressing_mode_xxx_bbb_01;
use crate::decode::group_one::decode_opcode_aaa_xxx_01;
use crate::decode::group_one::group_one_mode;
use crate::decode::group_one::group_one_operation;
use crate::decode::group_three::decode_addressing_mode_xxx_bbb_00;
use crate::decode::group_three::decode_opcode_aaa_xxx_00;
use crate::decode::group_three::group_three_mode;
use crate::decode::group_three::group_three_operation;
use crate::decode::group_two::decode_addressing_mode_xxx_bbb_10;
use crate::decode::group_two::decode_opcode_aaa_xxx_10;
use crate::decode::group_two::group_two_mode;
use crate::decode::group_two::group_two_operation;
use crate::decode::interrupts::decode_opcode_interrupt_subroutine;
use crate::decode::interrupts::interrupt_operation;
use crate::decode::interrupts::is_interrupt_subroutine;
use crate::decode::others::decode_other_instruction;
use crate::decode::others::is_other_instruction;
use crate::decode::others::other_operation;
use crate::instruction::Instruction;
use crate::opcode::legal_pair;
use crate::opcode::AddressingModeType;
use crate::opcode::IllegalOpcode;
use crate::opcode::Opcode;
use crate::Byte;
use vstd::prelude::*;

pub mod conditionals;
pub mod group_one;
pub mod group_three;
pub mod group_two;
pub mod interrupts;
pub mod others;

verus! {

/// The three high bits of an opcode byte, which select the operation.
pub open spec fn aaa(opcode: Byte) -> int {
    opcode as int / 32
}

/// The three middle bits of an opcode byte, which select the addressing mode.
pub open spec fn bbb(opcode: Byte) -> int {
    (opcode as int / 4) % 8
}

/// The two low bits of an opcode byte, which select the group.
pub open spec fn cc(opcode: Byte) -> int {
    opcode as int % 4
}

/// What the bit fields of a byte select in the group that its two low bits
/// name, where they select both an operation and a mode.
pub open spec fn group_candidate(opcode: Byte) -> Option<(Opcode, AddressingModeType)> {
    if cc(opcode) == 1 {
        Some((group_one_operation(aaa(opcode)), group_one_mode(bbb(opcode))))
    } else if cc(opcode) == 2 {
        match group_two_mode(aaa(opcode), bbb(opcode)) {
            Some(mode) => Some((group_two_operation(aaa(opcode)), mode)),
            None => None,
        }
    } else if cc(opcode) == 0 {
        match (group_three_operation(aaa(opcode)), group_three_mode(aaa(opcode), bbb(opcode))) {
            (Some(operation), Some(mode)) => Some((operation, mode)),
            _ => None,
        }
    } else {
        None
    }
}

/// The instruction of groups one to three that a byte encodes, if any: what
/// its bit fields select, provided the operation accepts the mode.
pub open spec fn group_instruction(opcode: Byte) -> Option<(Opcode, AddressingModeType)> {
    match group_candidate(opcode) {
        Some((operation, mode)) => if legal_pair(operation, mode) {
            Some((operation, mode))
        } else {
            None
        },
        None => None,
    }
}

/// The mode of an interrupt or subroutine operation: `JSR` takes an
/// address, the other three take nothing.
pub open spec fn interrupt_mode(operation: Opcode) -> AddressingModeType {
    if operation == Opcode::JSR {
        AddressingModeType::Absolute
    } else {
        AddressingModeType::Implied
    }
}

/// The operation and addressing mode that a byte encodes, or `None` for a
/// byte that encodes no instruction. The byte is tried against the three
/// groups, then the branch pattern, then the two tables of fixed bytes.
pub open spec fn classify(opcode: Byte) -> Option<(Opcode, AddressingModeType)> {
    if group_instruction(opcode) is Some {
        group_instruction(opcode)
    } else if is_conditional_branch(opcode) {
        Some((branch_operation(aaa(opcode)), AddressingModeType::Relative))
    } else if interrupt_operation(opcode) is Some {
        Some((interrupt_operation(opcode)->0, interrupt_mode(interrupt_operation(opcode)->0)))
    } else if other_operation(opcode) is Some {
        Some((other_operation(opcode)->0, AddressingModeType::Implied))
    } else {
        None
    }
}

/// Whether a byte encodes an instruction.
pub open spec fn is_legal_opcode(opcode: Byte) -> bool {
    classify(opcode) is Some
}

/// What the bit fields of a byte select in its group; see
/// [`group_candidate`].
fn decode_group(opcode: Byte) -> (candidate: Option<(Opcode, AddressingModeType)>)
    ensures
        candidate == group_candidate(opcode),
{
    let high = opcode / 32;
    let middle = (opcode / 4) % 8;
    let low = opcode % 4;
    if low == 1 {
        Some((decode_opcode_aaa_xxx_01(opcode), decode_addressing_mode_xxx_bbb_01(opcode)))
    } else if low == 2 {
        if middle == 4 || middle == 6 {
            None
        } else {
            Some((decode_opcode_aaa_xxx_10(opcode), decode_addressing_mode_xxx_bbb_10(opcode)))
        }
    } else if low == 0 {
        if high == 0 || middle == 2 || middle == 4 || middle == 6 {
            None
        } else {
            Some((decode_opcode_aaa_xxx_00(opcode), decode_addressing_mode_xxx_bbb_00(opcode)))
        }
    } else {
        None
    }
}

/// The operation and addressing mode that a byte encodes, or `None` for a
/// byte that encodes no instruction.
pub fn decode_pair(opcode: Byte) -> (pair: Option<(Opcode, AddressingModeType)>)
    ensures
        pair == classify(opcode),
        pair matches Some((operation, mode)) ==> legal_pair(operation, mode),
{
    if let Some((operation, mode)) = decode_group(opcode) {
        if operation.accepts(mode) {
            return Some((operation, mode));
        }
    }
    if has_branch_pattern(opcode) {
        return Some((decode_opcode_xx_y_10000(opcode), AddressingModeType::Relative));
    }
    if is_interrupt_subroutine(opcode) {
        let operation = decode_opcode_interrupt_subroutine(opcode);
        let mode = if operation == Opcode::JSR {
            AddressingModeType::Absolute
        } else {
            AddressingModeType::Implied
        };
        return Some((operation, mode));
    }
    if is_other_instruction(opcode) {
        return Some((decode_other_instruction(opcode), AddressingModeType::Implied));
    }
    None
}

/// Decodes an opcode byte. A byte that encodes an instruction gives that
/// instruction, with a zero operand until the bytes that follow are
/// attached; any other byte gives `IllegalOpcode` with the byte.
pub fn decode(byte: Byte) -> (result: Result<Instruction, IllegalOpcode>)
    ensures
        match classify(byte) {
            Some((operation, mode)) => result matches Ok(instruction) && instruction.operation()
                == operation && instruction.operand() == attached(mode, 0, 0),
            None => result == Err::<Instruction, IllegalOpcode>(IllegalOpcode(byte)),
        },
        result matches Ok(instruction) ==> instruction.well_formed(),
{
    match decode_pair(byte) {
        Some((operation, mode)) => {
            let operand = AddressingModeBuilder::new(mode).build(0, 0);
            match Instruction::new(operation, operand) {
                Some(instruction) => Ok(instruction),
                None => unreached(),
            }
        },
        None => Err(IllegalOpcode(byte)),
    }
}

/// Every byte falls in exactly one class or in none: an instruction of the
/// three groups is neither a branch nor in either table, a branch is in
/// neither table, and the two tables share no byte.
pub proof fn lemma_classes_are_disjoint(opcode: Byte)
    ensures
        group_instruction(opcode) is Some ==> !is_conditional_branch(opcode)
            && interrupt_operation(opcode) is None && other_operation(opcode) is None,
        is_conditional_branch(opcode) ==> interrupt_operation(opcode) is None && other_operation(
            opcode,
        ) is None,
        interrupt_operation(opcode) is Some ==> other_operation(opcode) is None,
{
}

/// Whatever a byte decodes to, the operation accepts the addressing mode.
pub proof fn lemma_decoded_pair_is_legal(opcode: Byte)
    ensures
        classify(opcode) matches Some((operation, mode)) ==> legal_pair(operation, mode),
{
}

} // verus!
