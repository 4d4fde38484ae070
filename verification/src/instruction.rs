//! An instruction: an operation paired with an addressing mode that the
//! operation accepts.

use crate::addressing::attached;
use crate::addressing::mode_of;
use crate::addressing::AddressingModeBuilder;
use crate::addressing::AddressingValue;
use crate::opcode::legal_pair;
use crate::opcode::Opcode;
use crate::Byte;
use vstd::prelude::*;

verus! {

/// One operation with its operand. Only legal pairs exist: there is no way
/// to make, say, a store with an immediate operand.
#[derive(Clone, Copy, Debug, PartialEq, Eq, Structural)]
pub struct Instruction {
    opcode: Opcode,
    addressing_mode: AddressingValue,
}

impl Instruction {
    #[verifier::type_invariant]
    spec fn pairs_legally(self) -> bool {
        legal_pair(self.opcode, mode_of(self.addressing_mode))
    }

    /// The operation.
    pub closed spec fn operation(self) -> Opcode {
        self.opcode
    }

    /// The addressing mode with its operand.
    pub closed spec fn operand(self) -> AddressingValue {
        self.addressing_mode
    }

    /// Whether the operation accepts the addressing mode. Every instruction
    /// that running code holds is well formed.
    pub open spec fn well_formed(self) -> bool {
        legal_pair(self.operation(), mode_of(self.operand()))
    }

    /// Pairs an operation with an operand, if the architecture has such an
    /// instruction.
    pub fn new(opcode: Opcode, addressing_mode: AddressingValue) -> (instruction: Option<
        Instruction,
    >)
        ensures
            instruction is Some <==> legal_pair(opcode, mode_of(addressing_mode)),
            instruction matches Some(made) ==> made.operation() == opcode && made.operand()
                == addressing_mode && made.well_formed(),
    {
        if opcode.accepts(addressing_mode.kind()) {
            Some(Instruction { opcode, addressing_mode })
        } else {
            None
        }
    }

    /// The operation.
    pub fn opcode(&self) -> (opcode: Opcode)
        ensures
            opcode == self.operation(),
    {
        self.opcode
    }

    /// The addressing mode with its operand.
    pub fn addressing_mode(&self) -> (addressing_mode: AddressingValue)
        ensures
            addressing_mode == self.operand(),
            self.well_formed(),
    {
        proof {
            use_type_invariant(self);
        }
        self.addressing_mode
    }

    /// The same instruction with other operand bytes: `low` is the byte
    /// after the opcode, `high` the one after that.
    pub fn with_operand(&self, low: Byte, high: Byte) -> (instruction: Instruction)
        ensures
            instruction.operation() == self.operation(),
            instruction.operand() == attached(mode_of(self.operand()), low, high),
            instruction.well_formed(),
    {
        proof {
            use_type_invariant(self);
        }
        let addressing_mode = AddressingModeBuilder::new(self.addressing_mode.kind()).build(
            low,
            high,
        );
        Instruction { opcode: self.opcode, addressing_mode }
    }
}

} // verus!
