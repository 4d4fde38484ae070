//! Conditional branches and jumps.

use crate::alu::branch_target;
use crate::alu::branch_to;
use crate::registers::RegisterState;
use crate::registers::Registers;
use crate::Byte;
use crate::Byte2;
use vstd::prelude::*;

verus! {

/// The registers after a branch: where it is taken, the program counter,
/// which already points past the branch, moves by the signed offset;
/// where it is not, nothing changes.
pub open spec fn after_branch(registers: RegisterState, taken: bool, offset: Byte)
    -> RegisterState {
    if taken {
        RegisterState { pc: branch_target(registers.pc, offset), ..registers }
    } else {
        registers
    }
}

/// Moves the program counter by `offset` if `taken`.
fn branch_if(taken: bool, offset: Byte, registers: &mut Registers)
    ensures
        final(registers)@ == after_branch(old(registers)@, taken, offset),
{
    if taken {
        registers.pc = branch_to(registers.pc, offset);
    }
}

/// Branch on result plus: taken when N is clear.
pub fn bpl(offset: Byte, registers: &mut Registers)
    ensures
        final(registers)@ == after_branch(old(registers)@, !old(registers)@.flags.negative, offset),
{
    let taken = !registers.status.get_negative();
    branch_if(taken, offset, registers);
}

/// Branch on result minus: taken when N is set.
pub fn bmi(offset: Byte, registers: &mut Registers)
    ensures
        final(registers)@ == after_branch(old(registers)@, old(registers)@.flags.negative, offset),
{
    let taken = registers.status.get_negative();
    branch_if(taken, offset, registers);
}

/// Branch on overflow clear: taken when V is clear.
pub fn bvc(offset: Byte, registers: &mut Registers)
    ensures
        final(registers)@ == after_branch(old(registers)@, !old(registers)@.flags.overflow, offset),
{
    let taken = !registers.status.get_overflow();
    branch_if(taken, offset, registers);
}

/// Branch on overflow set: taken when V is set.
pub fn bvs(offset: Byte, registers: &mut Registers)
    ensures
        final(registers)@ == after_branch(old(registers)@, old(registers)@.flags.overflow, offset),
{
    let taken = registers.status.get_overflow();
    branch_if(taken, offset, registers);
}

/// Branch on carry clear: taken when C is clear.
pub fn bcc(offset: Byte, registers: &mut Registers)
    ensures
        final(registers)@ == after_branch(old(registers)@, !old(registers)@.flags.carry, offset),
{
    let taken = !registers.status.get_carry();
    branch_if(taken, offset, registers);
}

/// Branch on carry set: taken when C is set.
pub fn bcs(offset: Byte, registers: &mut Registers)
    ensures
        final(registers)@ == after_branch(old(registers)@, old(registers)@.flags.carry, offset),
{
    let taken = registers.status.get_carry();
    branch_if(taken, offset, registers);
}

/// Branch on result not zero: taken when Z is clear.
pub fn bne(offset: Byte, registers: &mut Registers)
    ensures
        final(registers)@ == after_branch(old(registers)@, !old(registers)@.flags.zero, offset),
{
    let taken = !registers.status.get_zero();
    branch_if(taken, offset, registers);
}

/// Branch on result zero: taken when Z is set.
pub fn beq(offset: Byte, registers: &mut Registers)
    ensures
        final(registers)@ == after_branch(old(registers)@, old(registers)@.flags.zero, offset),
{
    let taken = registers.status.get_zero();
    branch_if(taken, offset, registers);
}

/// Jump: the program counter becomes `address`.
pub fn jmp(address: Byte2, registers: &mut Registers)
    ensures
        final(registers)@ == (RegisterState { pc: address, ..old(registers)@ }),
{
    registers.pc = address;
}

} // verus!
