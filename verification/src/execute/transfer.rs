//! Loads, stores and register transfers.

use crate::execute::arithmetic::with_accumulator;
use crate::execute::shifts::with_x;
use crate::execute::shifts::with_y;
use crate::memory::Memory;
use crate::registers::RegisterState;
use crate::registers::Registers;
use crate::Byte;
use crate::Byte2;
use vstd::prelude::*;

verus! {

/// Load the accumulator. Sets Z, N.
pub fn lda(value: Byte, registers: &mut Registers)
    ensures
        final(registers)@ == with_accumulator(old(registers)@, value),
{
    registers.a = value;
    registers.set_result_flags(value);
}

/// Load index register X. Sets Z, N.
pub fn ldx(value: Byte, registers: &mut Registers)
    ensures
        final(registers)@ == with_x(old(registers)@, value),
{
    registers.x = value;
    registers.set_result_flags(value);
}

/// Load index register Y. Sets Z, N.
pub fn ldy(value: Byte, registers: &mut Registers)
    ensures
        final(registers)@ == with_y(old(registers)@, value),
{
    registers.y = value;
    registers.set_result_flags(value);
}

/// Store the accumulator at `address`. No flag changes.
pub fn sta(address: Byte2, registers: &Registers, memory: &mut Memory)
    ensures
        final(memory)@ == old(memory)@.update(address as int, registers@.a),
{
    memory.write_byte(address, registers.a);
}

/// Store index register X at `address`. No flag changes.
pub fn stx(address: Byte2, registers: &Registers, memory: &mut Memory)
    ensures
        final(memory)@ == old(memory)@.update(address as int, registers@.x),
{
    memory.write_byte(address, registers.x);
}

/// Store index register Y at `address`. No flag changes.
pub fn sty(address: Byte2, registers: &Registers, memory: &mut Memory)
    ensures
        final(memory)@ == old(memory)@.update(address as int, registers@.y),
{
    memory.write_byte(address, registers.y);
}

/// Transfer A to X. Sets Z, N.
pub fn tax(registers: &mut Registers)
    ensures
        final(registers)@ == with_x(old(registers)@, old(registers)@.a),
{
    let value = registers.a;
    registers.x = value;
    registers.set_result_flags(value);
}

/// Transfer A to Y. Sets Z, N.
pub fn tay(registers: &mut Registers)
    ensures
        final(registers)@ == with_y(old(registers)@, old(registers)@.a),
{
    let value = registers.a;
    registers.y = value;
    registers.set_result_flags(value);
}

/// Transfer X to A. Sets Z, N.
pub fn txa(registers: &mut Registers)
    ensures
        final(registers)@ == with_accumulator(old(registers)@, old(registers)@.x),
{
    let value = registers.x;
    registers.a = value;
    registers.set_result_flags(value);
}

/// Transfer Y to A. Sets Z, N.
pub fn tya(registers: &mut Registers)
    ensures
        final(registers)@ == with_accumulator(old(registers)@, old(registers)@.y),
{
    let value = registers.y;
    registers.a = value;
    registers.set_result_flags(value);
}

/// Transfer the stack pointer to X. A transfer out of the stack pointer
/// changes no flag.
pub fn tsx(registers: &mut Registers)
    ensures
        final(registers)@ == (RegisterState { x: old(registers)@.s, ..old(registers)@ }),
{
    registers.x = registers.s;
}

/// Transfer X to the stack pointer. A transfer into the stack pointer
/// changes no flag.
pub fn txs(registers: &mut Registers)
    ensures
        final(registers)@ == (RegisterState { s: old(registers)@.x, ..old(registers)@ }),
{
    registers.s = registers.x;
}

} // verus!
