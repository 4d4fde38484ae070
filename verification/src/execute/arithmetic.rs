//! Arithmetic, logic and comparison on the accumulator and the index
//! registers.

use crate::alu::add_with_carry;
use crate::alu::compare;
use crate::alu::compared;
use crate::alu::difference_with_borrow;
use crate::alu::subtract_with_borrow;
use crate::alu::sum_with_carry;
use crate::flags::Flags;
use crate::registers::result_flags;
use crate::registers::RegisterState;
use crate::registers::Registers;
use crate::Byte;
use vstd::prelude::*;

verus! {

/// `ADC`: the accumulator plus the value plus the carry, in binary whatever
/// the decimal flag says. Sets C, V, Z, N.
pub open spec fn after_adc(registers: RegisterState, value: Byte) -> RegisterState {
    let sum = sum_with_carry(registers.a, value, registers.flags.carry);
    RegisterState {
        a: sum.value,
        flags: result_flags(
            Flags { carry: sum.carry, overflow: sum.overflow, ..registers.flags },
            sum.value,
        ),
        ..registers
    }
}

/// `SBC`: the accumulator minus the value minus the borrow, in binary
/// whatever the decimal flag says. Sets C, V, Z, N.
pub open spec fn after_sbc(registers: RegisterState, value: Byte) -> RegisterState {
    let difference = difference_with_borrow(registers.a, value, registers.flags.carry);
    RegisterState {
        a: difference.value,
        flags: result_flags(
            Flags { carry: difference.carry, overflow: difference.overflow, ..registers.flags },
            difference.value,
        ),
        ..registers
    }
}

/// An operation that leaves `result` in the accumulator and sets Z and N
/// from it.
pub open spec fn with_accumulator(registers: RegisterState, result: Byte) -> RegisterState {
    RegisterState { a: result, flags: result_flags(registers.flags, result), ..registers }
}

/// `AND`: the accumulator and the value, bit by bit. Sets Z, N.
pub open spec fn after_and(registers: RegisterState, value: Byte) -> RegisterState {
    with_accumulator(registers, registers.a & value)
}

/// `ORA`: the accumulator or the value, bit by bit. Sets Z, N.
pub open spec fn after_ora(registers: RegisterState, value: Byte) -> RegisterState {
    with_accumulator(registers, registers.a | value)
}

/// `EOR`: the accumulator exclusive-or the value, bit by bit. Sets Z, N.
pub open spec fn after_eor(registers: RegisterState, value: Byte) -> RegisterState {
    with_accumulator(registers, registers.a ^ value)
}

/// `BIT`: Z says whether the accumulator and the value share no bit; N and
/// V are bits 7 and 6 of the value. The accumulator stays.
pub open spec fn after_bit(registers: RegisterState, value: Byte) -> RegisterState {
    RegisterState {
        flags: Flags {
            zero: registers.a & value == 0,
            negative: value >= 0x80,
            overflow: (value / 0x40) % 2 == 1,
            ..registers.flags
        },
        ..registers
    }
}

/// A comparison of `register` with the value: sets C, Z, N and changes no
/// register.
pub open spec fn after_compare(registers: RegisterState, register: Byte, value: Byte)
    -> RegisterState {
    let outcome = compared(register, value);
    RegisterState {
        flags: Flags {
            carry: outcome.carry,
            zero: outcome.zero,
            negative: outcome.negative,
            ..registers.flags
        },
        ..registers
    }
}

/// Add with carry.
pub fn adc(value: Byte, registers: &mut Registers)
    ensures
        final(registers)@ == after_adc(old(registers)@, value),
{
    let carry = registers.status.get_carry();
    let sum = add_with_carry(registers.a, value, carry);
    registers.a = sum.value;
    registers.status.replace_carry(sum.carry);
    registers.status.replace_overflow(sum.overflow);
    registers.set_result_flags(sum.value);
}

/// Subtract with borrow.
pub fn sbc(value: Byte, registers: &mut Registers)
    ensures
        final(registers)@ == after_sbc(old(registers)@, value),
{
    let carry = registers.status.get_carry();
    let difference = subtract_with_borrow(registers.a, value, carry);
    registers.a = difference.value;
    registers.status.replace_carry(difference.carry);
    registers.status.replace_overflow(difference.overflow);
    registers.set_result_flags(difference.value);
}

/// Logical AND.
pub fn and(value: Byte, registers: &mut Registers)
    ensures
        final(registers)@ == after_and(old(registers)@, value),
{
    let result = registers.a & value;
    registers.a = result;
    registers.set_result_flags(result);
}

/// Logical inclusive OR.
pub fn ora(value: Byte, registers: &mut Registers)
    ensures
        final(registers)@ == after_ora(old(registers)@, value),
{
    let result = registers.a | value;
    registers.a = result;
    registers.set_result_flags(result);
}

/// Exclusive OR.
pub fn eor(value: Byte, registers: &mut Registers)
    ensures
        final(registers)@ == after_eor(old(registers)@, value),
{
    let result = registers.a ^ value;
    registers.a = result;
    registers.set_result_flags(result);
}

/// Bit test.
pub fn bit(value: Byte, registers: &mut Registers)
    ensures
        final(registers)@ == after_bit(old(registers)@, value),
{
    assert((value & 0x40 != 0) == ((value / 0x40) % 2 == 1)) by (bit_vector);
    let shared = registers.a & value;
    registers.status.replace_zero(shared == 0);
    registers.status.replace_negative(value >= 0x80);
    registers.status.replace_overflow(value & 0x40 != 0);
}

/// Sets C, Z and N from a comparison of `register` with `value`.
fn compare_register(register: Byte, value: Byte, registers: &mut Registers)
    ensures
        final(registers)@ == after_compare(old(registers)@, register, value),
{
    let outcome = compare(register, value);
    registers.status.replace_carry(outcome.carry);
    registers.status.replace_zero(outcome.zero);
    registers.status.replace_negative(outcome.negative);
}

/// Compare with the accumulator.
pub fn cmp(value: Byte, registers: &mut Registers)
    ensures
        final(registers)@ == after_compare(old(registers)@, old(registers)@.a, value),
{
    compare_register(registers.a, value, registers);
}

/// Compare with index register X.
pub fn cpx(value: Byte, registers: &mut Registers)
    ensures
        final(registers)@ == after_compare(old(registers)@, old(registers)@.x, value),
{
    compare_register(registers.x, value, registers);
}

/// Compare with index register Y.
pub fn cpy(value: Byte, registers: &mut Registers)
    ensures
        final(registers)@ == after_compare(old(registers)@, old(registers)@.y, value),
{
    compare_register(registers.y, value, registers);
}

} // verus!
