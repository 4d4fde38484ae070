//! Shifts, rotates, increments and decrements.

use crate::alu::decremented;
use crate::alu::incremented;
use crate::alu::rotate_left;
use crate::alu::rotate_right;
use crate::alu::rotated_left;
use crate::alu::rotated_right;
use crate::alu::shift_left;
use crate::alu::shift_right;
use crate::alu::shifted_left;
use crate::alu::shifted_right;
use crate::alu::Shifted;
use crate::execute::Machine;
use crate::flags::Flags;
use crate::memory::Memory;
use crate::registers::result_flags;
use crate::registers::RegisterState;
use crate::registers::Registers;
use crate::Byte;
use crate::Byte2;
use vstd::prelude::*;

verus! {

/// The byte that a shift works on: the one at the address, or the
/// accumulator where there is no address.
pub open spec fn shift_operand(target: Option<Byte2>, before: Machine) -> Byte {
    match target {
        Some(address) => before.memory[address as int],
        None => before.registers.a,
    }
}

/// The machine after a shift: the shifted byte goes back where the operand
/// came from, C takes the bit that left, Z and N follow the shifted byte.
pub open spec fn with_shift(target: Option<Byte2>, before: Machine, shifted: Shifted) -> Machine {
    let flags = result_flags(
        Flags { carry: shifted.carry, ..before.registers.flags },
        shifted.value,
    );
    match target {
        Some(address) => Machine {
            registers: RegisterState { flags, ..before.registers },
            memory: before.memory.update(address as int, shifted.value),
        },
        None => Machine {
            registers: RegisterState { a: shifted.value, flags, ..before.registers },
            memory: before.memory,
        },
    }
}

/// `ASL`: shift left, zero into bit 0, bit 7 into C.
pub open spec fn after_asl(target: Option<Byte2>, before: Machine) -> Machine {
    with_shift(target, before, shifted_left(shift_operand(target, before)))
}

/// `LSR`: shift right, zero into bit 7, bit 0 into C.
pub open spec fn after_lsr(target: Option<Byte2>, before: Machine) -> Machine {
    with_shift(target, before, shifted_right(shift_operand(target, before)))
}

/// `ROL`: rotate left, C into bit 0, bit 7 into C.
pub open spec fn after_rol(target: Option<Byte2>, before: Machine) -> Machine {
    with_shift(
        target,
        before,
        rotated_left(shift_operand(target, before), before.registers.flags.carry),
    )
}

/// `ROR`: rotate right, C into bit 7, bit 0 into C.
pub open spec fn after_ror(target: Option<Byte2>, before: Machine) -> Machine {
    with_shift(
        target,
        before,
        rotated_right(shift_operand(target, before), before.registers.flags.carry),
    )
}

/// The machine after `result` is stored at `address` and Z and N are set
/// from it.
pub open spec fn with_memory_result(before: Machine, address: Byte2, result: Byte) -> Machine {
    Machine {
        registers: RegisterState {
            flags: result_flags(before.registers.flags, result),
            ..before.registers
        },
        memory: before.memory.update(address as int, result),
    }
}

/// `INC`: the byte at the address plus one, wrapping. Sets Z, N.
pub open spec fn after_inc(before: Machine, address: Byte2) -> Machine {
    with_memory_result(before, address, incremented(before.memory[address as int]))
}

/// `DEC`: the byte at the address minus one, wrapping. Sets Z, N.
pub open spec fn after_dec(before: Machine, address: Byte2) -> Machine {
    with_memory_result(before, address, decremented(before.memory[address as int]))
}

/// The registers after `result` is put in X and Z and N are set from it.
pub open spec fn with_x(registers: RegisterState, result: Byte) -> RegisterState {
    RegisterState { x: result, flags: result_flags(registers.flags, result), ..registers }
}

/// The registers after `result` is put in Y and Z and N are set from it.
pub open spec fn with_y(registers: RegisterState, result: Byte) -> RegisterState {
    RegisterState { y: result, flags: result_flags(registers.flags, result), ..registers }
}

/// Reads the operand of a shift.
fn read_shift_operand(target: Option<Byte2>, registers: &Registers, memory: &Memory) -> (byte: Byte)
    ensures
        byte == shift_operand(target, (Machine { registers: registers@, memory: memory@ })),
{
    match target {
        Some(address) => memory.read_byte(address),
        None => registers.a,
    }
}

/// Writes the result of a shift back and sets C, Z and N.
fn write_shift_result(
    target: Option<Byte2>,
    shifted: Shifted,
    registers: &mut Registers,
    memory: &mut Memory,
)
    ensures
        final(registers)@ == with_shift(
            target,
            (Machine { registers: old(registers)@, memory: old(memory)@ }),
            shifted,
        ).registers,
        final(memory)@ == with_shift(
            target,
            (Machine { registers: old(registers)@, memory: old(memory)@ }),
            shifted,
        ).memory,
{
    match target {
        Some(address) => memory.write_byte(address, shifted.value),
        None => {
            registers.a = shifted.value;
        },
    }
    registers.status.replace_carry(shifted.carry);
    registers.set_result_flags(shifted.value);
}

/// Arithmetic shift left, of the byte at `target` or of the accumulator.
pub fn asl(target: Option<Byte2>, registers: &mut Registers, memory: &mut Memory)
    ensures
        final(registers)@ == after_asl(
            target,
            (Machine { registers: old(registers)@, memory: old(memory)@ }),
        ).registers,
        final(memory)@ == after_asl(
            target,
            (Machine { registers: old(registers)@, memory: old(memory)@ }),
        ).memory,
{
    let shifted = shift_left(read_shift_operand(target, registers, memory));
    write_shift_result(target, shifted, registers, memory);
}

/// Logical shift right, of the byte at `target` or of the accumulator.
pub fn lsr(target: Option<Byte2>, registers: &mut Registers, memory: &mut Memory)
    ensures
        final(registers)@ == after_lsr(
            target,
            (Machine { registers: old(registers)@, memory: old(memory)@ }),
        ).registers,
        final(memory)@ == after_lsr(
            target,
            (Machine { registers: old(registers)@, memory: old(memory)@ }),
        ).memory,
{
    let shifted = shift_right(read_shift_operand(target, registers, memory));
    write_shift_result(target, shifted, registers, memory);
}

/// Rotate left through carry, of the byte at `target` or of the
/// accumulator.
pub fn rol(target: Option<Byte2>, registers: &mut Registers, memory: &mut Memory)
    ensures
        final(registers)@ == after_rol(
            target,
            (Machine { registers: old(registers)@, memory: old(memory)@ }),
        ).registers,
        final(memory)@ == after_rol(
            target,
            (Machine { registers: old(registers)@, memory: old(memory)@ }),
        ).memory,
{
    let carry = registers.status.get_carry();
    let rotated = rotate_left(read_shift_operand(target, registers, memory), carry);
    write_shift_result(target, rotated, registers, memory);
}

/// Rotate right through carry, of the byte at `target` or of the
/// accumulator.
pub fn ror(target: Option<Byte2>, registers: &mut Registers, memory: &mut Memory)
    ensures
        final(registers)@ == after_ror(
            target,
            (Machine { registers: old(registers)@, memory: old(memory)@ }),
        ).registers,
        final(memory)@ == after_ror(
            target,
            (Machine { registers: old(registers)@, memory: old(memory)@ }),
        ).memory,
{
    let carry = registers.status.get_carry();
    let rotated = rotate_right(read_shift_operand(target, registers, memory), carry);
    write_shift_result(target, rotated, registers, memory);
}

/// Increment the byte at `address`.
pub fn inc(address: Byte2, registers: &mut Registers, memory: &mut Memory)
    ensures
        final(registers)@ == after_inc(
            (Machine { registers: old(registers)@, memory: old(memory)@ }),
            address,
        ).registers,
        final(memory)@ == after_inc(
            (Machine { registers: old(registers)@, memory: old(memory)@ }),
            address,
        ).memory,
{
    let result = memory.read_byte(address).wrapping_add(1);
    memory.write_byte(address, result);
    registers.set_result_flags(result);
}

/// Decrement the byte at `address`.
pub fn dec(address: Byte2, registers: &mut Registers, memory: &mut Memory)
    ensures
        final(registers)@ == after_dec(
            (Machine { registers: old(registers)@, memory: old(memory)@ }),
            address,
        ).registers,
        final(memory)@ == after_dec(
            (Machine { registers: old(registers)@, memory: old(memory)@ }),
            address,
        ).memory,
{
    let result = memory.read_byte(address).wrapping_sub(1);
    memory.write_byte(address, result);
    registers.set_result_flags(result);
}

/// Increment X.
pub fn inx(registers: &mut Registers)
    ensures
        final(registers)@ == with_x(old(registers)@, incremented(old(registers)@.x)),
{
    let result = registers.x.wrapping_add(1);
    registers.x = result;
    registers.set_result_flags(result);
}

/// Increment Y.
pub fn iny(registers: &mut Registers)
    ensures
        final(registers)@ == with_y(old(registers)@, incremented(old(registers)@.y)),
{
    let result = registers.y.wrapping_add(1);
    registers.y = result;
    registers.set_result_flags(result);
}

/// Decrement X.
pub fn dex(registers: &mut Registers)
    ensures
        final(registers)@ == with_x(old(registers)@, decremented(old(registers)@.x)),
{
    let result = registers.x.wrapping_sub(1);
    registers.x = result;
    registers.set_result_flags(result);
}

/// Decrement Y.
pub fn dey(registers: &mut Registers)
    ensures
        final(registers)@ == with_y(old(registers)@, decremented(old(registers)@.y)),
{
    let result = registers.y.wrapping_sub(1);
    registers.y = result;
    registers.set_result_flags(result);
}

} // verus!
