//! The stack, and the instructions that work through it: pushes and pulls,
//! subroutine call and return, and interrupt entry and return.

use crate::alu::decremented;
use crate::alu::incremented;
use crate::execute::arithmetic::with_accumulator;
use crate::execute::Machine;
use crate::flags::pulled_flags;
use crate::flags::status_byte;
use crate::flags::Flags;
use crate::memory::high_byte;
use crate::memory::low_byte;
use crate::memory::make_word;
use crate::memory::next_address;
use crate::memory::previous_address;
use crate::memory::split_word;
use crate::memory::word_at;
use crate::memory::word_of;
use crate::memory::Memory;
use crate::memory::IRQ_VECTOR;
use crate::memory::STACK_BASE;
use crate::registers::RegisterState;
use crate::registers::Registers;
use crate::Byte;
use crate::Byte2;
use vstd::prelude::*;

verus! {

/// The address in the stack page that a stack pointer designates.
pub open spec fn stack_address(s: Byte) -> Byte2 {
    (STACK_BASE + s) as Byte2
}

/// The machine after a push: the value is written where the stack pointer
/// points, then the stack pointer goes down by one, `0x00` going to `0xFF`.
pub open spec fn after_push(before: Machine, value: Byte) -> Machine {
    Machine {
        registers: RegisterState { s: decremented(before.registers.s), ..before.registers },
        memory: before.memory.update(stack_address(before.registers.s) as int, value),
    }
}

/// The byte that a pull reads: the one above the stack pointer.
pub open spec fn top_of_stack(before: Machine) -> Byte {
    before.memory[stack_address(incremented(before.registers.s)) as int]
}

/// The registers after a pull: the stack pointer goes up by one, `0xFF`
/// going to `0x00`.
pub open spec fn after_pull(registers: RegisterState) -> RegisterState {
    RegisterState { s: incremented(registers.s), ..registers }
}

/// The machine after a push of a 16-bit value, high byte first.
pub open spec fn after_push_word(before: Machine, word: Byte2) -> Machine {
    after_push(after_push(before, high_byte(word)), low_byte(word))
}

/// The 16-bit value that two pulls read, low byte first.
pub open spec fn top_word_of_stack(before: Machine) -> Byte2 {
    let low = top_of_stack(before);
    let rest = Machine { registers: after_pull(before.registers), memory: before.memory };
    word_of(low, top_of_stack(rest))
}

/// `PHA`: push the accumulator.
pub open spec fn after_pha(before: Machine) -> Machine {
    after_push(before, before.registers.a)
}

/// `PLA`: pull the accumulator. Sets Z, N.
pub open spec fn after_pla(before: Machine) -> RegisterState {
    with_accumulator(after_pull(before.registers), top_of_stack(before))
}

/// `PHP`: push the status register, with the break bit set in the byte
/// pushed.
pub open spec fn after_php(before: Machine) -> Machine {
    after_push(before, status_byte(Flags { brk: true, ..before.registers.flags }))
}

/// `PLP`: pull the status register.
pub open spec fn after_plp(before: Machine) -> RegisterState {
    let pulled = after_pull(before.registers);
    RegisterState { flags: pulled_flags(pulled.flags, top_of_stack(before)), ..pulled }
}

/// `JSR`: push the address of the last byte of the call instruction, high
/// byte first, and jump.
pub open spec fn after_jsr(before: Machine, address: Byte2) -> Machine {
    let pushed = after_push_word(before, previous_address(before.registers.pc));
    Machine { registers: RegisterState { pc: address, ..pushed.registers }, memory: pushed.memory }
}

/// `RTS`: pull an address, low byte first, and continue at the address
/// after it.
pub open spec fn after_rts(before: Machine) -> RegisterState {
    RegisterState {
        pc: next_address(top_word_of_stack(before)),
        ..after_pull(after_pull(before.registers))
    }
}

/// Entry into an interrupt handler: push the program counter, high byte
/// first, then the status register, with the break bit of the byte pushed
/// telling a `BRK` from a hardware interrupt; then set interrupt disable and
/// continue at the address stored at `vector`.
pub open spec fn after_interrupt(before: Machine, vector: Byte2, software: bool) -> Machine {
    let saved = after_push(
        after_push_word(before, before.registers.pc),
        status_byte(Flags { brk: software, ..before.registers.flags }),
    );
    Machine {
        registers: RegisterState {
            pc: word_at(saved.memory, vector),
            flags: Flags { interrupt_disable: true, ..saved.registers.flags },
            ..saved.registers
        },
        memory: saved.memory,
    }
}

/// `BRK`: enter the handler whose address is at `0xFFFE`, with the break
/// bit set in the status byte pushed.
pub open spec fn after_brk(before: Machine) -> Machine {
    after_interrupt(before, IRQ_VECTOR, true)
}

/// `RTI`: pull the status register, then the program counter, low byte
/// first.
pub open spec fn after_rti(before: Machine) -> RegisterState {
    let restored = after_plp(before);
    let rest = Machine { registers: restored, memory: before.memory };
    RegisterState { pc: top_word_of_stack(rest), ..after_pull(after_pull(restored)) }
}

/// Pushes a byte on the stack.
pub fn push(value: Byte, registers: &mut Registers, memory: &mut Memory)
    ensures
        final(registers)@ == after_push(
            (Machine { registers: old(registers)@, memory: old(memory)@ }),
            value,
        ).registers,
        final(memory)@ == after_push(
            (Machine { registers: old(registers)@, memory: old(memory)@ }),
            value,
        ).memory,
{
    let address: Byte2 = STACK_BASE + registers.s as Byte2;
    memory.write_byte(address, value);
    registers.s = registers.s.wrapping_sub(1);
}

/// Pulls a byte from the stack. Memory does not change.
pub fn pull(registers: &mut Registers, memory: &Memory) -> (value: Byte)
    ensures
        value == top_of_stack((Machine { registers: old(registers)@, memory: memory@ })),
        final(registers)@ == after_pull(old(registers)@),
{
    registers.s = registers.s.wrapping_add(1);
    let address: Byte2 = STACK_BASE + registers.s as Byte2;
    memory.read_byte(address)
}

/// Pushes a 16-bit value on the stack, high byte first.
pub fn push_word(word: Byte2, registers: &mut Registers, memory: &mut Memory)
    ensures
        final(registers)@ == after_push_word(
            (Machine { registers: old(registers)@, memory: old(memory)@ }),
            word,
        ).registers,
        final(memory)@ == after_push_word(
            (Machine { registers: old(registers)@, memory: old(memory)@ }),
            word,
        ).memory,
{
    let (low, high) = split_word(word);
    push(high, registers, memory);
    push(low, registers, memory);
}

/// Pulls a 16-bit value from the stack, low byte first. Memory does not
/// change.
pub fn pull_word(registers: &mut Registers, memory: &Memory) -> (word: Byte2)
    ensures
        word == top_word_of_stack((Machine { registers: old(registers)@, memory: memory@ })),
        final(registers)@ == after_pull(after_pull(old(registers)@)),
{
    let low = pull(registers, memory);
    let high = pull(registers, memory);
    make_word(low, high)
}

/// Push accumulator.
pub fn pha(registers: &mut Registers, memory: &mut Memory)
    ensures
        final(registers)@ == after_pha(
            (Machine { registers: old(registers)@, memory: old(memory)@ }),
        ).registers,
        final(memory)@ == after_pha(
            (Machine { registers: old(registers)@, memory: old(memory)@ }),
        ).memory,
{
    let value = registers.a;
    push(value, registers, memory);
}

/// Pull accumulator.
pub fn pla(registers: &mut Registers, memory: &Memory)
    ensures
        final(registers)@ == after_pla((Machine { registers: old(registers)@, memory: memory@ })),
{
    let value = pull(registers, memory);
    registers.a = value;
    registers.set_result_flags(value);
}

/// Push processor status.
pub fn php(registers: &mut Registers, memory: &mut Memory)
    ensures
        final(registers)@ == after_php(
            (Machine { registers: old(registers)@, memory: old(memory)@ }),
        ).registers,
        final(memory)@ == after_php(
            (Machine { registers: old(registers)@, memory: old(memory)@ }),
        ).memory,
{
    let value = registers.status.to_pushed_byte(true);
    push(value, registers, memory);
}

/// Pull processor status.
pub fn plp(registers: &mut Registers, memory: &Memory)
    ensures
        final(registers)@ == after_plp((Machine { registers: old(registers)@, memory: memory@ })),
{
    let value = pull(registers, memory);
    registers.status.load_pulled_byte(value);
}

/// Jump to subroutine at `address`.
pub fn jsr(address: Byte2, registers: &mut Registers, memory: &mut Memory)
    ensures
        final(registers)@ == after_jsr(
            (Machine { registers: old(registers)@, memory: old(memory)@ }),
            address,
        ).registers,
        final(memory)@ == after_jsr(
            (Machine { registers: old(registers)@, memory: old(memory)@ }),
            address,
        ).memory,
{
    let return_address = registers.pc.wrapping_sub(1);
    push_word(return_address, registers, memory);
    registers.pc = address;
}

/// Return from subroutine.
pub fn rts(registers: &mut Registers, memory: &Memory)
    ensures
        final(registers)@ == after_rts((Machine { registers: old(registers)@, memory: memory@ })),
{
    let return_address = pull_word(registers, memory);
    registers.pc = return_address.wrapping_add(1);
}

/// Enters the interrupt handler whose address is stored at `vector`.
/// `software` says whether a `BRK` instruction asks for it.
pub fn interrupt(vector: Byte2, software: bool, registers: &mut Registers, memory: &mut Memory)
    ensures
        final(registers)@ == after_interrupt(
            (Machine { registers: old(registers)@, memory: old(memory)@ }),
            vector,
            software,
        ).registers,
        final(memory)@ == after_interrupt(
            (Machine { registers: old(registers)@, memory: old(memory)@ }),
            vector,
            software,
        ).memory,
{
    let pc = registers.pc;
    let status = registers.status.to_pushed_byte(software);
    push_word(pc, registers, memory);
    push(status, registers, memory);
    registers.status.replace_interrupt_disable(true);
    registers.pc = memory.read_word(vector);
}

/// Break.
pub fn brk(registers: &mut Registers, memory: &mut Memory)
    ensures
        final(registers)@ == after_brk(
            (Machine { registers: old(registers)@, memory: old(memory)@ }),
        ).registers,
        final(memory)@ == after_brk(
            (Machine { registers: old(registers)@, memory: old(memory)@ }),
        ).memory,
{
    interrupt(IRQ_VECTOR, true, registers, memory);
}

/// Return from interrupt.
pub fn rti(registers: &mut Registers, memory: &Memory)
    ensures
        final(registers)@ == after_rti((Machine { registers: old(registers)@, memory: memory@ })),
{
    plp(registers, memory);
    registers.pc = pull_word(registers, memory);
}

} // verus!
