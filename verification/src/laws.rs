//! What holds of the instruction set as a whole: where addressing, branches
//! and the stack can reach, round trips through the stack, and which
//! instructions leave memory, the program counter and each flag alone.

use crate::Byte2;
use crate::Byte;
use crate::addressing::AddressingValue;
use crate::addressing::zero_page_indexed;
use crate::alu::branch_target;
use crate::alu::decremented;
use crate::alu::incremented;
use crate::alu::signed;
use crate::execute::Machine;
use crate::execute::executed;
use crate::execute::operand_address;
use crate::execute::stack::after_brk;
use crate::execute::stack::after_jsr;
use crate::execute::stack::after_pha;
use crate::execute::stack::after_php;
use crate::execute::stack::after_pla;
use crate::execute::stack::after_plp;
use crate::execute::stack::after_pull;
use crate::execute::stack::after_push;
use crate::execute::stack::after_push_word;
use crate::execute::stack::after_rti;
use crate::execute::stack::after_rts;
use crate::execute::stack::stack_address;
use crate::execute::stack::top_of_stack;
use crate::execute::stack::top_word_of_stack;
use crate::flags::Flags;
use crate::flags::lemma_status_byte_round_trip;
use crate::flags::status_byte;
use crate::memory::MEMORY_SIZE;
use crate::memory::high_byte;
use crate::memory::low_byte;
use crate::memory::previous_address;
use crate::memory::word_of;
use crate::opcode::Opcode;
use crate::registers::RegisterState;
use vstd::prelude::*;

verus! {

/// The stack pointer always designates an address in the stack page,
/// `0x0100` to `0x01FF`.
pub proof fn lemma_stack_stays_in_its_page(s: Byte)
    ensures
        0x0100 <= stack_address(s) <= 0x01FF,
        0x0100 <= stack_address(decremented(s)) <= 0x01FF,
        0x0100 <= stack_address(incremented(s)) <= 0x01FF,
{
}

/// A zero-page address plus an index stays in the zero page.
pub proof fn lemma_zero_page_index_wraps(base: Byte, index: Byte)
    ensures
        zero_page_indexed(base, index) <= 0xFF,
        base + index <= 0xFF ==> zero_page_indexed(base, index) == base + index,
        base + index > 0xFF ==> zero_page_indexed(base, index) == base + index - 0x100,
{
}

/// A taken branch reaches from 128 bytes before to 127 bytes after the
/// instruction that follows it, modulo the size of the address space.
pub proof fn lemma_branch_range(pc: Byte2, offset: Byte)
    ensures
        -128 <= signed(offset) <= 127,
        signed(0x7F) == 127,
        signed(0x80) == -128,
        pc + signed(offset) < 0 ==> branch_target(pc, offset) == pc + signed(offset) + 0x10000,
        0 <= pc + signed(offset) <= 0xFFFF ==> branch_target(pc, offset) == pc + signed(offset),
        pc + signed(offset) > 0xFFFF ==> branch_target(pc, offset) == pc + signed(offset)
            - 0x10000,
{
}

/// A push moves the stack pointer down by one and a pull moves it up by
/// one, both wrapping inside a byte; a pull after a push reads what was
/// pushed and leaves the stack pointer where it was.
pub proof fn lemma_push_pull_round_trip(before: Machine, value: Byte)
    requires
        before.memory.len() == MEMORY_SIZE,
    ensures
        after_push(before, value).registers.s == decremented(before.registers.s),
        before.registers.s == 0 ==> after_push(before, value).registers.s == 0xFF,
        after_pull(before.registers).s == incremented(before.registers.s),
        top_of_stack(after_push(before, value)) == value,
        after_pull(after_push(before, value).registers) == before.registers,
{
}

/// `PHA` followed by `PLA` leaves the accumulator and the stack pointer as
/// they were.
pub proof fn lemma_pha_pla_round_trip(before: Machine)
    requires
        before.memory.len() == MEMORY_SIZE,
    ensures
        after_pla(after_pha(before)).a == before.registers.a,
        after_pla(after_pha(before)).s == before.registers.s,
{
}

/// `PHP` followed by `PLP` leaves every flag and the stack pointer as they
/// were.
pub proof fn lemma_php_plp_round_trip(before: Machine)
    requires
        before.memory.len() == MEMORY_SIZE,
    ensures
        after_plp(after_php(before)) == before.registers,
{
}

/// A 16-bit value pushed on the stack is what two pulls read, and the two
/// pulls leave the registers as they were before the push. A byte pushed on
/// top of the value and pulled again changes neither.
pub proof fn lemma_push_word_pull_word_round_trip(before: Machine, word: Byte2, above: Byte)
    requires
        before.memory.len() == MEMORY_SIZE,
    ensures
        top_word_of_stack(after_push_word(before, word)) == word,
        after_pull(after_pull(after_push_word(before, word).registers)) == before.registers,
        top_word_of_stack(
            Machine {
                registers: after_push_word(before, word).registers,
                memory: after_push(after_push_word(before, word), above).memory,
            },
        ) == word,
{
    let s = before.registers.s;
    assert(incremented(decremented(s)) == s);
    assert(incremented(decremented(decremented(s))) == decremented(s));
    assert(stack_address(s) != stack_address(decremented(s)));
    assert(stack_address(decremented(decremented(s))) != stack_address(decremented(s)));
    assert(stack_address(decremented(decremented(s))) != stack_address(s));
    assert(word_of(low_byte(word), high_byte(word)) == word);
}

/// `JSR` followed at once by `RTS` comes back to the instruction after the
/// call, with the stack pointer and every other register as before.
pub proof fn lemma_jsr_rts_round_trip(before: Machine, address: Byte2)
    requires
        before.memory.len() == MEMORY_SIZE,
    ensures
        after_rts(after_jsr(before, address)) == before.registers,
{
    lemma_push_word_pull_word_round_trip(before, previous_address(before.registers.pc), 0);
}

/// `BRK` followed at once by `RTI` comes back to the byte after the `BRK`,
/// with every flag, the stack pointer and every other register as before.
pub proof fn lemma_brk_rti_round_trip(before: Machine)
    requires
        before.memory.len() == MEMORY_SIZE,
    ensures
        after_rti(after_brk(before)) == before.registers,
{
    let flags = before.registers.flags;
    let status = status_byte(Flags { brk: true, ..flags });
    let saved_pc = after_push_word(before, before.registers.pc);
    let entered = after_brk(before);
    lemma_status_byte_round_trip(flags, true);
    lemma_push_word_pull_word_round_trip(before, before.registers.pc, status);
    lemma_push_pull_round_trip(saved_pc, status);
    let restored = after_plp(entered);
    assert(restored == (RegisterState { pc: entered.registers.pc, ..saved_pc.registers }));
    assert(entered.memory == after_push(saved_pc, status).memory);
    let rest = Machine { registers: restored, memory: entered.memory };
    assert(top_word_of_stack(rest) == top_word_of_stack(
        Machine { registers: saved_pc.registers, memory: entered.memory },
    ));
}

/// Whether an instruction stores at its effective address: the three
/// stores, and the increments, decrements, shifts and rotates of a byte in
/// memory.
pub open spec fn stores_at_operand(operation: Opcode, operand: AddressingValue) -> bool {
    match operation {
        Opcode::STA | Opcode::STX | Opcode::STY | Opcode::INC | Opcode::DEC => true,
        Opcode::ASL | Opcode::LSR | Opcode::ROL | Opcode::ROR => operand
            != AddressingValue::Accumulator,
        _ => false,
    }
}

/// Whether an instruction pushes on the stack.
pub open spec fn pushes(operation: Opcode) -> bool {
    operation == Opcode::PHA || operation == Opcode::PHP || operation == Opcode::JSR || operation
        == Opcode::BRK
}

/// Whether an instruction can move the program counter elsewhere than to
/// the instruction that follows it.
pub open spec fn transfers_control(operation: Opcode) -> bool {
    match operation {
        Opcode::BPL | Opcode::BMI | Opcode::BVC | Opcode::BVS | Opcode::BCC | Opcode::BCS
        | Opcode::BNE | Opcode::BEQ => true,
        Opcode::JMP | Opcode::JMP_ABS | Opcode::JSR | Opcode::RTS | Opcode::RTI
        | Opcode::BRK => true,
        _ => false,
    }
}

/// Memory changes only where an instruction says so. One that stores at
/// its effective address changes no other byte, one that pushes changes no
/// byte outside the stack page, and every other instruction leaves all of
/// memory as it was.
#[verifier::rlimit(50)]
pub proof fn lemma_writes_are_confined(
    operation: Opcode,
    operand: AddressingValue,
    before: Machine,
    address: Byte2,
)
    requires
        before.memory.len() == MEMORY_SIZE,
    ensures
        executed(operation, operand, before).memory.len() == MEMORY_SIZE,
        !stores_at_operand(operation, operand) && !pushes(operation) ==> executed(
            operation,
            operand,
            before,
        ).memory == before.memory,
        stores_at_operand(operation, operand) && address != operand_address(operand, before)
            ==> executed(operation, operand, before).memory[address as int]
            == before.memory[address as int],
        pushes(operation) && !(0x0100 <= address <= 0x01FF) ==> executed(
            operation,
            operand,
            before,
        ).memory[address as int] == before.memory[address as int],
{
}

/// An instruction that transfers no control leaves the program counter
/// where the driver put it: on the instruction that follows.
#[verifier::rlimit(50)]
pub proof fn lemma_straight_line_keeps_pc(
    operation: Opcode,
    operand: AddressingValue,
    before: Machine,
)
    ensures
        !transfers_control(operation) ==> executed(operation, operand, before).registers.pc
            == before.registers.pc,
{
}

/// Whether an instruction pulls the status register from the stack.
pub open spec fn pulls_status(operation: Opcode) -> bool {
    operation == Opcode::PLP || operation == Opcode::RTI
}

/// No instruction changes the break flag.
#[verifier::rlimit(50)]
pub proof fn lemma_break_flag_is_kept(operation: Opcode, operand: AddressingValue, before: Machine)
    ensures
        executed(operation, operand, before).registers.flags.brk == before.registers.flags.brk,
{
    let flags = before.registers.flags;
    match operation {
        Opcode::PLP | Opcode::RTI => {
            assert(after_plp(before).flags.brk == flags.brk);
            assert(after_rti(before).flags == after_plp(before).flags);
        },
        Opcode::BRK => {
            assert(after_brk(before).registers.flags == (Flags {
                interrupt_disable: true,
                ..flags
            }));
        },
        _ => {},
    }
}

/// The decimal flag changes only under `CLD`, `SED` and a pull of the
/// status register.
#[verifier::rlimit(50)]
pub proof fn lemma_decimal_flag_changes_only_where_listed(
    operation: Opcode,
    operand: AddressingValue,
    before: Machine,
)
    ensures
        !(pulls_status(operation) || operation == Opcode::CLD || operation == Opcode::SED)
            ==> executed(operation, operand, before).registers.flags.decimal
            == before.registers.flags.decimal,
{
}

/// The interrupt-disable flag changes only under `CLI`, `SEI`, `BRK` and a
/// pull of the status register.
#[verifier::rlimit(50)]
pub proof fn lemma_interrupt_disable_changes_only_where_listed(
    operation: Opcode,
    operand: AddressingValue,
    before: Machine,
)
    ensures
        !(pulls_status(operation) || operation == Opcode::CLI || operation == Opcode::SEI
            || operation == Opcode::BRK) ==> executed(
            operation,
            operand,
            before,
        ).registers.flags.interrupt_disable == before.registers.flags.interrupt_disable,
{
}

/// The overflow flag changes only under `ADC`, `SBC`, `BIT`, `CLV` and a
/// pull of the status register.
#[verifier::rlimit(50)]
pub proof fn lemma_overflow_flag_changes_only_where_listed(
    operation: Opcode,
    operand: AddressingValue,
    before: Machine,
)
    ensures
        !(pulls_status(operation) || operation == Opcode::ADC || operation == Opcode::SBC
            || operation == Opcode::BIT || operation == Opcode::CLV) ==> executed(
            operation,
            operand,
            before,
        ).registers.flags.overflow == before.registers.flags.overflow,
{
}

/// Stores, pushes, branches, jumps, calls, returns from subroutine,
/// transfers to and from the stack pointer and `NOP` change no flag.
#[verifier::rlimit(50)]
pub proof fn lemma_stores_and_jumps_keep_flags(
    operation: Opcode,
    operand: AddressingValue,
    before: Machine,
)
    ensures
        (transfers_control(operation) && operation != Opcode::RTI && operation != Opcode::BRK)
            || operation == Opcode::STA || operation == Opcode::STX || operation == Opcode::STY
            || operation == Opcode::PHA || operation == Opcode::PHP || operation == Opcode::TXS
            || operation == Opcode::TSX || operation == Opcode::NOP ==> executed(
            operation,
            operand,
            before,
        ).registers.flags == before.registers.flags,
{
}

} // verus!
