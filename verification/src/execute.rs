//! The execution engine: what each operation does to registers, flags and
//! memory.

use crate::addressing::effective_address;
use crate::addressing::resolved_value;
use crate::addressing::AddressingValue;
use crate::execute::arithmetic::adc;
use crate::execute::arithmetic::after_adc;
use crate::execute::arithmetic::after_and;
use crate::execute::arithmetic::after_bit;
use crate::execute::arithmetic::after_compare;
use crate::execute::arithmetic::after_eor;
use crate::execute::arithmetic::after_ora;
use crate::execute::arithmetic::after_sbc;
use crate::execute::arithmetic::and;
use crate::execute::arithmetic::bit;
use crate::execute::arithmetic::cmp;
use crate::execute::arithmetic::cpx;
use crate::execute::arithmetic::cpy;
use crate::execute::arithmetic::eor;
use crate::execute::arithmetic::ora;
use crate::execute::arithmetic::sbc;
use crate::execute::arithmetic::with_accumulator;
use crate::execute::branch::after_branch;
use crate::execute::branch::bcc;
use crate::execute::branch::bcs;
use crate::execute::branch::beq;
use crate::execute::branch::bmi;
use crate::execute::branch::bne;
use crate::execute::branch::bpl;
use crate::execute::branch::bvc;
use crate::execute::branch::bvs;
use crate::execute::branch::jmp;
use crate::execute::shifts::after_asl;
use crate::execute::shifts::after_dec;
use crate::execute::shifts::after_inc;
use crate::execute::shifts::after_lsr;
use crate::execute::shifts::after_rol;
use crate::execute::shifts::after_ror;
use crate::execute::shifts::asl;
use crate::execute::shifts::dec;
use crate::execute::shifts::dex;
use crate::execute::shifts::dey;
use crate::execute::shifts::inc;
use crate::execute::shifts::inx;
use crate::execute::shifts::iny;
use crate::execute::shifts::lsr;
use crate::execute::shifts::rol;
use crate::execute::shifts::ror;
use crate::execute::shifts::with_x;
use crate::execute::shifts::with_y;
use crate::execute::stack::after_brk;
use crate::execute::stack::after_jsr;
use crate::execute::stack::after_pha;
use crate::execute::stack::after_php;
use crate::execute::stack::after_pla;
use crate::execute::stack::after_plp;
use crate::execute::stack::after_rti;
use crate::execute::stack::after_rts;
use crate::execute::stack::brk;
use crate::execute::stack::jsr;
use crate::execute::stack::pha;
use crate::execute::stack::php;
use crate::execute::stack::pla;
use crate::execute::stack::plp;
use crate::execute::stack::rti;
use crate::execute::stack::rts;
use crate::execute::status::clc;
use crate::execute::status::cld;
use crate::execute::status::cli;
use crate::execute::status::clv;
use crate::execute::status::nop;
use crate::execute::status::sec;
use crate::execute::status::sed;
use crate::execute::status::sei;
use crate::execute::transfer::lda;
use crate::execute::transfer::ldx;
use crate::execute::transfer::ldy;
use crate::execute::transfer::sta;
use crate::execute::transfer::stx;
use crate::execute::transfer::sty;
use crate::execute::transfer::tax;
use crate::execute::transfer::tay;
use crate::execute::transfer::tsx;
use crate::execute::transfer::txa;
use crate::execute::transfer::txs;
use crate::execute::transfer::tya;
use crate::flags::Flags;
use crate::instruction::Instruction;
use crate::memory::Memory;
use crate::opcode::Opcode;
use crate::registers::RegisterState;
use crate::registers::Registers;
use crate::Byte;
use crate::Byte2;
use vstd::prelude::*;

pub mod arithmetic;
pub mod branch;
pub mod shifts;
pub mod stack;
pub mod status;
pub mod transfer;

verus! {

/// The whole machine as plain values: the registers and the 65536 bytes of
/// memory.
pub struct Machine {
    /// The register file.
    pub registers: RegisterState,
    /// Memory, by address.
    pub memory: Seq<Byte>,
}

/// The value that an instruction works on. An operation never asks for the
/// value of a mode that has none.
pub open spec fn operand_value(operand: AddressingValue, before: Machine) -> Byte {
    match resolved_value(operand, before.registers, before.memory) {
        Some(value) => value,
        None => 0,
    }
}

/// The address that an instruction works on. An operation never asks for
/// the address of a mode that has none.
pub open spec fn operand_address(operand: AddressingValue, before: Machine) -> Byte2 {
    match effective_address(operand, before.registers, before.memory) {
        Some(address) => address,
        None => 0,
    }
}

/// The machine with other registers and the same memory.
pub open spec fn with_registers(before: Machine, registers: RegisterState) -> Machine {
    Machine { registers, memory: before.memory }
}

/// The machine with one byte of memory replaced and the same registers.
pub open spec fn with_byte(before: Machine, address: Byte2, value: Byte) -> Machine {
    Machine { registers: before.registers, memory: before.memory.update(address as int, value) }
}

/// The machine with other flags, and nothing else changed.
pub open spec fn with_flags(before: Machine, flags: Flags) -> Machine {
    with_registers(before, RegisterState { flags, ..before.registers })
}

/// The machine after one instruction. `before` is the machine with the
/// program counter already past the instruction.
pub open spec fn executed(operation: Opcode, operand: AddressingValue, before: Machine) -> Machine {
    let registers = before.registers;
    let flags = registers.flags;
    let value = operand_value(operand, before);
    let address = operand_address(operand, before);
    let target = effective_address(operand, registers, before.memory);
    match operation {
        Opcode::ADC => with_registers(before, after_adc(registers, value)),
        Opcode::AND => with_registers(before, after_and(registers, value)),
        Opcode::ASL => after_asl(target, before),
        Opcode::CMP => with_registers(before, after_compare(registers, registers.a, value)),
        Opcode::DEC => after_dec(before, address),
        Opcode::EOR => with_registers(before, after_eor(registers, value)),
        Opcode::INC => after_inc(before, address),
        Opcode::LDA => with_registers(before, with_accumulator(registers, value)),
        Opcode::LDX => with_registers(before, with_x(registers, value)),
        Opcode::LSR => after_lsr(target, before),
        Opcode::ORA => with_registers(before, after_ora(registers, value)),
        Opcode::ROL => after_rol(target, before),
        Opcode::ROR => after_ror(target, before),
        Opcode::SBC => with_registers(before, after_sbc(registers, value)),
        Opcode::STA => with_byte(before, address, registers.a),
        Opcode::STX => with_byte(before, address, registers.x),
        Opcode::BIT => with_registers(before, after_bit(registers, value)),
        Opcode::CPX => with_registers(before, after_compare(registers, registers.x, value)),
        Opcode::CPY => with_registers(before, after_compare(registers, registers.y, value)),
        Opcode::JMP | Opcode::JMP_ABS => with_registers(
            before,
            RegisterState { pc: address, ..registers },
        ),
        Opcode::LDY => with_registers(before, with_y(registers, value)),
        Opcode::STY => with_byte(before, address, registers.y),
        Opcode::BPL => with_registers(before, after_branch(registers, !flags.negative, value)),
        Opcode::BCC => with_registers(before, after_branch(registers, !flags.carry, value)),
        Opcode::BCS => with_registers(before, after_branch(registers, flags.carry, value)),
        Opcode::BEQ => with_registers(before, after_branch(registers, flags.zero, value)),
        Opcode::BMI => with_registers(before, after_branch(registers, flags.negative, value)),
        Opcode::BNE => with_registers(before, after_branch(registers, !flags.zero, value)),
        Opcode::BVC => with_registers(before, after_branch(registers, !flags.overflow, value)),
        Opcode::BVS => with_registers(before, after_branch(registers, flags.overflow, value)),
        Opcode::BRK => after_brk(before),
        Opcode::CLC => with_flags(before, Flags { carry: false, ..flags }),
        Opcode::CLD => with_flags(before, Flags { decimal: false, ..flags }),
        Opcode::CLI => with_flags(before, Flags { interrupt_disable: false, ..flags }),
        Opcode::CLV => with_flags(before, Flags { overflow: false, ..flags }),
        Opcode::DEX => with_registers(
            before,
            with_x(registers, crate::alu::decremented(registers.x)),
        ),
        Opcode::DEY => with_registers(
            before,
            with_y(registers, crate::alu::decremented(registers.y)),
        ),
        Opcode::INX => with_registers(
            before,
            with_x(registers, crate::alu::incremented(registers.x)),
        ),
        Opcode::INY => with_registers(
            before,
            with_y(registers, crate::alu::incremented(registers.y)),
        ),
        Opcode::JSR => after_jsr(before, address),
        Opcode::NOP => before,
        Opcode::PHA => after_pha(before),
        Opcode::PHP => after_php(before),
        Opcode::PLA => with_registers(before, after_pla(before)),
        Opcode::PLP => with_registers(before, after_plp(before)),
        Opcode::RTI => with_registers(before, after_rti(before)),
        Opcode::RTS => with_registers(before, after_rts(before)),
        Opcode::SEC => with_flags(before, Flags { carry: true, ..flags }),
        Opcode::SED => with_flags(before, Flags { decimal: true, ..flags }),
        Opcode::SEI => with_flags(before, Flags { interrupt_disable: true, ..flags }),
        Opcode::TAX => with_registers(before, with_x(registers, registers.a)),
        Opcode::TAY => with_registers(before, with_y(registers, registers.a)),
        Opcode::TSX => with_registers(before, RegisterState { x: registers.s, ..registers }),
        Opcode::TXA => with_registers(before, with_accumulator(registers, registers.x)),
        Opcode::TXS => with_registers(before, RegisterState { s: registers.x, ..registers }),
        Opcode::TYA => with_registers(before, with_accumulator(registers, registers.y)),
    }
}

/// The value that the operand designates, or zero for `Implied`.
fn value_of(operand: &AddressingValue, registers: &Registers, memory: &Memory) -> (value: Byte)
    ensures
        value == operand_value(*operand, (Machine { registers: registers@, memory: memory@ })),
{
    match operand.get_value(registers, memory) {
        Some(value) => value,
        None => 0,
    }
}

/// The address that the operand designates, or zero for a mode without
/// one.
fn address_of(operand: &AddressingValue, registers: &Registers, memory: &Memory) -> (address:
    Byte2)
    ensures
        address == operand_address(*operand, (Machine { registers: registers@, memory: memory@ })),
{
    match operand.get_address(registers, memory) {
        Some(address) => address,
        None => 0,
    }
}

/// Executes one instruction. The program counter has to be past the
/// instruction already: branches, jumps and calls go by it. Execution never
/// fails.
pub fn execute(instruction: Instruction, registers: &mut Registers, memory: &mut Memory)
    ensures
        final(registers)@ == executed(
            instruction.operation(),
            instruction.operand(),
            (Machine { registers: old(registers)@, memory: old(memory)@ }),
        ).registers,
        final(memory)@ == executed(
            instruction.operation(),
            instruction.operand(),
            (Machine { registers: old(registers)@, memory: old(memory)@ }),
        ).memory,
{
    let operand = instruction.addressing_mode();
    match instruction.opcode() {
        Opcode::ADC => adc(value_of(&operand, registers, memory), registers),
        Opcode::AND => and(value_of(&operand, registers, memory), registers),
        Opcode::ASL => asl(operand.get_address(registers, memory), registers, memory),
        Opcode::CMP => cmp(value_of(&operand, registers, memory), registers),
        Opcode::DEC => dec(address_of(&operand, registers, memory), registers, memory),
        Opcode::EOR => eor(value_of(&operand, registers, memory), registers),
        Opcode::INC => inc(address_of(&operand, registers, memory), registers, memory),
        Opcode::LDA => lda(value_of(&operand, registers, memory), registers),
        Opcode::LDX => ldx(value_of(&operand, registers, memory), registers),
        Opcode::LSR => lsr(operand.get_address(registers, memory), registers, memory),
        Opcode::ORA => ora(value_of(&operand, registers, memory), registers),
        Opcode::ROL => rol(operand.get_address(registers, memory), registers, memory),
        Opcode::ROR => ror(operand.get_address(registers, memory), registers, memory),
        Opcode::SBC => sbc(value_of(&operand, registers, memory), registers),
        Opcode::STA => sta(address_of(&operand, registers, memory), registers, memory),
        Opcode::STX => stx(address_of(&operand, registers, memory), registers, memory),
        Opcode::BIT => bit(value_of(&operand, registers, memory), registers),
        Opcode::CPX => cpx(value_of(&operand, registers, memory), registers),
        Opcode::CPY => cpy(value_of(&operand, registers, memory), registers),
        Opcode::JMP | Opcode::JMP_ABS => jmp(address_of(&operand, registers, memory), registers),
        Opcode::LDY => ldy(value_of(&operand, registers, memory), registers),
        Opcode::STY => sty(address_of(&operand, registers, memory), registers, memory),
        Opcode::BPL => bpl(value_of(&operand, registers, memory), registers),
        Opcode::BCC => bcc(value_of(&operand, registers, memory), registers),
        Opcode::BCS => bcs(value_of(&operand, registers, memory), registers),
        Opcode::BEQ => beq(value_of(&operand, registers, memory), registers),
        Opcode::BMI => bmi(value_of(&operand, registers, memory), registers),
        Opcode::BNE => bne(value_of(&operand, registers, memory), registers),
        Opcode::BVC => bvc(value_of(&operand, registers, memory), registers),
        Opcode::BVS => bvs(value_of(&operand, registers, memory), registers),
        Opcode::BRK => brk(registers, memory),
        Opcode::CLC => clc(registers),
        Opcode::CLD => cld(registers),
        Opcode::CLI => cli(registers),
        Opcode::CLV => clv(registers),
        Opcode::DEX => dex(registers),
        Opcode::DEY => dey(registers),
        Opcode::INX => inx(registers),
        Opcode::INY => iny(registers),
        Opcode::JSR => jsr(address_of(&operand, registers, memory), registers, memory),
        Opcode::NOP => nop(registers),
        Opcode::PHA => pha(registers, memory),
        Opcode::PHP => php(registers, memory),
        Opcode::PLA => pla(registers, memory),
        Opcode::PLP => plp(registers, memory),
        Opcode::RTI => rti(registers, memory),
        Opcode::RTS => rts(registers, memory),
        Opcode::SEC => sec(registers),
        Opcode::SED => sed(registers),
        Opcode::SEI => sei(registers),
        Opcode::TAX => tax(registers),
        Opcode::TAY => tay(registers),
        Opcode::TSX => tsx(registers),
        Opcode::TXA => txa(registers),
        Opcode::TXS => txs(registers),
        Opcode::TYA => tya(registers),
    }
}

} // verus!
