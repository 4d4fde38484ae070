//! Operations, addressing modes, and which of them go together.

use crate::Byte;
use vstd::prelude::*;

verus! {

/// The operations of the instruction set, by mnemonic.
#[allow(non_camel_case_types)]
#[derive(Clone, Copy, Debug, PartialEq, Eq, Hash, Structural)]
pub enum Opcode {
    /// Add memory to accumulator with carry
    ADC,
    /// And memory with accumulator
    AND,
    /// Arithmetic shift left one bit
    ASL,
    /// Compare memory and accumulator
    CMP,
    /// Decrement memory by one
    DEC,
    /// Exclusive or memory with accumulator
    EOR,
    /// Increment memory by one
    INC,
    /// Load accumulator with memory
    LDA,
    /// Load index X with memory
    LDX,
    /// Logical shift right one bit
    LSR,
    /// Or memory with accumulator
    ORA,
    /// Rotate left one bit
    ROL,
    /// Rotate right one bit
    ROR,
    /// Subtract memory from accumulator with borrow
    SBC,
    /// Store accumulator in memory
    STA,
    /// Store index X in memory
    STX,
    /// Test bits in memory with accumulator
    BIT,
    /// Compare memory and index X
    CPX,
    /// Compare memory and index Y
    CPY,
    /// Jump to the address given
    JMP,
    /// Jump to the address stored at the address given
    JMP_ABS,
    /// Load index Y with memory
    LDY,
    /// Store index Y in memory
    STY,
    /// Branch on result plus
    BPL,
    /// Branch on carry clear
    BCC,
    /// Branch on carry set
    BCS,
    /// Branch on result zero
    BEQ,
    /// Branch on result minus
    BMI,
    /// Branch on result not zero
    BNE,
    /// Branch on overflow clear
    BVC,
    /// Branch on overflow set
    BVS,
    /// Break
    BRK,
    /// Clear carry
    CLC,
    /// Clear decimal
    CLD,
    /// Clear interrupt disable
    CLI,
    /// Clear overflow
    CLV,
    /// Decrement X
    DEX,
    /// Decrement Y
    DEY,
    /// Increment X
    INX,
    /// Increment Y
    INY,
    /// Jump to subroutine
    JSR,
    /// No operation
    NOP,
    /// Push accumulator
    PHA,
    /// Push processor status
    PHP,
    /// Pull accumulator
    PLA,
    /// Pull processor status
    PLP,
    /// Return from interrupt
    RTI,
    /// Return from subroutine
    RTS,
    /// Set carry
    SEC,
    /// Set decimal
    SED,
    /// Set interrupt disable
    SEI,
    /// Transfer A to X
    TAX,
    /// Transfer A to Y
    TAY,
    /// Transfer stack pointer to X
    TSX,
    /// Transfer X to A
    TXA,
    /// Transfer X to stack pointer
    TXS,
    /// Transfer Y to A
    TYA,
}

/// The addressing modes, without their operands.
#[derive(Clone, Copy, Debug, Hash, Ord, PartialOrd, Eq, PartialEq, Structural)]
pub enum AddressingModeType {
    /// `A`: the operand is the accumulator.
    Accumulator,
    /// No operand.
    Implied,
    /// `#aa`: the operand byte is the value.
    Immediate,
    /// `aaaa`: the operand word is the address of the value.
    Absolute,
    /// `aa`: the operand byte is an address in the zero page.
    ZeroPage,
    /// A signed offset from the address of the next instruction.
    Relative,
    /// `(aaaa)`: the operand word is the address of a pointer.
    AbsoluteIndirect,
    /// `aaaa,X`: the operand word plus X.
    AbsoluteIndexedWithX,
    /// `aaaa,Y`: the operand word plus Y.
    AbsoluteIndexedWithY,
    /// `aa,X`: the operand byte plus X, inside the zero page.
    ZeroPageIndexedWithX,
    /// `aa,Y`: the operand byte plus Y, inside the zero page.
    ZeroPageIndexedWithY,
    /// `(aa,X)`: the operand byte plus X locates a pointer in the zero page.
    IndexedIndirect,
    /// `(aa),Y`: the operand byte locates a pointer, to which Y is added.
    IndirectIndexed,
}

/// The one error of the core: a byte that encodes no instruction.
#[derive(Clone, Copy, Debug, PartialEq, Eq, Structural)]
pub struct IllegalOpcode(pub Byte);

/// One of the eight modes of the accumulator instructions that are not
/// `Immediate`.
pub open spec fn is_memory_mode(mode: AddressingModeType) -> bool {
    ||| mode == AddressingModeType::IndexedIndirect
    ||| mode == AddressingModeType::ZeroPage
    ||| mode == AddressingModeType::Absolute
    ||| mode == AddressingModeType::IndirectIndexed
    ||| mode == AddressingModeType::ZeroPageIndexedWithX
    ||| mode == AddressingModeType::AbsoluteIndexedWithY
    ||| mode == AddressingModeType::AbsoluteIndexedWithX
}

/// Whether the architecture has an instruction that pairs `opcode` with
/// `mode`.
pub open spec fn legal_pair(opcode: Opcode, mode: AddressingModeType) -> bool {
    match opcode {
        Opcode::ORA | Opcode::AND | Opcode::EOR | Opcode::ADC | Opcode::LDA | Opcode::CMP
        | Opcode::SBC => mode == AddressingModeType::Immediate || is_memory_mode(mode),
        Opcode::STA => is_memory_mode(mode),
        Opcode::ASL | Opcode::ROL | Opcode::LSR | Opcode::ROR => {
            ||| mode == AddressingModeType::Accumulator
            ||| mode == AddressingModeType::ZeroPage
            ||| mode == AddressingModeType::Absolute
            ||| mode == AddressingModeType::ZeroPageIndexedWithX
            ||| mode == AddressingModeType::AbsoluteIndexedWithX
        },
        Opcode::DEC | Opcode::INC => {
            ||| mode == AddressingModeType::ZeroPage
            ||| mode == AddressingModeType::Absolute
            ||| mode == AddressingModeType::ZeroPageIndexedWithX
            ||| mode == AddressingModeType::AbsoluteIndexedWithX
        },
        Opcode::STX => {
            ||| mode == AddressingModeType::ZeroPage
            ||| mode == AddressingModeType::Absolute
            ||| mode == AddressingModeType::ZeroPageIndexedWithY
        },
        Opcode::LDX => {
            ||| mode == AddressingModeType::Immediate
            ||| mode == AddressingModeType::ZeroPage
            ||| mode == AddressingModeType::Absolute
            ||| mode == AddressingModeType::ZeroPageIndexedWithY
            ||| mode == AddressingModeType::AbsoluteIndexedWithY
        },
        Opcode::STY => {
            ||| mode == AddressingModeType::ZeroPage
            ||| mode == AddressingModeType::Absolute
            ||| mode == AddressingModeType::ZeroPageIndexedWithX
        },
        Opcode::LDY => {
            ||| mode == AddressingModeType::Immediate
            ||| mode == AddressingModeType::ZeroPage
            ||| mode == AddressingModeType::Absolute
            ||| mode == AddressingModeType::ZeroPageIndexedWithX
            ||| mode == AddressingModeType::AbsoluteIndexedWithX
        },
        Opcode::CPX | Opcode::CPY => {
            ||| mode == AddressingModeType::Immediate
            ||| mode == AddressingModeType::ZeroPage
            ||| mode == AddressingModeType::Absolute
        },
        Opcode::BIT => mode == AddressingModeType::ZeroPage || mode
            == AddressingModeType::Absolute,
        Opcode::JMP | Opcode::JSR => mode == AddressingModeType::Absolute,
        Opcode::JMP_ABS => mode == AddressingModeType::AbsoluteIndirect,
        Opcode::BPL | Opcode::BMI | Opcode::BVC | Opcode::BVS | Opcode::BCC | Opcode::BCS
        | Opcode::BNE | Opcode::BEQ => mode == AddressingModeType::Relative,
        _ => mode == AddressingModeType::Implied,
    }
}

/// How many operand bytes follow the opcode byte in a mode: none, one or two.
pub open spec fn operand_length(mode: AddressingModeType) -> int {
    match mode {
        AddressingModeType::Accumulator | AddressingModeType::Implied => 0,
        AddressingModeType::Absolute
        | AddressingModeType::AbsoluteIndirect
        | AddressingModeType::AbsoluteIndexedWithX
        | AddressingModeType::AbsoluteIndexedWithY => 2,
        _ => 1,
    }
}

impl Opcode {
    /// Whether this operation has an instruction in `mode`.
    pub fn accepts(self, mode: AddressingModeType) -> (legal: bool)
        ensures
            legal == legal_pair(self, mode),
    {
        let memory = match mode {
            AddressingModeType::IndexedIndirect
            | AddressingModeType::ZeroPage
            | AddressingModeType::Absolute
            | AddressingModeType::IndirectIndexed
            | AddressingModeType::ZeroPageIndexedWithX
            | AddressingModeType::AbsoluteIndexedWithY
            | AddressingModeType::AbsoluteIndexedWithX => true,
            _ => false,
        };
        match (self, mode) {
            (
                Opcode::ORA | Opcode::AND | Opcode::EOR | Opcode::ADC | Opcode::LDA | Opcode::CMP
                | Opcode::SBC,
                AddressingModeType::Immediate,
            ) => true,
            (
                Opcode::ORA | Opcode::AND | Opcode::EOR | Opcode::ADC | Opcode::LDA | Opcode::CMP
                | Opcode::SBC | Opcode::STA,
                _,
            ) => memory,
            (
                Opcode::ASL | Opcode::ROL | Opcode::LSR | Opcode::ROR,
                AddressingModeType::Accumulator,
            ) => true,
            (
                Opcode::ASL | Opcode::ROL | Opcode::LSR | Opcode::ROR | Opcode::DEC | Opcode::INC,
                AddressingModeType::ZeroPage
                | AddressingModeType::Absolute
                | AddressingModeType::ZeroPageIndexedWithX
                | AddressingModeType::AbsoluteIndexedWithX,
            ) => true,
            (
                Opcode::STX | Opcode::LDX,
                AddressingModeType::ZeroPage
                | AddressingModeType::Absolute
                | AddressingModeType::ZeroPageIndexedWithY,
            ) => true,
            (
                Opcode::LDX,
                AddressingModeType::Immediate | AddressingModeType::AbsoluteIndexedWithY,
            ) => true,
            (
                Opcode::STY | Opcode::LDY,
                AddressingModeType::ZeroPage
                | AddressingModeType::Absolute
                | AddressingModeType::ZeroPageIndexedWithX,
            ) => true,
            (
                Opcode::LDY,
                AddressingModeType::Immediate | AddressingModeType::AbsoluteIndexedWithX,
            ) => true,
            (
                Opcode::CPX | Opcode::CPY,
                AddressingModeType::Immediate
                | AddressingModeType::ZeroPage
                | AddressingModeType::Absolute,
            ) => true,
            (Opcode::BIT, AddressingModeType::ZeroPage | AddressingModeType::Absolute) => true,
            (Opcode::JMP | Opcode::JSR, AddressingModeType::Absolute) => true,
            (Opcode::JMP_ABS, AddressingModeType::AbsoluteIndirect) => true,
            (
                Opcode::BPL | Opcode::BMI | Opcode::BVC | Opcode::BVS | Opcode::BCC | Opcode::BCS
                | Opcode::BNE | Opcode::BEQ,
                AddressingModeType::Relative,
            ) => true,
            (
                Opcode::BRK | Opcode::CLC | Opcode::CLD | Opcode::CLI | Opcode::CLV | Opcode::DEX
                | Opcode::DEY | Opcode::INX | Opcode::INY | Opcode::NOP | Opcode::PHA | Opcode::PHP
                | Opcode::PLA | Opcode::PLP | Opcode::RTI | Opcode::RTS | Opcode::SEC | Opcode::SED
                | Opcode::SEI | Opcode::TAX | Opcode::TAY | Opcode::TSX | Opcode::TXA | Opcode::TXS
                | Opcode::TYA,
                AddressingModeType::Implied,
            ) => true,
            _ => false,
        }
    }
}

impl AddressingModeType {
    /// How many operand bytes an instruction in this mode carries.
    pub fn operand_len(self) -> (len: u8)
        ensures
            len == operand_length(self),
    {
        match self {
            AddressingModeType::Accumulator | AddressingModeType::Implied => 0,
            AddressingModeType::Absolute
            | AddressingModeType::AbsoluteIndirect
            | AddressingModeType::AbsoluteIndexedWithX
            | AddressingModeType::AbsoluteIndexedWithY => 2,
            _ => 1,
        }
    }
}

} // verus!
