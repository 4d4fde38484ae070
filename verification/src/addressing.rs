//! Addressing modes with their operands, and how each is resolved into a
//! value or an address.

use crate::memory::word_at;
use crate::memory::Memory;
use crate::opcode::AddressingModeType;
use crate::registers::RegisterState;
use crate::registers::Registers;
use crate::Byte;
use crate::Byte2;
use vstd::prelude::*;

verus! {

/// An addressing mode together with the operand bytes that follow the opcode
/// byte.
#[derive(Clone, Copy, Debug, PartialEq, Eq, Structural)]
pub enum AddressingValue {
    /// Accumulator: A
    /// Like implied addressing but object being the accumulator
    Accumulator,
    /// Implied
    /// No memory reference
    Implied,
    /// Immediate: #aa
    /// The given value is used as is
    Immediate(Byte),
    /// Absolute: aaaa
    /// The given value is the memory address of the 8 bit value to use
    Absolute(Byte2),
    /// Zero Page: aa
    /// Reference to one of the first 256 memory locations
    ZeroPage(Byte),
    /// Relative: aa
    /// A signed offset from the address of the next instruction
    Relative(Byte),
    /// Indirect Absolute: (aaaa)
    /// Used by JMP: Uses the given address as a pointer to the low part of a 16-bit address
    AbsoluteIndirect(Byte2),
    /// Absolute Indexed with X: aaaa,X
    /// The given address is used as a base and the value of X register is added as an offset
    AbsoluteIndexedWithX(Byte2),
    /// Absolute Indexed with Y: aaaa,Y
    /// The given address is used as a base and the value of Y register is added as an offset
    AbsoluteIndexedWithY(Byte2),
    /// Zero Page Indexed with X: aa,X
    /// As absolute indexed with X but in the Zero page memory
    ZeroPageIndexedWithX(Byte),
    /// Zero Page Indexed with Y: aa,Y
    /// As absolute indexed with Y but in the Zero page memory
    ZeroPageIndexedWithY(Byte),
    /// Indexed Indirect Addressing: (aa,X)
    /// Given location +X points to the 16-bit address containing a 16-bit pointer to the value
    IndexedIndirect(Byte),
    /// Indirect Indexed Addressing: (aa),Y
    /// Given location points to a 16-bit address containing a 16 bit pointer to the value after
    /// Y is added to it
    IndirectIndexed(Byte),
}

/// The mode of an operand, without its payload.
pub open spec fn mode_of(operand: AddressingValue) -> AddressingModeType {
    match operand {
        AddressingValue::Accumulator => AddressingModeType::Accumulator,
        AddressingValue::Implied => AddressingModeType::Implied,
        AddressingValue::Immediate(_) => AddressingModeType::Immediate,
        AddressingValue::Absolute(_) => AddressingModeType::Absolute,
        AddressingValue::ZeroPage(_) => AddressingModeType::ZeroPage,
        AddressingValue::Relative(_) => AddressingModeType::Relative,
        AddressingValue::AbsoluteIndirect(_) => AddressingModeType::AbsoluteIndirect,
        AddressingValue::AbsoluteIndexedWithX(_) => AddressingModeType::AbsoluteIndexedWithX,
        AddressingValue::AbsoluteIndexedWithY(_) => AddressingModeType::AbsoluteIndexedWithY,
        AddressingValue::ZeroPageIndexedWithX(_) => AddressingModeType::ZeroPageIndexedWithX,
        AddressingValue::ZeroPageIndexedWithY(_) => AddressingModeType::ZeroPageIndexedWithY,
        AddressingValue::IndexedIndirect(_) => AddressingModeType::IndexedIndirect,
        AddressingValue::IndirectIndexed(_) => AddressingModeType::IndirectIndexed,
    }
}

/// A mode with its operand attached: `low` is the first byte after the
/// opcode, `high` the second. A one-byte mode takes `low` alone, a mode
/// without operand takes neither.
pub open spec fn attached(mode: AddressingModeType, low: Byte, high: Byte) -> AddressingValue {
    let word = crate::memory::word_of(low, high);
    match mode {
        AddressingModeType::Accumulator => AddressingValue::Accumulator,
        AddressingModeType::Implied => AddressingValue::Implied,
        AddressingModeType::Immediate => AddressingValue::Immediate(low),
        AddressingModeType::Absolute => AddressingValue::Absolute(word),
        AddressingModeType::ZeroPage => AddressingValue::ZeroPage(low),
        AddressingModeType::Relative => AddressingValue::Relative(low),
        AddressingModeType::AbsoluteIndirect => AddressingValue::AbsoluteIndirect(word),
        AddressingModeType::AbsoluteIndexedWithX => AddressingValue::AbsoluteIndexedWithX(word),
        AddressingModeType::AbsoluteIndexedWithY => AddressingValue::AbsoluteIndexedWithY(word),
        AddressingModeType::ZeroPageIndexedWithX => AddressingValue::ZeroPageIndexedWithX(low),
        AddressingModeType::ZeroPageIndexedWithY => AddressingValue::ZeroPageIndexedWithY(low),
        AddressingModeType::IndexedIndirect => AddressingValue::IndexedIndirect(low),
        AddressingModeType::IndirectIndexed => AddressingValue::IndirectIndexed(low),
    }
}

/// A zero-page address plus an index register. The sum stays in the zero
/// page: `0xFF + 1` is `0x00`.
pub open spec fn zero_page_indexed(base: Byte, index: Byte) -> Byte2 {
    ((base + index) % 0x100) as Byte2
}

/// A 16-bit address plus an index register, wrapping at the top of memory.
pub open spec fn absolute_indexed(base: Byte2, index: Byte) -> Byte2 {
    ((base + index) % 0x10000) as Byte2
}

/// The address that an operand designates, for the modes that designate one.
pub open spec fn effective_address(
    operand: AddressingValue,
    registers: RegisterState,
    cells: Seq<Byte>,
) -> Option<Byte2> {
    match operand {
        AddressingValue::Accumulator => None,
        AddressingValue::Implied => None,
        AddressingValue::Immediate(_) => None,
        AddressingValue::Relative(_) => None,
        AddressingValue::Absolute(address) => Some(address),
        AddressingValue::ZeroPage(address) => Some(address as Byte2),
        AddressingValue::AbsoluteIndirect(pointer) => Some(word_at(cells, pointer)),
        AddressingValue::AbsoluteIndexedWithX(base) => Some(absolute_indexed(base, registers.x)),
        AddressingValue::AbsoluteIndexedWithY(base) => Some(absolute_indexed(base, registers.y)),
        AddressingValue::ZeroPageIndexedWithX(base) => Some(zero_page_indexed(base, registers.x)),
        AddressingValue::ZeroPageIndexedWithY(base) => Some(zero_page_indexed(base, registers.y)),
        AddressingValue::IndexedIndirect(base) => Some(
            word_at(cells, zero_page_indexed(base, registers.x)),
        ),
        AddressingValue::IndirectIndexed(pointer) => Some(
            absolute_indexed(word_at(cells, pointer as Byte2), registers.y),
        ),
    }
}

/// The value that an operand designates: the accumulator, the operand byte
/// itself, or the byte at the effective address. `Implied` designates none.
pub open spec fn resolved_value(
    operand: AddressingValue,
    registers: RegisterState,
    cells: Seq<Byte>,
) -> Option<Byte> {
    match operand {
        AddressingValue::Accumulator => Some(registers.a),
        AddressingValue::Implied => None,
        AddressingValue::Immediate(value) => Some(value),
        AddressingValue::Relative(offset) => Some(offset),
        _ => Some(cells[effective_address(operand, registers, cells)->0 as int]),
    }
}

/// Attaches operand bytes to an addressing mode.
pub struct AddressingModeBuilder {
    addressing_mode: AddressingModeType,
}

impl AddressingModeBuilder {
    /// The mode that this builder attaches operands to.
    pub closed spec fn mode(self) -> AddressingModeType {
        self.addressing_mode
    }

    /// A builder for `addressing_mode`.
    pub fn new(addressing_mode: AddressingModeType) -> (builder: AddressingModeBuilder)
        ensures
            builder.mode() == addressing_mode,
    {
        AddressingModeBuilder { addressing_mode }
    }

    /// How many of the two operand bytes the mode uses.
    pub fn operand_len(&self) -> (len: u8)
        ensures
            len == crate::opcode::operand_length(self.mode()),
    {
        self.addressing_mode.operand_len()
    }

    /// The mode with its operand: `low` is the byte after the opcode, `high`
    /// the one after that. Bytes that the mode does not use are ignored.
    pub fn build(&self, low: Byte, high: Byte) -> (operand: AddressingValue)
        ensures
            operand == attached(self.mode(), low, high),
    {
        let word = crate::memory::make_word(low, high);
        match self.addressing_mode {
            AddressingModeType::Accumulator => AddressingValue::Accumulator,
            AddressingModeType::Implied => AddressingValue::Implied,
            AddressingModeType::Immediate => AddressingValue::Immediate(low),
            AddressingModeType::Absolute => AddressingValue::Absolute(word),
            AddressingModeType::ZeroPage => AddressingValue::ZeroPage(low),
            AddressingModeType::Relative => AddressingValue::Relative(low),
            AddressingModeType::AbsoluteIndirect => AddressingValue::AbsoluteIndirect(word),
            AddressingModeType::AbsoluteIndexedWithX => AddressingValue::AbsoluteIndexedWithX(word),
            AddressingModeType::AbsoluteIndexedWithY => AddressingValue::AbsoluteIndexedWithY(word),
            AddressingModeType::ZeroPageIndexedWithX => AddressingValue::ZeroPageIndexedWithX(low),
            AddressingModeType::ZeroPageIndexedWithY => AddressingValue::ZeroPageIndexedWithY(low),
            AddressingModeType::IndexedIndirect => AddressingValue::IndexedIndirect(low),
            AddressingModeType::IndirectIndexed => AddressingValue::IndirectIndexed(low),
        }
    }
}

impl AddressingValue {
    /// The mode of this operand.
    pub fn kind(&self) -> (mode: AddressingModeType)
        ensures
            mode == mode_of(*self),
    {
        match self {
            AddressingValue::Accumulator => AddressingModeType::Accumulator,
            AddressingValue::Implied => AddressingModeType::Implied,
            AddressingValue::Immediate(_) => AddressingModeType::Immediate,
            AddressingValue::Absolute(_) => AddressingModeType::Absolute,
            AddressingValue::ZeroPage(_) => AddressingModeType::ZeroPage,
            AddressingValue::Relative(_) => AddressingModeType::Relative,
            AddressingValue::AbsoluteIndirect(_) => AddressingModeType::AbsoluteIndirect,
            AddressingValue::AbsoluteIndexedWithX(_) => AddressingModeType::AbsoluteIndexedWithX,
            AddressingValue::AbsoluteIndexedWithY(_) => AddressingModeType::AbsoluteIndexedWithY,
            AddressingValue::ZeroPageIndexedWithX(_) => AddressingModeType::ZeroPageIndexedWithX,
            AddressingValue::ZeroPageIndexedWithY(_) => AddressingModeType::ZeroPageIndexedWithY,
            AddressingValue::IndexedIndirect(_) => AddressingModeType::IndexedIndirect,
            AddressingValue::IndirectIndexed(_) => AddressingModeType::IndirectIndexed,
        }
    }

    /// The value that this operand designates, or `None` for `Implied`.
    /// Neither the registers nor memory change.
    pub fn get_value(&self, registers: &Registers, memory: &Memory) -> (value: Option<Byte>)
        ensures
            value == resolved_value(*self, registers@, memory@),
    {
        match self {
            AddressingValue::Accumulator => Some(registers.a),
            AddressingValue::Implied => None,
            AddressingValue::Immediate(value) => Some(*value),
            AddressingValue::Absolute(value) => Some(get_value_from_absolute(*value, memory)),
            AddressingValue::ZeroPage(value) => Some(get_value_from_zero_page(*value, memory)),
            AddressingValue::Relative(value) => Some(*value),
            AddressingValue::AbsoluteIndirect(value) => Some(
                get_value_from_absolute_indirect(*value, memory),
            ),
            AddressingValue::AbsoluteIndexedWithX(value) => Some(
                get_value_from_absolute_indexed_with_register(*value, registers.x, memory),
            ),
            AddressingValue::AbsoluteIndexedWithY(value) => Some(
                get_value_from_absolute_indexed_with_register(*value, registers.y, memory),
            ),
            AddressingValue::ZeroPageIndexedWithX(value) => Some(
                get_value_from_zero_page_indexed_with_register(*value, registers.x, memory),
            ),
            AddressingValue::ZeroPageIndexedWithY(value) => Some(
                get_value_from_zero_page_indexed_with_register(*value, registers.y, memory),
            ),
            AddressingValue::IndexedIndirect(value) => Some(
                get_value_from_indexed_indirect(*value, registers, memory),
            ),
            AddressingValue::IndirectIndexed(value) => Some(
                get_value_from_indirect_indexed(*value, registers, memory),
            ),
        }
    }

    /// The address that this operand designates, or `None` for a mode that
    /// designates none. Neither the registers nor memory change.
    pub fn get_address(&self, registers: &Registers, memory: &Memory) -> (address: Option<Byte2>)
        ensures
            address == effective_address(*self, registers@, memory@),
    {
        match self {
            AddressingValue::Accumulator => None,
            AddressingValue::Implied => None,
            AddressingValue::Immediate(_) => None,
            AddressingValue::Relative(_) => None,
            AddressingValue::Absolute(address) => Some(*address),
            AddressingValue::ZeroPage(address) => Some(*address as Byte2),
            AddressingValue::AbsoluteIndirect(pointer) => Some(memory.read_word(*pointer)),
            AddressingValue::AbsoluteIndexedWithX(base) => Some(
                base.wrapping_add(registers.x as Byte2),
            ),
            AddressingValue::AbsoluteIndexedWithY(base) => Some(
                base.wrapping_add(registers.y as Byte2),
            ),
            AddressingValue::ZeroPageIndexedWithX(base) => Some(
                base.wrapping_add(registers.x) as Byte2,
            ),
            AddressingValue::ZeroPageIndexedWithY(base) => Some(
                base.wrapping_add(registers.y) as Byte2,
            ),
            AddressingValue::IndexedIndirect(base) => Some(
                memory.read_word(base.wrapping_add(registers.x) as Byte2),
            ),
            AddressingValue::IndirectIndexed(pointer) => Some(
                memory.read_word(*pointer as Byte2).wrapping_add(registers.y as Byte2),
            ),
        }
    }
}

/// Resolves an operand into the value it designates; see
/// [`AddressingValue::get_value`].
pub fn resolve(mode: AddressingValue, registers: &Registers, memory: &Memory) -> (value: Option<
    Byte,
>)
    ensures
        value == resolved_value(mode, registers@, memory@),
{
    mode.get_value(registers, memory)
}

/// `(aa),Y`: reads a pointer from the zero page, adds Y to it and reads the
/// byte it then points to.
pub fn get_value_from_indirect_indexed(
    value: Byte,
    registers: &Registers,
    memory: &Memory,
) -> (byte: Byte)
    ensures
        byte == memory@[absolute_indexed(word_at(memory@, value as Byte2), registers@.y) as int],
{
    let target = memory.read_word(value as Byte2);
    let target = target.wrapping_add(registers.y as Byte2);
    get_value_from_absolute(target, memory)
}

/// `(aa,X)`: adds X to the operand inside the zero page, reads a pointer
/// from there and reads the byte it points to.
pub fn get_value_from_indexed_indirect(
    value: Byte,
    registers: &Registers,
    memory: &Memory,
) -> (byte: Byte)
    ensures
        byte == memory@[word_at(memory@, zero_page_indexed(value, registers@.x)) as int],
{
    let location = value.wrapping_add(registers.x) as Byte2;
    let target = memory.read_word(location);
    get_value_from_absolute(target, memory)
}

/// `aa,X` and `aa,Y`: the byte at the operand plus the register, inside the
/// zero page.
pub fn get_value_from_zero_page_indexed_with_register(
    value: Byte,
    register_contents: Byte,
    memory: &Memory,
) -> (byte: Byte)
    ensures
        byte == memory@[zero_page_indexed(value, register_contents) as int],
{
    memory.read_byte(value.wrapping_add(register_contents) as Byte2)
}

/// `aaaa,X` and `aaaa,Y`: the byte at the operand plus the register.
pub fn get_value_from_absolute_indexed_with_register(
    value: Byte2,
    register_contents: Byte,
    memory: &Memory,
) -> (byte: Byte)
    ensures
        byte == memory@[absolute_indexed(value, register_contents) as int],
{
    memory.read_byte(value.wrapping_add(register_contents as Byte2))
}

/// `(aaaa)`: reads a pointer at the operand and reads the byte it points to.
pub fn get_value_from_absolute_indirect(value: Byte2, memory: &Memory) -> (byte: Byte)
    ensures
        byte == memory@[word_at(memory@, value) as int],
{
    let target = memory.read_word(value);
    get_value_from_absolute(target, memory)
}

/// `aa`: the byte at a zero-page address.
pub fn get_value_from_zero_page(value: Byte, memory: &Memory) -> (byte: Byte)
    ensures
        byte == memory@[value as int],
{
    memory.read_byte(value as Byte2)
}

/// `aaaa`: the byte at an address.
pub fn get_value_from_absolute(value: Byte2, memory: &Memory) -> (byte: Byte)
    ensures
        byte == memory@[value as int],
{
    memory.read_byte(value)
}

} // verus!
