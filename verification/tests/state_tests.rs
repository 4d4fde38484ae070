use mos6502::addressing::get_value_from_absolute;
use mos6502::addressing::get_value_from_absolute_indexed_with_register;
use mos6502::addressing::get_value_from_absolute_indirect;
use mos6502::addressing::get_value_from_indexed_indirect;
use mos6502::addressing::get_value_from_indirect_indexed;
use mos6502::addressing::get_value_from_zero_page;
use mos6502::addressing::get_value_from_zero_page_indexed_with_register;
use mos6502::addressing::resolve;
use mos6502::addressing::AddressingModeBuilder;
use mos6502::addressing::AddressingValue;
use mos6502::flags::StatusFlags;
use mos6502::memory::make_word;
use mos6502::memory::split_word;
use mos6502::memory::Memory;
use mos6502::opcode::AddressingModeType;
use mos6502::registers::Registers;

#[test]
fn new_flags_are_all_clear() {
    let flags = StatusFlags::new();
    assert!(!flags.get_negative());
    assert!(!flags.get_overflow());
    assert!(!flags.get_break());
    assert!(!flags.get_decimal());
    assert!(!flags.get_interrupt_disable());
    assert!(!flags.get_zero());
    assert!(!flags.get_carry());
    assert_eq!(flags.to_byte(), 0x20);
}

#[test]
fn replace_sets_one_flag_and_returns_the_previous_value() {
    let mut flags = StatusFlags::new();
    assert!(!flags.replace_carry(true));
    assert!(flags.get_carry());
    assert_eq!(flags.to_byte(), 0x21);
    assert!(flags.replace_carry(true));
    assert!(flags.replace_carry(false));
    assert!(!flags.get_carry());
    assert_eq!(flags.to_byte(), 0x20);
}

#[test]
fn each_flag_sits_at_its_bit() {
    let mut flags = StatusFlags::new();
    flags.replace_negative(true);
    assert_eq!(flags.to_byte(), 0x20 | 0x80);
    flags.replace_negative(false);
    flags.replace_overflow(true);
    assert_eq!(flags.to_byte(), 0x20 | 0x40);
    flags.replace_overflow(false);
    flags.replace_break(true);
    assert_eq!(flags.to_byte(), 0x20 | 0x10);
    flags.replace_break(false);
    flags.replace_decimal(true);
    assert_eq!(flags.to_byte(), 0x20 | 0x08);
    flags.replace_decimal(false);
    flags.replace_interrupt_disable(true);
    assert_eq!(flags.to_byte(), 0x20 | 0x04);
    flags.replace_interrupt_disable(false);
    flags.replace_zero(true);
    assert_eq!(flags.to_byte(), 0x20 | 0x02);
    flags.replace_zero(false);
    flags.replace_carry(true);
    assert_eq!(flags.to_byte(), 0x20 | 0x01);
}

#[test]
fn status_byte_round_trips() {
    for byte in 0..=255u8 {
        let mut flags = StatusFlags::new();
        flags.load_byte(byte);
        assert_eq!(flags.to_byte(), byte | 0x20);
        assert_eq!(flags.get_carry(), byte & 0x01 != 0);
        assert_eq!(flags.get_zero(), byte & 0x02 != 0);
        assert_eq!(flags.get_interrupt_disable(), byte & 0x04 != 0);
        assert_eq!(flags.get_decimal(), byte & 0x08 != 0);
        assert_eq!(flags.get_break(), byte & 0x10 != 0);
        assert_eq!(flags.get_overflow(), byte & 0x40 != 0);
        assert_eq!(flags.get_negative(), byte & 0x80 != 0);
    }
}

#[test]
fn pushed_and_pulled_bytes_treat_the_break_bit_apart() {
    let mut flags = StatusFlags::new();
    flags.load_byte(0xC3);
    assert_eq!(flags.to_pushed_byte(true), 0xC3 | 0x30);
    assert_eq!(flags.to_pushed_byte(false), 0xC3 | 0x20);
    flags.load_pulled_byte(0x1C);
    assert!(!flags.get_break());
    assert_eq!(flags.to_byte(), 0x0C | 0x20);
    flags.replace_break(true);
    flags.load_pulled_byte(0x00);
    assert!(flags.get_break());
}

#[test]
fn registers_start_at_zero_and_can_be_set() {
    let mut registers = Registers::new();
    assert_eq!(registers.get_a(), 0);
    assert_eq!(registers.get_x(), 0);
    assert_eq!(registers.get_y(), 0);
    assert_eq!(registers.get_s(), 0);
    assert_eq!(registers.get_pc(), 0);
    assert_eq!(registers.status.to_byte(), 0x20);
    registers.set_a(1);
    registers.set_x(2);
    registers.set_y(3);
    registers.set_s(4);
    registers.set_pc(0x0506);
    assert_eq!(registers.get_a(), 1);
    assert_eq!(registers.get_x(), 2);
    assert_eq!(registers.get_y(), 3);
    assert_eq!(registers.get_s(), 4);
    assert_eq!(registers.get_pc(), 0x0506);
    assert_eq!(registers.status.to_byte(), 0x20);
}

#[test]
fn result_flags_follow_the_value() {
    let mut registers = Registers::new();
    registers.status.replace_carry(true);
    registers.set_result_flags(0);
    assert!(registers.status.get_zero());
    assert!(!registers.status.get_negative());
    registers.set_result_flags(0x80);
    assert!(!registers.status.get_zero());
    assert!(registers.status.get_negative());
    registers.set_result_flags(0x7F);
    assert!(!registers.status.get_zero());
    assert!(!registers.status.get_negative());
    assert!(registers.status.get_carry());
}

#[test]
fn memory_starts_zeroed_and_keeps_what_is_written() {
    let mut memory = Memory::new();
    assert_eq!(memory.read_byte(0x0000), 0);
    assert_eq!(memory.read_byte(0x1234), 0);
    assert_eq!(memory.read_byte(0xFFFF), 0);
    memory.write_byte(0x1234, 0xAB);
    memory.write_byte(0xFFFF, 0xCD);
    memory.write_byte(0x0000, 0xEF);
    assert_eq!(memory.read_byte(0x1234), 0xAB);
    assert_eq!(memory.read_byte(0xFFFF), 0xCD);
    assert_eq!(memory.read_byte(0x0000), 0xEF);
    assert_eq!(memory.read_byte(0x1233), 0);
    assert_eq!(memory.read_byte(0x1235), 0);
}

#[test]
fn words_are_little_endian() {
    let mut memory = Memory::new();
    memory.write_word(0x2000, 0x1234);
    assert_eq!(memory.read_byte(0x2000), 0x34);
    assert_eq!(memory.read_byte(0x2001), 0x12);
    assert_eq!(memory.read_word(0x2000), 0x1234);
    memory.write_byte(0x3000, 0x78);
    memory.write_byte(0x3001, 0x56);
    assert_eq!(memory.read_word(0x3000), 0x5678);
}

#[test]
fn words_wrap_at_the_top_of_memory() {
    let mut memory = Memory::new();
    memory.write_word(0xFFFF, 0xBEEF);
    assert_eq!(memory.read_byte(0xFFFF), 0xEF);
    assert_eq!(memory.read_byte(0x0000), 0xBE);
    assert_eq!(memory.read_word(0xFFFF), 0xBEEF);
}

#[test]
fn make_and_split_word() {
    assert_eq!(make_word(0x34, 0x12), 0x1234);
    assert_eq!(make_word(0xFF, 0xFF), 0xFFFF);
    assert_eq!(split_word(0x1234), (0x34, 0x12));
    assert_eq!(split_word(0x00FF), (0xFF, 0x00));
}

#[test]
fn builder_attaches_operands() {
    let build = |mode: AddressingModeType| AddressingModeBuilder::new(mode).build(0x34, 0x12);
    assert_eq!(build(AddressingModeType::Accumulator), AddressingValue::Accumulator);
    assert_eq!(build(AddressingModeType::Implied), AddressingValue::Implied);
    assert_eq!(build(AddressingModeType::Immediate), AddressingValue::Immediate(0x34));
    assert_eq!(build(AddressingModeType::Absolute), AddressingValue::Absolute(0x1234));
    assert_eq!(build(AddressingModeType::ZeroPage), AddressingValue::ZeroPage(0x34));
    assert_eq!(build(AddressingModeType::Relative), AddressingValue::Relative(0x34));
    assert_eq!(
        build(AddressingModeType::AbsoluteIndirect),
        AddressingValue::AbsoluteIndirect(0x1234)
    );
    assert_eq!(
        build(AddressingModeType::AbsoluteIndexedWithX),
        AddressingValue::AbsoluteIndexedWithX(0x1234)
    );
    assert_eq!(
        build(AddressingModeType::AbsoluteIndexedWithY),
        AddressingValue::AbsoluteIndexedWithY(0x1234)
    );
    assert_eq!(
        build(AddressingModeType::ZeroPageIndexedWithX),
        AddressingValue::ZeroPageIndexedWithX(0x34)
    );
    assert_eq!(
        build(AddressingModeType::ZeroPageIndexedWithY),
        AddressingValue::ZeroPageIndexedWithY(0x34)
    );
    assert_eq!(build(AddressingModeType::IndexedIndirect), AddressingValue::IndexedIndirect(0x34));
    assert_eq!(build(AddressingModeType::IndirectIndexed), AddressingValue::IndirectIndexed(0x34));
}

#[test]
fn operand_lengths() {
    let len = |mode: AddressingModeType| AddressingModeBuilder::new(mode).operand_len();
    assert_eq!(len(AddressingModeType::Accumulator), 0);
    assert_eq!(len(AddressingModeType::Implied), 0);
    assert_eq!(len(AddressingModeType::Immediate), 1);
    assert_eq!(len(AddressingModeType::ZeroPage), 1);
    assert_eq!(len(AddressingModeType::Relative), 1);
    assert_eq!(len(AddressingModeType::ZeroPageIndexedWithX), 1);
    assert_eq!(len(AddressingModeType::ZeroPageIndexedWithY), 1);
    assert_eq!(len(AddressingModeType::IndexedIndirect), 1);
    assert_eq!(len(AddressingModeType::IndirectIndexed), 1);
    assert_eq!(len(AddressingModeType::Absolute), 2);
    assert_eq!(len(AddressingModeType::AbsoluteIndirect), 2);
    assert_eq!(len(AddressingModeType::AbsoluteIndexedWithX), 2);
    assert_eq!(len(AddressingModeType::AbsoluteIndexedWithY), 2);
    assert_eq!(AddressingModeType::Absolute.operand_len(), 2);
}

fn sample() -> (Registers, Memory) {
    let mut registers = Registers::new();
    registers.set_a(0xAA);
    registers.set_x(0x02);
    registers.set_y(0x03);
    let mut memory = Memory::new();
    memory.write_byte(0x0001, 0x11);
    memory.write_byte(0x0010, 0x22);
    memory.write_byte(0x0012, 0x33);
    memory.write_byte(0x0013, 0x44);
    memory.write_byte(0x0101, 0x99);
    memory.write_byte(0x1234, 0x55);
    memory.write_byte(0x1236, 0x66);
    memory.write_byte(0x1237, 0x77);
    // a pointer to 0x1234 at 0x0020, and one at 0x0022
    memory.write_word(0x0020, 0x1234);
    memory.write_word(0x0022, 0x1236);
    memory.write_word(0x3000, 0x1237);
    (registers, memory)
}

#[test]
fn values_by_addressing_mode() {
    let (registers, memory) = sample();
    let value = |operand: AddressingValue| operand.get_value(&registers, &memory);
    assert_eq!(value(AddressingValue::Accumulator), Some(0xAA));
    assert_eq!(value(AddressingValue::Implied), None);
    assert_eq!(value(AddressingValue::Immediate(0x42)), Some(0x42));
    assert_eq!(value(AddressingValue::Relative(0xFE)), Some(0xFE));
    assert_eq!(value(AddressingValue::ZeroPage(0x10)), Some(0x22));
    assert_eq!(value(AddressingValue::Absolute(0x1234)), Some(0x55));
    assert_eq!(value(AddressingValue::AbsoluteIndirect(0x3000)), Some(0x77));
    assert_eq!(value(AddressingValue::AbsoluteIndexedWithX(0x1234)), Some(0x66));
    assert_eq!(value(AddressingValue::AbsoluteIndexedWithY(0x1234)), Some(0x77));
    assert_eq!(value(AddressingValue::ZeroPageIndexedWithX(0x10)), Some(0x33));
    assert_eq!(value(AddressingValue::ZeroPageIndexedWithY(0x10)), Some(0x44));
    // (0x20 + X) = 0x22 holds 0x1236
    assert_eq!(value(AddressingValue::IndexedIndirect(0x20)), Some(0x66));
    // 0x20 holds 0x1234, plus Y = 0x1237
    assert_eq!(value(AddressingValue::IndirectIndexed(0x20)), Some(0x77));
    assert_eq!(resolve(AddressingValue::ZeroPage(0x10), &registers, &memory), Some(0x22));
    assert_eq!(resolve(AddressingValue::Implied, &registers, &memory), None);
}

#[test]
fn addresses_by_addressing_mode() {
    let (registers, memory) = sample();
    let address = |operand: AddressingValue| operand.get_address(&registers, &memory);
    assert_eq!(address(AddressingValue::Accumulator), None);
    assert_eq!(address(AddressingValue::Implied), None);
    assert_eq!(address(AddressingValue::Immediate(0x42)), None);
    assert_eq!(address(AddressingValue::Relative(0x42)), None);
    assert_eq!(address(AddressingValue::ZeroPage(0x10)), Some(0x0010));
    assert_eq!(address(AddressingValue::Absolute(0x1234)), Some(0x1234));
    assert_eq!(address(AddressingValue::AbsoluteIndirect(0x3000)), Some(0x1237));
    assert_eq!(address(AddressingValue::AbsoluteIndexedWithX(0x1234)), Some(0x1236));
    assert_eq!(address(AddressingValue::AbsoluteIndexedWithY(0x1234)), Some(0x1237));
    assert_eq!(address(AddressingValue::ZeroPageIndexedWithX(0x10)), Some(0x0012));
    assert_eq!(address(AddressingValue::ZeroPageIndexedWithY(0x10)), Some(0x0013));
    assert_eq!(address(AddressingValue::IndexedIndirect(0x20)), Some(0x1236));
    assert_eq!(address(AddressingValue::IndirectIndexed(0x20)), Some(0x1237));
}

#[test]
fn zero_page_index_wraps_inside_the_zero_page() {
    let (registers, memory) = sample();
    // 0xFF + 0x02 reads 0x0001, not 0x0101
    assert_eq!(
        AddressingValue::ZeroPageIndexedWithX(0xFF).get_value(&registers, &memory),
        Some(0x11)
    );
    assert_eq!(
        AddressingValue::ZeroPageIndexedWithX(0xFF).get_address(&registers, &memory),
        Some(0x0001)
    );
    assert_eq!(get_value_from_zero_page_indexed_with_register(0xFF, 0x02, &memory), 0x11);
    assert_eq!(get_value_from_zero_page_indexed_with_register(0xFF, 0x01, &memory), 0x00);
}

#[test]
fn absolute_index_wraps_at_the_top_of_memory() {
    let (_, memory) = sample();
    assert_eq!(get_value_from_absolute_indexed_with_register(0xFFFF, 0x02, &memory), 0x11);
    assert_eq!(get_value_from_absolute_indexed_with_register(0x1234, 0x03, &memory), 0x77);
}

#[test]
fn value_helpers() {
    let (registers, memory) = sample();
    assert_eq!(get_value_from_absolute(0x1234, &memory), 0x55);
    assert_eq!(get_value_from_zero_page(0x10, &memory), 0x22);
    assert_eq!(get_value_from_absolute_indirect(0x3000, &memory), 0x77);
    assert_eq!(get_value_from_absolute_indirect(0x0020, &memory), 0x55);
    assert_eq!(get_value_from_indexed_indirect(0x20, &registers, &memory), 0x66);
    assert_eq!(get_value_from_indexed_indirect(0x1E, &registers, &memory), 0x55);
    assert_eq!(get_value_from_indirect_indexed(0x20, &registers, &memory), 0x77);
    assert_eq!(get_value_from_indirect_indexed(0x22, &registers, &memory), 0x00);
}

#[test]
fn kinds_of_operands() {
    assert_eq!(AddressingValue::Accumulator.kind(), AddressingModeType::Accumulator);
    assert_eq!(AddressingValue::Immediate(1).kind(), AddressingModeType::Immediate);
    assert_eq!(AddressingValue::IndirectIndexed(1).kind(), AddressingModeType::IndirectIndexed);
    assert_eq!(AddressingValue::AbsoluteIndirect(1).kind(), AddressingModeType::AbsoluteIndirect);
}
