use mos6502::addressing::AddressingValue;
use mos6502::decode::conditionals::decode_opcode_xx_y_10000;
use mos6502::decode::conditionals::has_branch_pattern;
use mos6502::decode::decode;
use mos6502::decode::decode_pair;
use mos6502::decode::group_one::decode_addressing_mode_xxx_bbb_01;
use mos6502::decode::group_one::decode_opcode_aaa_xxx_01;
use mos6502::decode::group_three::decode_addressing_mode_xxx_bbb_00;
use mos6502::decode::group_three::decode_opcode_aaa_xxx_00;
use mos6502::decode::group_two::decode_addressing_mode_xxx_bbb_10;
use mos6502::decode::group_two::decode_opcode_aaa_xxx_10;
use mos6502::decode::interrupts::decode_opcode_interrupt_subroutine;
use mos6502::decode::others::decode_other_instruction;
use mos6502::instruction::Instruction;
use mos6502::opcode::AddressingModeType;
use mos6502::opcode::IllegalOpcode;
use mos6502::opcode::Opcode;

fn canonical_table() -> Vec<(u8, Opcode, AddressingModeType)> {
    let abs = AddressingModeType::Absolute;
    let absx = AddressingModeType::AbsoluteIndexedWithX;
    let absy = AddressingModeType::AbsoluteIndexedWithY;
    let ind = AddressingModeType::AbsoluteIndirect;
    let acc = AddressingModeType::Accumulator;
    let imm = AddressingModeType::Immediate;
    let imp = AddressingModeType::Implied;
    let indx = AddressingModeType::IndexedIndirect;
    let indy = AddressingModeType::IndirectIndexed;
    let rel = AddressingModeType::Relative;
    let zp = AddressingModeType::ZeroPage;
    let zpx = AddressingModeType::ZeroPageIndexedWithX;
    let zpy = AddressingModeType::ZeroPageIndexedWithY;
    vec![
        (0x69, Opcode::ADC, imm), (0x65, Opcode::ADC, zp), (0x75, Opcode::ADC, zpx),
        (0x6D, Opcode::ADC, abs), (0x7D, Opcode::ADC, absx), (0x79, Opcode::ADC, absy),
        (0x61, Opcode::ADC, indx), (0x71, Opcode::ADC, indy),
        (0x29, Opcode::AND, imm), (0x25, Opcode::AND, zp), (0x35, Opcode::AND, zpx),
        (0x2D, Opcode::AND, abs), (0x3D, Opcode::AND, absx), (0x39, Opcode::AND, absy),
        (0x21, Opcode::AND, indx), (0x31, Opcode::AND, indy),
        (0x0A, Opcode::ASL, acc), (0x06, Opcode::ASL, zp), (0x16, Opcode::ASL, zpx),
        (0x0E, Opcode::ASL, abs), (0x1E, Opcode::ASL, absx),
        (0x90, Opcode::BCC, rel), (0xB0, Opcode::BCS, rel), (0xF0, Opcode::BEQ, rel),
        (0x24, Opcode::BIT, zp), (0x2C, Opcode::BIT, abs),
        (0x30, Opcode::BMI, rel), (0xD0, Opcode::BNE, rel), (0x10, Opcode::BPL, rel),
        (0x00, Opcode::BRK, imp), (0x50, Opcode::BVC, rel), (0x70, Opcode::BVS, rel),
        (0x18, Opcode::CLC, imp), (0xD8, Opcode::CLD, imp), (0x58, Opcode::CLI, imp),
        (0xB8, Opcode::CLV, imp),
        (0xC9, Opcode::CMP, imm), (0xC5, Opcode::CMP, zp), (0xD5, Opcode::CMP, zpx),
        (0xCD, Opcode::CMP, abs), (0xDD, Opcode::CMP, absx), (0xD9, Opcode::CMP, absy),
        (0xC1, Opcode::CMP, indx), (0xD1, Opcode::CMP, indy),
        (0xE0, Opcode::CPX, imm), (0xE4, Opcode::CPX, zp), (0xEC, Opcode::CPX, abs),
        (0xC0, Opcode::CPY, imm), (0xC4, Opcode::CPY, zp), (0xCC, Opcode::CPY, abs),
        (0xC6, Opcode::DEC, zp), (0xD6, Opcode::DEC, zpx), (0xCE, Opcode::DEC, abs),
        (0xDE, Opcode::DEC, absx),
        (0xCA, Opcode::DEX, imp), (0x88, Opcode::DEY, imp),
        (0x49, Opcode::EOR, imm), (0x45, Opcode::EOR, zp), (0x55, Opcode::EOR, zpx),
        (0x4D, Opcode::EOR, abs), (0x5D, Opcode::EOR, absx), (0x59, Opcode::EOR, absy),
        (0x41, Opcode::EOR, indx), (0x51, Opcode::EOR, indy),
        (0xE6, Opcode::INC, zp), (0xF6, Opcode::INC, zpx), (0xEE, Opcode::INC, abs),
        (0xFE, Opcode::INC, absx),
        (0xE8, Opcode::INX, imp), (0xC8, Opcode::INY, imp),
        (0x4C, Opcode::JMP, abs), (0x6C, Opcode::JMP_ABS, ind), (0x20, Opcode::JSR, abs),
        (0xA9, Opcode::LDA, imm), (0xA5, Opcode::LDA, zp), (0xB5, Opcode::LDA, zpx),
        (0xAD, Opcode::LDA, abs), (0xBD, Opcode::LDA, absx), (0xB9, Opcode::LDA, absy),
        (0xA1, Opcode::LDA, indx), (0xB1, Opcode::LDA, indy),
        (0xA2, Opcode::LDX, imm), (0xA6, Opcode::LDX, zp), (0xB6, Opcode::LDX, zpy),
        (0xAE, Opcode::LDX, abs), (0xBE, Opcode::LDX, absy),
        (0xA0, Opcode::LDY, imm), (0xA4, Opcode::LDY, zp), (0xB4, Opcode::LDY, zpx),
        (0xAC, Opcode::LDY, abs), (0xBC, Opcode::LDY, absx),
        (0x4A, Opcode::LSR, acc), (0x46, Opcode::LSR, zp), (0x56, Opcode::LSR, zpx),
        (0x4E, Opcode::LSR, abs), (0x5E, Opcode::LSR, absx),
        (0xEA, Opcode::NOP, imp),
        (0x09, Opcode::ORA, imm), (0x05, Opcode::ORA, zp), (0x15, Opcode::ORA, zpx),
        (0x0D, Opcode::ORA, abs), (0x1D, Opcode::ORA, absx), (0x19, Opcode::ORA, absy),
        (0x01, Opcode::ORA, indx), (0x11, Opcode::ORA, indy),
        (0x48, Opcode::PHA, imp), (0x08, Opcode::PHP, imp), (0x68, Opcode::PLA, imp),
        (0x28, Opcode::PLP, imp),
        (0x2A, Opcode::ROL, acc), (0x26, Opcode::ROL, zp), (0x36, Opcode::ROL, zpx),
        (0x2E, Opcode::ROL, abs), (0x3E, Opcode::ROL, absx),
        (0x6A, Opcode::ROR, acc), (0x66, Opcode::ROR, zp), (0x76, Opcode::ROR, zpx),
        (0x6E, Opcode::ROR, abs), (0x7E, Opcode::ROR, absx),
        (0x40, Opcode::RTI, imp), (0x60, Opcode::RTS, imp),
        (0xE9, Opcode::SBC, imm), (0xE5, Opcode::SBC, zp), (0xF5, Opcode::SBC, zpx),
        (0xED, Opcode::SBC, abs), (0xFD, Opcode::SBC, absx), (0xF9, Opcode::SBC, absy),
        (0xE1, Opcode::SBC, indx), (0xF1, Opcode::SBC, indy),
        (0x38, Opcode::SEC, imp), (0xF8, Opcode::SED, imp), (0x78, Opcode::SEI, imp),
        (0x85, Opcode::STA, zp), (0x95, Opcode::STA, zpx), (0x8D, Opcode::STA, abs),
        (0x9D, Opcode::STA, absx), (0x99, Opcode::STA, absy), (0x81, Opcode::STA, indx),
        (0x91, Opcode::STA, indy),
        (0x86, Opcode::STX, zp), (0x96, Opcode::STX, zpy), (0x8E, Opcode::STX, abs),
        (0x84, Opcode::STY, zp), (0x94, Opcode::STY, zpx), (0x8C, Opcode::STY, abs),
        (0xAA, Opcode::TAX, imp), (0xA8, Opcode::TAY, imp), (0xBA, Opcode::TSX, imp),
        (0x8A, Opcode::TXA, imp), (0x9A, Opcode::TXS, imp), (0x98, Opcode::TYA, imp),
    ]
}

#[test]
fn decode_agrees_with_the_instruction_set_on_every_byte() {
    let table = canonical_table();
    assert_eq!(table.len(), 151);
    for byte in 0..=255u8 {
        let expected = table.iter().find(|entry| entry.0 == byte);
        match (decode(byte), expected) {
            (Ok(instruction), Some(entry)) => {
                assert_eq!(instruction.opcode(), entry.1, "byte {:#04x}", byte);
                assert_eq!(instruction.addressing_mode().kind(), entry.2, "byte {:#04x}", byte);
            }
            (Err(error), None) => assert_eq!(error, IllegalOpcode(byte)),
            (Ok(instruction), None) => panic!("{:#04x} decoded to {:?}", byte, instruction),
            (Err(_), Some(entry)) => panic!("{:#04x} should decode to {:?}", byte, entry),
        }
    }
}

#[test]
fn decode_is_total_and_pairs_legally() {
    let mut legal = 0;
    for byte in 0..=255u8 {
        match decode(byte) {
            Ok(instruction) => {
                legal += 1;
                assert!(instruction.opcode().accepts(instruction.addressing_mode().kind()));
            }
            Err(IllegalOpcode(reported)) => assert_eq!(reported, byte),
        }
    }
    assert_eq!(legal, 151);
}

#[test]
fn decode_pair_agrees_with_decode() {
    for byte in 0..=255u8 {
        match (decode_pair(byte), decode(byte)) {
            (Some((operation, mode)), Ok(instruction)) => {
                assert_eq!(operation, instruction.opcode());
                assert_eq!(mode, instruction.addressing_mode().kind());
            }
            (None, Err(_)) => {}
            (pair, _) => panic!("{:#04x}: {:?}", byte, pair),
        }
    }
}

#[test]
fn decoded_instruction_has_a_zero_operand() {
    assert_eq!(decode(0xA9).unwrap().addressing_mode(), AddressingValue::Immediate(0));
    assert_eq!(decode(0x4C).unwrap().addressing_mode(), AddressingValue::Absolute(0));
    assert_eq!(decode(0x6C).unwrap().addressing_mode(), AddressingValue::AbsoluteIndirect(0));
    assert_eq!(decode(0xEA).unwrap().addressing_mode(), AddressingValue::Implied);
    assert_eq!(decode(0x0A).unwrap().addressing_mode(), AddressingValue::Accumulator);
    assert_eq!(decode(0xD0).unwrap().addressing_mode(), AddressingValue::Relative(0));
}

#[test]
fn unassigned_bytes_are_illegal() {
    assert_eq!(decode(0xFF).unwrap_err(), IllegalOpcode(0xFF));
    // a store with an immediate operand
    assert_eq!(decode(0x89).unwrap_err(), IllegalOpcode(0x89));
    // STX abs,Y and STY abs,X
    assert_eq!(decode(0x9E).unwrap_err(), IllegalOpcode(0x9E));
    assert_eq!(decode(0x9C).unwrap_err(), IllegalOpcode(0x9C));
    // LDX #imm exists, the other immediates of group two do not
    assert!(decode(0xA2).is_ok());
    assert_eq!(decode(0x02).unwrap_err(), IllegalOpcode(0x02));
    assert_eq!(decode(0xC2).unwrap_err(), IllegalOpcode(0xC2));
    // the empty slots of group two, and the whole of group `11`
    assert_eq!(decode(0x12).unwrap_err(), IllegalOpcode(0x12));
    assert_eq!(decode(0x1A).unwrap_err(), IllegalOpcode(0x1A));
    for byte in 0..=255u8 {
        if byte & 0b11 == 0b11 {
            assert_eq!(decode(byte).unwrap_err(), IllegalOpcode(byte));
        }
    }
}

#[test]
fn group_one_tables() {
    let operations = [
        Opcode::ORA, Opcode::AND, Opcode::EOR, Opcode::ADC, Opcode::STA, Opcode::LDA, Opcode::CMP,
        Opcode::SBC,
    ];
    let modes = [
        AddressingModeType::IndexedIndirect,
        AddressingModeType::ZeroPage,
        AddressingModeType::Immediate,
        AddressingModeType::Absolute,
        AddressingModeType::IndirectIndexed,
        AddressingModeType::ZeroPageIndexedWithX,
        AddressingModeType::AbsoluteIndexedWithY,
        AddressingModeType::AbsoluteIndexedWithX,
    ];
    for aaa in 0..8u8 {
        for bbb in 0..8u8 {
            let byte = (aaa << 5) | (bbb << 2) | 0b01;
            assert_eq!(decode_opcode_aaa_xxx_01(byte), operations[aaa as usize]);
            assert_eq!(decode_addressing_mode_xxx_bbb_01(byte), modes[bbb as usize]);
        }
    }
}

#[test]
fn group_two_tables() {
    let operations = [
        Opcode::ASL, Opcode::ROL, Opcode::LSR, Opcode::ROR, Opcode::STX, Opcode::LDX, Opcode::DEC,
        Opcode::INC,
    ];
    for aaa in 0..8u8 {
        for bbb in 0..8u8 {
            let byte = (aaa << 5) | (bbb << 2) | 0b10;
            assert_eq!(decode_opcode_aaa_xxx_10(byte), operations[aaa as usize]);
        }
    }
    assert_eq!(decode_addressing_mode_xxx_bbb_10(0xA2), AddressingModeType::Immediate);
    assert_eq!(decode_addressing_mode_xxx_bbb_10(0x06), AddressingModeType::ZeroPage);
    assert_eq!(decode_addressing_mode_xxx_bbb_10(0x0A), AddressingModeType::Accumulator);
    assert_eq!(decode_addressing_mode_xxx_bbb_10(0x0E), AddressingModeType::Absolute);
    assert_eq!(decode_addressing_mode_xxx_bbb_10(0x16), AddressingModeType::ZeroPageIndexedWithX);
    assert_eq!(decode_addressing_mode_xxx_bbb_10(0x1E), AddressingModeType::AbsoluteIndexedWithX);
    // STX and LDX index by Y
    assert_eq!(decode_addressing_mode_xxx_bbb_10(0x96), AddressingModeType::ZeroPageIndexedWithY);
    assert_eq!(decode_addressing_mode_xxx_bbb_10(0xB6), AddressingModeType::ZeroPageIndexedWithY);
    assert_eq!(decode_addressing_mode_xxx_bbb_10(0xBE), AddressingModeType::AbsoluteIndexedWithY);
}

#[test]
fn group_three_tables() {
    assert_eq!(decode_opcode_aaa_xxx_00(0x24), Opcode::BIT);
    assert_eq!(decode_opcode_aaa_xxx_00(0x4C), Opcode::JMP);
    assert_eq!(decode_opcode_aaa_xxx_00(0x6C), Opcode::JMP_ABS);
    assert_eq!(decode_opcode_aaa_xxx_00(0x84), Opcode::STY);
    assert_eq!(decode_opcode_aaa_xxx_00(0xA0), Opcode::LDY);
    assert_eq!(decode_opcode_aaa_xxx_00(0xC0), Opcode::CPY);
    assert_eq!(decode_opcode_aaa_xxx_00(0xE0), Opcode::CPX);
    assert_eq!(decode_addressing_mode_xxx_bbb_00(0xA0), AddressingModeType::Immediate);
    assert_eq!(decode_addressing_mode_xxx_bbb_00(0x24), AddressingModeType::ZeroPage);
    assert_eq!(decode_addressing_mode_xxx_bbb_00(0x4C), AddressingModeType::Absolute);
    assert_eq!(decode_addressing_mode_xxx_bbb_00(0x6C), AddressingModeType::AbsoluteIndirect);
    assert_eq!(decode_addressing_mode_xxx_bbb_00(0x94), AddressingModeType::ZeroPageIndexedWithX);
    assert_eq!(decode_addressing_mode_xxx_bbb_00(0xBC), AddressingModeType::AbsoluteIndexedWithX);
}

#[test]
fn conditional_branch_table() {
    assert_eq!(decode_opcode_xx_y_10000(0x10), Opcode::BPL);
    assert_eq!(decode_opcode_xx_y_10000(0x30), Opcode::BMI);
    assert_eq!(decode_opcode_xx_y_10000(0x50), Opcode::BVC);
    assert_eq!(decode_opcode_xx_y_10000(0x70), Opcode::BVS);
    assert_eq!(decode_opcode_xx_y_10000(0x90), Opcode::BCC);
    assert_eq!(decode_opcode_xx_y_10000(0xB0), Opcode::BCS);
    assert_eq!(decode_opcode_xx_y_10000(0xD0), Opcode::BNE);
    assert_eq!(decode_opcode_xx_y_10000(0xF0), Opcode::BEQ);
}

#[test]
fn only_bytes_of_the_branch_pattern_are_branches() {
    let branches = [
        Opcode::BPL, Opcode::BMI, Opcode::BVC, Opcode::BVS, Opcode::BCC, Opcode::BCS, Opcode::BNE,
        Opcode::BEQ,
    ];
    for byte in 0..=255u8 {
        let shaped = byte & 0b000_11111 == 0b000_10000;
        assert_eq!(has_branch_pattern(byte), shaped, "byte {:#04x}", byte);
        let decoded = decode(byte).ok().map(|instruction| instruction.opcode());
        let is_branch = decoded.map_or(false, |operation| branches.contains(&operation));
        assert_eq!(is_branch, shaped, "byte {:#04x}", byte);
        if shaped {
            assert_eq!(decoded, Some(decode_opcode_xx_y_10000(byte)));
        }
    }
    // bit 4 set, but not the pattern: no branch is guessed
    assert_eq!(decode(0x1F).unwrap_err(), IllegalOpcode(0x1F));
    assert_eq!(decode(0x11).unwrap().opcode(), Opcode::ORA);
    assert_eq!(decode(0x13).unwrap_err(), IllegalOpcode(0x13));
}

#[test]
fn interrupt_and_subroutine_table() {
    assert_eq!(decode_opcode_interrupt_subroutine(0x00), Opcode::BRK);
    assert_eq!(decode_opcode_interrupt_subroutine(0x20), Opcode::JSR);
    assert_eq!(decode_opcode_interrupt_subroutine(0x40), Opcode::RTI);
    assert_eq!(decode_opcode_interrupt_subroutine(0x60), Opcode::RTS);
}

#[test]
fn other_instruction_table() {
    let table = [
        (0x08, Opcode::PHP), (0x28, Opcode::PLP), (0x48, Opcode::PHA), (0x68, Opcode::PLA),
        (0x88, Opcode::DEY), (0xA8, Opcode::TAY), (0xC8, Opcode::INY), (0xE8, Opcode::INX),
        (0x18, Opcode::CLC), (0x38, Opcode::SEC), (0x58, Opcode::CLI), (0x78, Opcode::SEI),
        (0x98, Opcode::TYA), (0xB8, Opcode::CLV), (0xD8, Opcode::CLD), (0xF8, Opcode::SED),
        (0x8A, Opcode::TXA), (0x9A, Opcode::TXS), (0xAA, Opcode::TAX), (0xBA, Opcode::TSX),
        (0xCA, Opcode::DEX), (0xEA, Opcode::NOP),
    ];
    for (byte, operation) in table {
        assert_eq!(decode_other_instruction(byte), operation);
    }
}

#[test]
fn instruction_new_refuses_illegal_pairs() {
    assert!(Instruction::new(Opcode::STA, AddressingValue::Immediate(1)).is_none());
    assert!(Instruction::new(Opcode::JMP, AddressingValue::ZeroPage(1)).is_none());
    assert!(Instruction::new(Opcode::NOP, AddressingValue::Accumulator).is_none());
    let made = Instruction::new(Opcode::LDA, AddressingValue::Immediate(7)).unwrap();
    assert_eq!(made.opcode(), Opcode::LDA);
    assert_eq!(made.addressing_mode(), AddressingValue::Immediate(7));
    let other = made.with_operand(0x34, 0x12);
    assert_eq!(other.addressing_mode(), AddressingValue::Immediate(0x34));
    let jump = Instruction::new(Opcode::JMP, AddressingValue::Absolute(0)).unwrap();
    assert_eq!(jump.with_operand(0x34, 0x12).addressing_mode(), AddressingValue::Absolute(0x1234));
}
