use mos6502::alu::add_with_carry;
use mos6502::alu::branch_to;
use mos6502::alu::compare;
use mos6502::alu::rotate_left;
use mos6502::alu::rotate_right;
use mos6502::alu::shift_left;
use mos6502::alu::shift_right;
use mos6502::alu::subtract_with_borrow;
use mos6502::alu::Comparison;
use mos6502::alu::Shifted;
use mos6502::alu::Sum;

#[test]
fn addition_with_signed_overflow() {
    assert_eq!(
        add_with_carry(0x50, 0x50, false),
        Sum { value: 0xA0, carry: false, overflow: true }
    );
    assert_eq!(
        add_with_carry(0xFF, 0x01, false),
        Sum { value: 0x00, carry: true, overflow: false }
    );
    assert_eq!(
        add_with_carry(0x50, 0x10, false),
        Sum { value: 0x60, carry: false, overflow: false }
    );
    assert_eq!(add_with_carry(0xD0, 0x90, false), Sum { value: 0x60, carry: true, overflow: true });
    assert_eq!(add_with_carry(0x7F, 0x00, true), Sum { value: 0x80, carry: false, overflow: true });
    assert_eq!(add_with_carry(0xFF, 0xFF, true), Sum { value: 0xFF, carry: true, overflow: false });
}

#[test]
fn addition_agrees_with_wide_arithmetic_everywhere() {
    for a in 0..=255u8 {
        for m in 0..=255u8 {
            for carry in [false, true] {
                let sum = add_with_carry(a, m, carry);
                let wide = a as u16 + m as u16 + carry as u16;
                let signed = a as i8 as i16 + m as i8 as i16 + carry as i16;
                assert_eq!(sum.value, wide as u8);
                assert_eq!(sum.carry, wide > 0xFF);
                assert_eq!(sum.overflow, !(-128..=127).contains(&signed));
            }
        }
    }
}

#[test]
fn subtraction_with_borrow() {
    assert_eq!(
        subtract_with_borrow(0x50, 0x10, true),
        Sum { value: 0x40, carry: true, overflow: false }
    );
    assert_eq!(
        subtract_with_borrow(0x50, 0x10, false),
        Sum { value: 0x3F, carry: true, overflow: false }
    );
    assert_eq!(
        subtract_with_borrow(0x10, 0x20, true),
        Sum { value: 0xF0, carry: false, overflow: false }
    );
    assert_eq!(
        subtract_with_borrow(0x80, 0x01, true),
        Sum { value: 0x7F, carry: true, overflow: true }
    );
    assert_eq!(
        subtract_with_borrow(0x7F, 0xFF, true),
        Sum { value: 0x80, carry: false, overflow: true }
    );
}

#[test]
fn subtraction_agrees_with_wide_arithmetic_everywhere() {
    for a in 0..=255u8 {
        for m in 0..=255u8 {
            for carry in [false, true] {
                let difference = subtract_with_borrow(a, m, carry);
                let wide = a as i16 - m as i16 - (!carry) as i16;
                let signed = a as i8 as i16 - m as i8 as i16 - (!carry) as i16;
                assert_eq!(difference.value, wide as u8);
                assert_eq!(difference.carry, wide >= 0);
                assert_eq!(difference.overflow, !(-128..=127).contains(&signed));
            }
        }
    }
}

#[test]
fn shifts_and_rotates() {
    assert_eq!(shift_left(0x81), Shifted { value: 0x02, carry: true });
    assert_eq!(shift_left(0x40), Shifted { value: 0x80, carry: false });
    assert_eq!(shift_right(0x81), Shifted { value: 0x40, carry: true });
    assert_eq!(shift_right(0x02), Shifted { value: 0x01, carry: false });
    assert_eq!(rotate_left(0x81, false), Shifted { value: 0x02, carry: true });
    assert_eq!(rotate_left(0x01, true), Shifted { value: 0x03, carry: false });
    assert_eq!(rotate_right(0x81, false), Shifted { value: 0x40, carry: true });
    assert_eq!(rotate_right(0x02, true), Shifted { value: 0x81, carry: false });
}

#[test]
fn shifts_agree_with_the_operators_everywhere() {
    for m in 0..=255u8 {
        assert_eq!(shift_left(m), Shifted { value: m << 1, carry: m & 0x80 != 0 });
        assert_eq!(shift_right(m), Shifted { value: m >> 1, carry: m & 0x01 != 0 });
        for carry in [false, true] {
            assert_eq!(
                rotate_left(m, carry),
                Shifted { value: (m << 1) | carry as u8, carry: m & 0x80 != 0 }
            );
            assert_eq!(
                rotate_right(m, carry),
                Shifted { value: (m >> 1) | ((carry as u8) << 7), carry: m & 0x01 != 0 }
            );
        }
    }
}

#[test]
fn comparison_outcomes() {
    assert_eq!(compare(0x10, 0x10), Comparison { carry: true, zero: true, negative: false });
    assert_eq!(compare(0x20, 0x10), Comparison { carry: true, zero: false, negative: false });
    assert_eq!(compare(0x10, 0x20), Comparison { carry: false, zero: false, negative: true });
    assert_eq!(compare(0xFF, 0x01), Comparison { carry: true, zero: false, negative: true });
    assert_eq!(compare(0x00, 0xFF), Comparison { carry: false, zero: false, negative: false });
}

#[test]
fn branch_targets() {
    assert_eq!(branch_to(0x0602, 0x7F), 0x0602 + 127);
    assert_eq!(branch_to(0x0602, 0x80), 0x0602 - 128);
    assert_eq!(branch_to(0x0602, 0x00), 0x0602);
    assert_eq!(branch_to(0x0602, 0xFE), 0x0600);
    assert_eq!(branch_to(0xFFF0, 0x7F), 0x006F);
    assert_eq!(branch_to(0x0010, 0x80), 0xFF90);
}

#[test]
fn branch_targets_agree_with_signed_addition_everywhere() {
    for pc in [0x0000u16, 0x007F, 0x0080, 0x0600, 0x7FFF, 0x8000, 0xFF7F, 0xFF80, 0xFFFF] {
        for offset in 0..=255u8 {
            assert_eq!(branch_to(pc, offset), pc.wrapping_add(offset as i8 as u16));
        }
    }
}
