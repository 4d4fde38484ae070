//! Arithmetic on bytes as the processor does it: addition and subtraction
//! with carry, shifts and rotates through carry, comparison, and the
//! target of a relative branch.

use crate::flags::bit_value;
use crate::Byte;
use crate::Byte2;
use vstd::prelude::*;

verus! {

/// The result of an addition or subtraction: the byte, the carry out of bit
/// 7, and whether the result is wrong as a signed number.
#[derive(Clone, Copy, Debug, PartialEq, Eq, Structural)]
pub struct Sum {
    /// The low eight bits of the result.
    pub value: Byte,
    /// Carry out of bit 7; after a subtraction, set when nothing was
    /// borrowed.
    pub carry: bool,
    /// Signed overflow.
    pub overflow: bool,
}

/// The result of a shift or rotate: the byte and the bit that fell out.
#[derive(Clone, Copy, Debug, PartialEq, Eq, Structural)]
pub struct Shifted {
    /// The shifted byte.
    pub value: Byte,
    /// The bit that left the byte.
    pub carry: bool,
}

/// The outcome of comparing a register with a value.
#[derive(Clone, Copy, Debug, PartialEq, Eq, Structural)]
pub struct Comparison {
    /// The register is at least the value: the subtraction borrows nothing.
    pub carry: bool,
    /// The register equals the value.
    pub zero: bool,
    /// Bit 7 of the register minus the value.
    pub negative: bool,
}

/// A byte read as a number in two's complement.
pub open spec fn signed(byte: Byte) -> int {
    if byte < 0x80 {
        byte as int
    } else {
        byte - 0x100
    }
}

/// Whether bit 7 of a byte, the sign, is set.
pub open spec fn is_negative(byte: Byte) -> bool {
    byte >= 0x80
}

/// `a + m + carry`: the sum modulo 256, the carry out, and overflow, which
/// is set when both operands have the same sign and the result has the
/// other.
pub open spec fn sum_with_carry(a: Byte, m: Byte, carry: bool) -> Sum {
    let total = a + m + bit_value(carry, 1);
    let value = (total % 0x100) as Byte;
    Sum {
        value,
        carry: total > 0xFF,
        overflow: is_negative(a) == is_negative(m) && is_negative(a) != is_negative(value),
    }
}

/// `a - m - (1 - carry)`, computed as the processor does: the sum of `a`,
/// the complement of `m`, and the carry.
pub open spec fn difference_with_borrow(a: Byte, m: Byte, carry: bool) -> Sum {
    sum_with_carry(a, (0xFF - m) as Byte, carry)
}

/// A byte shifted left by one bit: bit 7 leaves, zero enters at bit 0.
pub open spec fn shifted_left(m: Byte) -> Shifted {
    Shifted { value: ((m * 2) % 0x100) as Byte, carry: m >= 0x80 }
}

/// A byte shifted right by one bit: bit 0 leaves, zero enters at bit 7.
pub open spec fn shifted_right(m: Byte) -> Shifted {
    Shifted { value: m / 2, carry: m % 2 == 1 }
}

/// A byte rotated left through carry: bit 7 leaves, the carry enters at
/// bit 0.
pub open spec fn rotated_left(m: Byte, carry: bool) -> Shifted {
    Shifted { value: ((m * 2) % 0x100 + bit_value(carry, 1)) as Byte, carry: m >= 0x80 }
}

/// A byte rotated right through carry: bit 0 leaves, the carry enters at
/// bit 7.
pub open spec fn rotated_right(m: Byte, carry: bool) -> Shifted {
    Shifted { value: (m / 2 + bit_value(carry, 0x80)) as Byte, carry: m % 2 == 1 }
}

/// A register compared with a value, by subtraction without borrow.
pub open spec fn compared(register: Byte, m: Byte) -> Comparison {
    Comparison {
        carry: register >= m,
        zero: register == m,
        negative: (register - m) % 0x100 >= 0x80,
    }
}

/// A byte plus one, `0xFF` going to `0x00`.
pub open spec fn incremented(byte: Byte) -> Byte {
    ((byte + 1) % 0x100) as Byte
}

/// A byte minus one, `0x00` going to `0xFF`.
pub open spec fn decremented(byte: Byte) -> Byte {
    ((byte - 1) % 0x100) as Byte
}

/// The address that a taken branch goes to: the program counter, which is
/// already past the branch instruction, plus the offset read as a signed
/// byte, modulo 65536.
pub open spec fn branch_target(pc: Byte2, offset: Byte) -> Byte2 {
    ((pc + signed(offset)) % 0x10000) as Byte2
}

/// Adds `m` and the carry to `a`.
pub fn add_with_carry(a: Byte, m: Byte, carry: bool) -> (sum: Sum)
    ensures
        sum == sum_with_carry(a, m, carry),
{
    let carry_in: Byte2 = if carry {
        1
    } else {
        0
    };
    let total: Byte2 = a as Byte2 + m as Byte2 + carry_in;
    let value = (total & 0xFF) as Byte;
    assert(total & 0xFF == total % 0x100) by (bit_vector);
    assert(((a ^ value) & (m ^ value) & 0x80 != 0) == ((a >= 0x80) == (m >= 0x80) && (a >= 0x80)
        != (value >= 0x80))) by (bit_vector);
    Sum { value, carry: total > 0xFF, overflow: ((a ^ value) & (m ^ value) & 0x80) != 0 }
}

/// Subtracts `m` and the borrow, which is the carry inverted, from `a`.
pub fn subtract_with_borrow(a: Byte, m: Byte, carry: bool) -> (difference: Sum)
    ensures
        difference == difference_with_borrow(a, m, carry),
{
    assert(!m == 0xFF - m) by (bit_vector);
    add_with_carry(a, !m, carry)
}

/// Shifts a byte left by one bit.
pub fn shift_left(m: Byte) -> (shifted: Shifted)
    ensures
        shifted == shifted_left(m),
{
    assert(m << 1 == (m * 2) % 0x100) by (bit_vector);
    Shifted { value: m << 1, carry: m >= 0x80 }
}

/// Shifts a byte right by one bit.
pub fn shift_right(m: Byte) -> (shifted: Shifted)
    ensures
        shifted == shifted_right(m),
{
    assert(m >> 1 == m / 2) by (bit_vector);
    assert((m & 1 != 0) == (m % 2 == 1)) by (bit_vector);
    Shifted { value: m >> 1, carry: m & 1 != 0 }
}

/// Rotates a byte left through the carry.
pub fn rotate_left(m: Byte, carry: bool) -> (rotated: Shifted)
    ensures
        rotated == rotated_left(m, carry),
{
    let carry_in: Byte = if carry {
        1
    } else {
        0
    };
    assert(carry_in <= 1 ==> (m << 1) | carry_in == (m * 2) % 0x100 + carry_in) by (bit_vector);
    Shifted { value: (m << 1) | carry_in, carry: m >= 0x80 }
}

/// Rotates a byte right through the carry.
pub fn rotate_right(m: Byte, carry: bool) -> (rotated: Shifted)
    ensures
        rotated == rotated_right(m, carry),
{
    let carry_in: Byte = if carry {
        0x80
    } else {
        0
    };
    assert((carry_in == 0 || carry_in == 0x80) ==> (m >> 1) | carry_in == m / 2 + carry_in)
        by (bit_vector);
    assert((m & 1 != 0) == (m % 2 == 1)) by (bit_vector);
    Shifted { value: (m >> 1) | carry_in, carry: m & 1 != 0 }
}

/// Compares a register with a value.
pub fn compare(register: Byte, m: Byte) -> (outcome: Comparison)
    ensures
        outcome == compared(register, m),
{
    Comparison {
        carry: register >= m,
        zero: register == m,
        negative: register.wrapping_sub(m) >= 0x80,
    }
}

/// The target of a taken branch.
pub fn branch_to(pc: Byte2, offset: Byte) -> (target: Byte2)
    ensures
        target == branch_target(pc, offset),
{
    if offset < 0x80 {
        pc.wrapping_add(offset as Byte2)
    } else {
        pc.wrapping_sub(0x100 - offset as Byte2)
    }
}

/// Subtraction gives the difference modulo 256, keeps the carry exactly
/// when nothing is borrowed, and overflows exactly when the difference
/// read as signed numbers does not fit in a byte.
pub proof fn lemma_difference_is_subtraction(a: Byte, m: Byte, carry: bool)
    ensures
        difference_with_borrow(a, m, carry).value == (a - m - bit_value(!carry, 1)) % 0x100,
        difference_with_borrow(a, m, carry).carry == (a - m - bit_value(!carry, 1) >= 0),
        difference_with_borrow(a, m, carry).overflow == !(-0x80 <= signed(a) - signed(m)
            - bit_value(!carry, 1) <= 0x7F),
{
}

/// Addition overflows exactly when the sum read as signed numbers does not
/// fit in a byte.
pub proof fn lemma_overflow_is_signed_overflow(a: Byte, m: Byte, carry: bool)
    ensures
        sum_with_carry(a, m, carry).overflow == !(-0x80 <= signed(a) + signed(m) + bit_value(
            carry,
            1,
        ) <= 0x7F),
{
}

} // verus!
