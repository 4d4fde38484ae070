//! The processor status register.
//!
//! The seven flags live in a `bitvec` bit array, one bit each, at the bit
//! positions the hardware gives them. Verified code sees the array only
//! through the three small functions below, whose contracts are taken on
//! trust; everything else in this module is proved from them.

use crate::Byte;
use bitvec::array::BitArray;
use bitvec::order::Lsb0;
use vstd::prelude::*;

verus! {

/// Index of the carry flag (C).
pub const CARRY_BIT: usize = 0;

/// Index of the zero flag (Z).
pub const ZERO_BIT: usize = 1;

/// Index of the interrupt-disable flag (I).
pub const INTERRUPT_DISABLE_BIT: usize = 2;

/// Index of the decimal flag (D).
pub const DECIMAL_BIT: usize = 3;

/// Index of the break flag (B).
pub const BREAK_BIT: usize = 4;

/// Index of the overflow flag (V).
pub const OVERFLOW_BIT: usize = 6;

/// Index of the negative flag (N).
pub const NEGATIVE_BIT: usize = 7;

/// A `bitvec` bit array of one machine word in least-significant-first
/// order. Verus is told nothing of what is inside.
#[verifier::external_body]
pub struct FlagBits {
    array: BitArray<[usize; 1], Lsb0>,
}

/// The bits that a bit array holds, by index.
pub uninterp spec fn stored_bits(bits: FlagBits) -> Seq<bool>;

/// Trusted: `BitArray::ZERO` is an array of one machine word of bits, all of
/// them clear.
#[verifier::external_body]
fn zeroed_bits() -> (bits: FlagBits)
    ensures
        stored_bits(bits) == Seq::new(usize::BITS as nat, |i: int| false),
{
    FlagBits { array: BitArray::ZERO }
}

/// Trusted: indexing a bit array (`array[index]`) gives the bit at `index`.
/// The index has to lie inside the array, or the call panics.
#[verifier::external_body]
fn bit_at(bits: &FlagBits, index: usize) -> (bit: bool)
    requires
        index < stored_bits(*bits).len(),
    ensures
        bit == stored_bits(*bits)[index as int],
{
    bits.array[index]
}

/// Trusted: `BitSlice::replace` writes `value` at `index`, leaves every other
/// bit as it was and returns the bit that was there. The index has to lie
/// inside the array, or the call panics; inside the array it never does.
#[verifier::external_body]
fn replace_bit(bits: &mut FlagBits, index: usize, value: bool) -> (previous: bool)
    requires
        index < stored_bits(*old(bits)).len(),
    ensures
        previous == stored_bits(*old(bits))[index as int],
        stored_bits(*final(bits)) == stored_bits(*old(bits)).update(index as int, value),
    no_unwind
{
    bits.array.replace(index, value)
}

/// The seven flags of the status register as plain truth values.
pub struct Flags {
    /// C, bit 0.
    pub carry: bool,
    /// Z, bit 1.
    pub zero: bool,
    /// I, bit 2.
    pub interrupt_disable: bool,
    /// D, bit 3.
    pub decimal: bool,
    /// B, bit 4.
    pub brk: bool,
    /// V, bit 6.
    pub overflow: bool,
    /// N, bit 7.
    pub negative: bool,
}

/// `weight` if the flag is set, zero if it is clear.
pub open spec fn bit_value(set: bool, weight: int) -> int {
    if set {
        weight
    } else {
        0
    }
}

/// The status register as the byte that is pushed on the stack: each flag at
/// its bit position, and bit 5, which no flag occupies, reading as one.
pub open spec fn status_byte(flags: Flags) -> Byte {
    (bit_value(flags.carry, 1) + bit_value(flags.zero, 2) + bit_value(flags.interrupt_disable, 4)
        + bit_value(flags.decimal, 8) + bit_value(flags.brk, 16) + 32 + bit_value(
        flags.overflow,
        64,
    ) + bit_value(flags.negative, 128)) as Byte
}

/// The flags that a status byte pulled from the stack stands for. Bit 5 is
/// ignored.
pub open spec fn flags_of_byte(byte: Byte) -> Flags {
    Flags {
        carry: byte % 2 == 1,
        zero: (byte / 2) % 2 == 1,
        interrupt_disable: (byte / 4) % 2 == 1,
        decimal: (byte / 8) % 2 == 1,
        brk: (byte / 16) % 2 == 1,
        overflow: (byte / 64) % 2 == 1,
        negative: (byte / 128) % 2 == 1,
    }
}

/// The flags after a status byte is pulled from the stack: every flag comes
/// from the byte but the break flag, which stays.
pub open spec fn pulled_flags(flags: Flags, byte: Byte) -> Flags {
    Flags { brk: flags.brk, ..flags_of_byte(byte) }
}

/// The processor status register: negative, overflow, break, decimal,
/// interrupt disable, zero and carry.
pub struct StatusFlags {
    bits: FlagBits,
}

impl View for StatusFlags {
    type V = Flags;

    closed spec fn view(&self) -> Flags {
        let bits = stored_bits(self.bits);
        Flags {
            carry: bits[CARRY_BIT as int],
            zero: bits[ZERO_BIT as int],
            interrupt_disable: bits[INTERRUPT_DISABLE_BIT as int],
            decimal: bits[DECIMAL_BIT as int],
            brk: bits[BREAK_BIT as int],
            overflow: bits[OVERFLOW_BIT as int],
            negative: bits[NEGATIVE_BIT as int],
        }
    }
}

impl StatusFlags {
    #[verifier::type_invariant]
    spec fn holds_every_flag(self) -> bool {
        stored_bits(self.bits).len() > NEGATIVE_BIT
    }

    /// A status register with every flag clear.
    pub fn new() -> (flags: StatusFlags)
        ensures
            flags@ == flags_of_byte(0),
    {
        StatusFlags { bits: zeroed_bits() }
    }

    /// Whether the negative flag is set.
    pub fn get_negative(&self) -> (bit: bool)
        ensures
            bit == self@.negative,
    {
        proof {
            use_type_invariant(self);
        }
        bit_at(&self.bits, NEGATIVE_BIT)
    }

    /// Sets the negative flag to `value` and returns what it was.
    pub fn replace_negative(&mut self, value: bool) -> (previous: bool)
        ensures
            previous == old(self)@.negative,
            final(self)@ == (Flags { negative: value, ..old(self)@ }),
    {
        proof {
            use_type_invariant(&*self);
        }
        replace_bit(&mut self.bits, NEGATIVE_BIT, value)
    }

    /// Whether the overflow flag is set.
    pub fn get_overflow(&self) -> (bit: bool)
        ensures
            bit == self@.overflow,
    {
        proof {
            use_type_invariant(self);
        }
        bit_at(&self.bits, OVERFLOW_BIT)
    }

    /// Sets the overflow flag to `value` and returns what it was.
    pub fn replace_overflow(&mut self, value: bool) -> (previous: bool)
        ensures
            previous == old(self)@.overflow,
            final(self)@ == (Flags { overflow: value, ..old(self)@ }),
    {
        proof {
            use_type_invariant(&*self);
        }
        replace_bit(&mut self.bits, OVERFLOW_BIT, value)
    }

    /// Whether the break flag is set.
    pub fn get_break(&self) -> (bit: bool)
        ensures
            bit == self@.brk,
    {
        proof {
            use_type_invariant(self);
        }
        bit_at(&self.bits, BREAK_BIT)
    }

    /// Sets the break flag to `value` and returns what it was.
    pub fn replace_break(&mut self, value: bool) -> (previous: bool)
        ensures
            previous == old(self)@.brk,
            final(self)@ == (Flags { brk: value, ..old(self)@ }),
    {
        proof {
            use_type_invariant(&*self);
        }
        replace_bit(&mut self.bits, BREAK_BIT, value)
    }

    /// Whether the decimal flag is set.
    pub fn get_decimal(&self) -> (bit: bool)
        ensures
            bit == self@.decimal,
    {
        proof {
            use_type_invariant(self);
        }
        bit_at(&self.bits, DECIMAL_BIT)
    }

    /// Sets the decimal flag to `value` and returns what it was.
    pub fn replace_decimal(&mut self, value: bool) -> (previous: bool)
        ensures
            previous == old(self)@.decimal,
            final(self)@ == (Flags { decimal: value, ..old(self)@ }),
    {
        proof {
            use_type_invariant(&*self);
        }
        replace_bit(&mut self.bits, DECIMAL_BIT, value)
    }

    /// Whether the interrupt-disable flag is set.
    pub fn get_interrupt_disable(&self) -> (bit: bool)
        ensures
            bit == self@.interrupt_disable,
    {
        proof {
            use_type_invariant(self);
        }
        bit_at(&self.bits, INTERRUPT_DISABLE_BIT)
    }

    /// Sets the interrupt-disable flag to `value` and returns what it was.
    pub fn replace_interrupt_disable(&mut self, value: bool) -> (previous: bool)
        ensures
            previous == old(self)@.interrupt_disable,
            final(self)@ == (Flags { interrupt_disable: value, ..old(self)@ }),
    {
        proof {
            use_type_invariant(&*self);
        }
        replace_bit(&mut self.bits, INTERRUPT_DISABLE_BIT, value)
    }

    /// Whether the zero flag is set.
    pub fn get_zero(&self) -> (bit: bool)
        ensures
            bit == self@.zero,
    {
        proof {
            use_type_invariant(self);
        }
        bit_at(&self.bits, ZERO_BIT)
    }

    /// Sets the zero flag to `value` and returns what it was.
    pub fn replace_zero(&mut self, value: bool) -> (previous: bool)
        ensures
            previous == old(self)@.zero,
            final(self)@ == (Flags { zero: value, ..old(self)@ }),
    {
        proof {
            use_type_invariant(&*self);
        }
        replace_bit(&mut self.bits, ZERO_BIT, value)
    }

    /// Whether the carry flag is set.
    pub fn get_carry(&self) -> (bit: bool)
        ensures
            bit == self@.carry,
    {
        proof {
            use_type_invariant(self);
        }
        bit_at(&self.bits, CARRY_BIT)
    }

    /// Sets the carry flag to `value` and returns what it was.
    pub fn replace_carry(&mut self, value: bool) -> (previous: bool)
        ensures
            previous == old(self)@.carry,
            final(self)@ == (Flags { carry: value, ..old(self)@ }),
    {
        proof {
            use_type_invariant(&*self);
        }
        replace_bit(&mut self.bits, CARRY_BIT, value)
    }

    /// Packs the flags into a byte, each at its bit position, with bit 5
    /// set.
    pub fn to_byte(&self) -> (byte: Byte)
        ensures
            byte == status_byte(self@),
    {
        let brk = self.get_break();
        self.to_pushed_byte(brk)
    }

    /// The byte that goes on the stack when the status register is pushed:
    /// the flags as they are, except that the break bit is `brk`.
    pub fn to_pushed_byte(&self, brk: bool) -> (byte: Byte)
        ensures
            byte == status_byte(Flags { brk, ..self@ }),
    {
        let mut byte: Byte = 0x20;
        if self.get_carry() {
            byte = byte + 0x01;
        }
        if self.get_zero() {
            byte = byte + 0x02;
        }
        if self.get_interrupt_disable() {
            byte = byte + 0x04;
        }
        if self.get_decimal() {
            byte = byte + 0x08;
        }
        if brk {
            byte = byte + 0x10;
        }
        if self.get_overflow() {
            byte = byte + 0x40;
        }
        if self.get_negative() {
            byte = byte + 0x80;
        }
        byte
    }

    /// Sets every flag from a status byte.
    pub fn load_byte(&mut self, byte: Byte)
        ensures
            final(self)@ == flags_of_byte(byte),
    {
        self.load_pulled_byte(byte);
        self.replace_break((byte / 16) % 2 == 1);
    }

    /// Sets the flags from a status byte that was pulled from the stack.
    /// The break flag is not pulled: it stays as it is.
    pub fn load_pulled_byte(&mut self, byte: Byte)
        ensures
            final(self)@ == pulled_flags(old(self)@, byte),
    {
        self.replace_carry(byte % 2 == 1);
        self.replace_zero((byte / 2) % 2 == 1);
        self.replace_interrupt_disable((byte / 4) % 2 == 1);
        self.replace_decimal((byte / 8) % 2 == 1);
        self.replace_overflow((byte / 64) % 2 == 1);
        self.replace_negative((byte / 128) % 2 == 1);
    }
}

/// Packing the flags into a status byte and unpacking that byte gives the
/// same flags back, and what is pulled after a push, whatever break bit was
/// pushed, is what was there before.
pub proof fn lemma_status_byte_round_trip(flags: Flags, brk: bool)
    ensures
        flags_of_byte(status_byte(flags)) == flags,
        pulled_flags(flags, status_byte(Flags { brk, ..flags })) == flags,
{
}

} // verus!
