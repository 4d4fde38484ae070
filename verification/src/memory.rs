//! The flat 64 KiB address space.

use crate::Byte;
use crate::Byte2;
use vstd::prelude::*;

verus! {

/// Number of addressable bytes.
pub const MEMORY_SIZE: usize = 0x10000;

/// First address of the stack page.
pub const STACK_BASE: Byte2 = 0x0100;

/// Where the address of the non-maskable interrupt handler is stored.
pub const NMI_VECTOR: Byte2 = 0xFFFA;

/// Where the address that a reset starts at is stored.
pub const RESET_VECTOR: Byte2 = 0xFFFC;

/// Where the address of the handler of interrupt requests and of `BRK` is
/// stored.
pub const IRQ_VECTOR: Byte2 = 0xFFFE;

/// The address after `addr`, wrapping from the top of memory to zero.
pub open spec fn next_address(addr: Byte2) -> Byte2 {
    if addr == 0xFFFF {
        0
    } else {
        (addr + 1) as Byte2
    }
}

/// The address before `addr`, wrapping from zero to the top of memory.
pub open spec fn previous_address(addr: Byte2) -> Byte2 {
    if addr == 0 {
        0xFFFF
    } else {
        (addr - 1) as Byte2
    }
}

/// The 16-bit value whose low byte is `low` and whose high byte is `high`.
pub open spec fn word_of(low: Byte, high: Byte) -> Byte2 {
    (high * 256 + low) as Byte2
}

/// The low byte of a 16-bit value.
pub open spec fn low_byte(word: Byte2) -> Byte {
    (word % 256) as Byte
}

/// The high byte of a 16-bit value.
pub open spec fn high_byte(word: Byte2) -> Byte {
    (word / 256) as Byte
}

/// The little-endian 16-bit value stored at `addr` and the address after it.
pub open spec fn word_at(cells: Seq<Byte>, addr: Byte2) -> Byte2 {
    word_of(cells[addr as int], cells[next_address(addr) as int])
}

/// Memory after a little-endian store of `word` at `addr` and the address
/// after it.
pub open spec fn with_word(cells: Seq<Byte>, addr: Byte2, word: Byte2) -> Seq<Byte> {
    cells.update(addr as int, low_byte(word)).update(next_address(addr) as int, high_byte(word))
}

/// Joins two bytes into a 16-bit value, low byte first.
pub fn make_word(low: Byte, high: Byte) -> (word: Byte2)
    ensures
        word == word_of(low, high),
{
    let high_part: Byte2 = high as Byte2;
    let low_part: Byte2 = low as Byte2;
    high_part * 256 + low_part
}

/// Splits a 16-bit value into its low and high byte.
pub fn split_word(word: Byte2) -> (bytes: (Byte, Byte))
    ensures
        bytes.0 == low_byte(word),
        bytes.1 == high_byte(word),
        word_of(bytes.0, bytes.1) == word,
{
    ((word % 256) as Byte, (word / 256) as Byte)
}

/// The whole address space: 65536 bytes, every 16-bit address valid.
pub struct Memory(Vec<Byte>);

impl View for Memory {
    type V = Seq<Byte>;

    closed spec fn view(&self) -> Seq<Byte> {
        self.0@
    }
}

impl Memory {
    #[verifier::type_invariant]
    spec fn covers_address_space(self) -> bool {
        self.0@.len() == MEMORY_SIZE
    }

    /// A memory with every byte zero.
    pub fn new() -> (memory: Memory)
        ensures
            memory@ == Seq::new(MEMORY_SIZE as nat, |i: int| 0u8),
    {
        let mut cells: Vec<Byte> = Vec::with_capacity(MEMORY_SIZE);
        let mut filled: usize = 0;
        while filled < MEMORY_SIZE
            invariant
                filled <= MEMORY_SIZE,
                cells@ == Seq::new(filled as nat, |i: int| 0u8),
            decreases MEMORY_SIZE - filled,
        {
            cells.push(0);
            filled = filled + 1;
        }
        Memory(cells)
    }

    /// The byte at `addr`.
    pub fn read_byte(&self, addr: Byte2) -> (value: Byte)
        ensures
            value == self@[addr as int],
            self@.len() == MEMORY_SIZE,
    {
        proof {
            use_type_invariant(self);
        }
        self.0[addr as usize]
    }

    /// Stores `value` at `addr`. Nothing else changes.
    pub fn write_byte(&mut self, addr: Byte2, value: Byte)
        ensures
            final(self)@ == old(self)@.update(addr as int, value),
            final(self)@.len() == MEMORY_SIZE,
    {
        proof {
            use_type_invariant(&*self);
        }
        self.0[addr as usize] = value;
    }

    /// The little-endian 16-bit value at `addr`: low byte at `addr`, high
    /// byte at the address after it, which for `0xFFFF` is `0x0000`.
    pub fn read_word(&self, addr: Byte2) -> (word: Byte2)
        ensures
            word == word_at(self@, addr),
            self@.len() == MEMORY_SIZE,
    {
        let low = self.read_byte(addr);
        let high = self.read_byte(addr.wrapping_add(1));
        make_word(low, high)
    }

    /// Stores `word` little-endian: low byte at `addr`, then high byte at
    /// the address after it, which for `0xFFFF` is `0x0000`.
    pub fn write_word(&mut self, addr: Byte2, word: Byte2)
        ensures
            final(self)@ == with_word(old(self)@, addr, word),
            final(self)@.len() == MEMORY_SIZE,
    {
        let (low, high) = split_word(word);
        self.write_byte(addr, low);
        self.write_byte(addr.wrapping_add(1), high);
    }
}

} // verus!
