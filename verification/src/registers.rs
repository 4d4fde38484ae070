//! The register file: accumulator, index registers, stack pointer, program
//! counter and status flags.

use crate::flags::flags_of_byte;
use crate::flags::Flags;
use crate::flags::StatusFlags;
use crate::Byte;
use crate::Byte2;
use vstd::prelude::*;

verus! {

/// All mutable processor state outside memory.
pub struct Registers {
    /// Accumulator.
    pub a: Byte,
    /// Index register X.
    pub x: Byte,
    /// Index register Y.
    pub y: Byte,
    /// Status flags.
    pub status: StatusFlags,
    /// Stack pointer: the stack's next free byte is at `0x0100 + s`.
    pub s: Byte,
    /// Program counter.
    pub pc: Byte2,
}

/// The register file as plain values.
pub struct RegisterState {
    /// Accumulator.
    pub a: Byte,
    /// Index register X.
    pub x: Byte,
    /// Index register Y.
    pub y: Byte,
    /// Stack pointer.
    pub s: Byte,
    /// Program counter.
    pub pc: Byte2,
    /// Status flags.
    pub flags: Flags,
}

impl View for Registers {
    type V = RegisterState;

    open spec fn view(&self) -> RegisterState {
        RegisterState {
            a: self.a,
            x: self.x,
            y: self.y,
            s: self.s,
            pc: self.pc,
            flags: self.status@,
        }
    }
}

/// The flags after an operation whose result is `value`: zero and negative
/// follow the result, the others stay.
pub open spec fn result_flags(flags: Flags, value: Byte) -> Flags {
    Flags { zero: value == 0, negative: value >= 0x80, ..flags }
}

impl Registers {
    /// Sets the zero and negative flags from a result. Nothing else
    /// changes.
    pub fn set_result_flags(&mut self, value: Byte)
        ensures
            final(self)@ == (RegisterState {
                flags: result_flags(old(self)@.flags, value),
                ..old(self)@
            }),
    {
        self.status.replace_zero(value == 0);
        self.status.replace_negative(value >= 0x80);
    }

    /// A register file with every register zero and every flag clear.
    pub fn new() -> (registers: Registers)
        ensures
            registers@ == (RegisterState {
                a: 0,
                x: 0,
                y: 0,
                s: 0,
                pc: 0,
                flags: flags_of_byte(0),
            }),
    {
        Registers { a: 0, x: 0, y: 0, status: StatusFlags::new(), s: 0, pc: 0 }
    }

    /// The accumulator.
    pub fn get_a(&self) -> (value: Byte)
        ensures
            value == self@.a,
    {
        self.a
    }

    /// Sets the accumulator. No flag changes.
    pub fn set_a(&mut self, value: Byte)
        ensures
            final(self)@ == (RegisterState { a: value, ..old(self)@ }),
    {
        self.a = value;
    }

    /// Index register X.
    pub fn get_x(&self) -> (value: Byte)
        ensures
            value == self@.x,
    {
        self.x
    }

    /// Sets index register X. No flag changes.
    pub fn set_x(&mut self, value: Byte)
        ensures
            final(self)@ == (RegisterState { x: value, ..old(self)@ }),
    {
        self.x = value;
    }

    /// Index register Y.
    pub fn get_y(&self) -> (value: Byte)
        ensures
            value == self@.y,
    {
        self.y
    }

    /// Sets index register Y. No flag changes.
    pub fn set_y(&mut self, value: Byte)
        ensures
            final(self)@ == (RegisterState { y: value, ..old(self)@ }),
    {
        self.y = value;
    }

    /// The stack pointer.
    pub fn get_s(&self) -> (value: Byte)
        ensures
            value == self@.s,
    {
        self.s
    }

    /// Sets the stack pointer. No flag changes.
    pub fn set_s(&mut self, value: Byte)
        ensures
            final(self)@ == (RegisterState { s: value, ..old(self)@ }),
    {
        self.s = value;
    }

    /// The program counter.
    pub fn get_pc(&self) -> (value: Byte2)
        ensures
            value == self@.pc,
    {
        self.pc
    }

    /// Sets the program counter. No flag changes.
    pub fn set_pc(&mut self, value: Byte2)
        ensures
            final(self)@ == (RegisterState { pc: value, ..old(self)@ }),
    {
        self.pc = value;
    }
}

} // verus!
