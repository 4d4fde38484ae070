//! Instructions that set or clear one flag, and `NOP`.

use crate::flags::Flags;
use crate::registers::RegisterState;
use crate::registers::Registers;
use vstd::prelude::*;

verus! {

/// Clear carry.
pub fn clc(registers: &mut Registers)
    ensures
        final(registers)@ == (RegisterState {
            flags: Flags { carry: false, ..old(registers)@.flags },
            ..old(registers)@
        }),
{
    registers.status.replace_carry(false);
}

/// Set carry.
pub fn sec(registers: &mut Registers)
    ensures
        final(registers)@ == (RegisterState {
            flags: Flags { carry: true, ..old(registers)@.flags },
            ..old(registers)@
        }),
{
    registers.status.replace_carry(true);
}

/// Clear interrupt disable.
pub fn cli(registers: &mut Registers)
    ensures
        final(registers)@ == (RegisterState {
            flags: Flags { interrupt_disable: false, ..old(registers)@.flags },
            ..old(registers)@
        }),
{
    registers.status.replace_interrupt_disable(false);
}

/// Set interrupt disable.
pub fn sei(registers: &mut Registers)
    ensures
        final(registers)@ == (RegisterState {
            flags: Flags { interrupt_disable: true, ..old(registers)@.flags },
            ..old(registers)@
        }),
{
    registers.status.replace_interrupt_disable(true);
}

/// Clear decimal.
pub fn cld(registers: &mut Registers)
    ensures
        final(registers)@ == (RegisterState {
            flags: Flags { decimal: false, ..old(registers)@.flags },
            ..old(registers)@
        }),
{
    registers.status.replace_decimal(false);
}

/// Set decimal.
pub fn sed(registers: &mut Registers)
    ensures
        final(registers)@ == (RegisterState {
            flags: Flags { decimal: true, ..old(registers)@.flags },
            ..old(registers)@
        }),
{
    registers.status.replace_decimal(true);
}

/// Clear overflow.
pub fn clv(registers: &mut Registers)
    ensures
        final(registers)@ == (RegisterState {
            flags: Flags { overflow: false, ..old(registers)@.flags },
            ..old(registers)@
        }),
{
    registers.status.replace_overflow(false);
}

/// No operation.
pub fn nop(registers: &mut Registers)
    ensures
        final(registers)@ == old(registers)@,
{
}

} // verus!
