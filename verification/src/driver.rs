//! The fetch-decode-execute driver: one instruction per step, and the
//! reset and interrupt entry points.

use crate::addressing::attached;
use crate::addressing::mode_of;
use crate::addressing::AddressingValue;
use crate::decode::classify;
use crate::decode::decode;
use crate::execute::execute;
use crate::execute::executed;
use crate::execute::stack::after_interrupt;
use crate::execute::stack::interrupt;
use crate::execute::Machine;
use crate::flags::Flags;
use crate::instruction::Instruction;
use crate::memory::next_address;
use crate::memory::word_at;
use crate::memory::Memory;
use crate::memory::IRQ_VECTOR;
use crate::memory::NMI_VECTOR;
use crate::memory::RESET_VECTOR;
use crate::opcode::operand_length;
use crate::opcode::IllegalOpcode;
use crate::opcode::Opcode;
use crate::registers::RegisterState;
use crate::registers::Registers;
use crate::Byte;
use crate::Byte2;
use vstd::prelude::*;

verus! {

/// Whether the driver executes instructions.
#[derive(Clone, Copy, Debug, PartialEq, Eq, Structural)]
pub enum DriverState {
    /// The next step executes the instruction at the program counter.
    Running,
    /// An illegal opcode stopped the processor. It stays stopped until it is
    /// reset or given a new program counter.
    Halted,
}

/// The instruction that starts at `pc`: what the byte there encodes, with
/// the two bytes after it as operand. `None` where that byte encodes no
/// instruction.
pub open spec fn instruction_at(cells: Seq<Byte>, pc: Byte2) -> Option<(Opcode, AddressingValue)> {
    match classify(cells[pc as int]) {
        Some((operation, mode)) => Some(
            (
                operation,
                attached(
                    mode,
                    cells[next_address(pc) as int],
                    cells[next_address(next_address(pc)) as int],
                ),
            ),
        ),
        None => None,
    }
}

/// The address of the instruction after the one at `pc`, whose operand
/// takes `length` bytes.
pub open spec fn advanced(pc: Byte2, length: int) -> Byte2 {
    ((pc + 1 + length) % 0x10000) as Byte2
}

/// The machine after an instruction that starts at the program counter:
/// the program counter moves past the instruction, then the instruction is
/// executed.
pub open spec fn after_instruction(operation: Opcode, operand: AddressingValue, before: Machine)
    -> Machine {
    let length = operand_length(mode_of(operand));
    executed(
        operation,
        operand,
        Machine {
            registers: RegisterState {
                pc: advanced(before.registers.pc, length),
                ..before.registers
            },
            memory: before.memory,
        },
    )
}

/// The machine after the instruction at the program counter, which has to
/// be a legal one.
pub open spec fn stepped(before: Machine) -> Machine {
    let (operation, operand) = instruction_at(before.memory, before.registers.pc)->0;
    after_instruction(operation, operand, before)
}

/// The registers after a reset: the program counter comes from the reset
/// vector and interrupt disable is set.
pub open spec fn after_reset(before: Machine) -> RegisterState {
    RegisterState {
        pc: word_at(before.memory, RESET_VECTOR),
        flags: Flags { interrupt_disable: true, ..before.registers.flags },
        ..before.registers
    }
}

/// Reads the instruction that starts at `pc`: decodes the byte there and
/// attaches as many of the bytes after it as its addressing mode takes.
pub fn read_opcode(memory: &Memory, pc: Byte2) -> (result: Result<Instruction, IllegalOpcode>)
    ensures
        match instruction_at(memory@, pc) {
            Some((operation, operand)) => result matches Ok(instruction)
                && instruction.operation() == operation && instruction.operand() == operand
                && instruction.well_formed(),
            None => result == Err::<Instruction, IllegalOpcode>(IllegalOpcode(memory@[pc as int])),
        },
{
    let instruction = decode(memory.read_byte(pc))?;
    let length = instruction.addressing_mode().kind().operand_len();
    let low = if length >= 1 {
        memory.read_byte(pc.wrapping_add(1))
    } else {
        0
    };
    let high = if length >= 2 {
        memory.read_byte(pc.wrapping_add(2))
    } else {
        0
    };
    Ok(instruction.with_operand(low, high))
}

/// A processor with its memory.
pub struct Driver {
    registers: Registers,
    memory: Memory,
    state: DriverState,
    fault: Byte,
}

/// A driver as plain values: the machine, whether it runs, and the byte it
/// halted on.
pub struct DriverView {
    /// The registers and memory.
    pub machine: Machine,
    /// Whether the driver is running or halted.
    pub state: DriverState,
    /// The illegal opcode that halted the driver. It means something only
    /// while the driver is halted.
    pub halted_on: Byte,
}

impl View for Driver {
    type V = DriverView;

    closed spec fn view(&self) -> DriverView {
        DriverView {
            machine: Machine { registers: self.registers@, memory: self.memory@ },
            state: self.state,
            halted_on: self.fault,
        }
    }
}

impl Driver {
    /// Whether the driver is running or halted.
    pub open spec fn status(self) -> DriverState {
        self@.state
    }

    /// The illegal opcode that halted the driver. It means something only
    /// while the driver is halted.
    pub open spec fn halted_on(self) -> Byte {
        self@.halted_on
    }

    /// The registers and memory as plain values.
    pub open spec fn machine(self) -> Machine {
        self@.machine
    }

    /// A running driver over the given registers and memory.
    pub fn new(registers: Registers, memory: Memory) -> (driver: Driver)
        ensures
            driver.status() == DriverState::Running,
            driver.machine() == (Machine { registers: registers@, memory: memory@ }),
    {
        Driver { registers, memory, state: DriverState::Running, fault: 0 }
    }

    /// Takes the driver apart into its registers and its memory.
    pub fn into_parts(self) -> (parts: (Registers, Memory))
        ensures
            self.machine() == (Machine { registers: parts.0@, memory: parts.1@ }),
    {
        (self.registers, self.memory)
    }

    /// The register file.
    pub fn registers(&self) -> (registers: &Registers)
        ensures
            registers@ == self.machine().registers,
    {
        &self.registers
    }

    /// The address space.
    pub fn memory(&self) -> (memory: &Memory)
        ensures
            memory@ == self.machine().memory,
    {
        &self.memory
    }

    /// Stores `value` at `addr`, as a program loader or a peripheral does
    /// between steps. Nothing else changes.
    pub fn write_byte(&mut self, addr: Byte2, value: Byte)
        ensures
            final(self).status() == old(self).status(),
            final(self).halted_on() == old(self).halted_on(),
            final(self).machine() == crate::execute::with_byte(old(self).machine(), addr, value),
    {
        self.memory.write_byte(addr, value);
    }

    /// Whether the driver is running or halted.
    pub fn state(&self) -> (state: DriverState)
        ensures
            state == self.status(),
    {
        self.state
    }

    /// Moves the program counter past `instruction`, which starts where it
    /// points, and executes the instruction.
    fn run(&mut self, instruction: Instruction)
        ensures
            final(self).status() == old(self).status(),
            final(self).halted_on() == old(self).halted_on(),
            final(self).machine().registers == after_instruction(
                instruction.operation(),
                instruction.operand(),
                old(self).machine(),
            ).registers,
            final(self).machine().memory == after_instruction(
                instruction.operation(),
                instruction.operand(),
                old(self).machine(),
            ).memory,
    {
        let length = instruction.addressing_mode().kind().operand_len();
        self.registers.pc = self.registers.pc.wrapping_add(1 + length as Byte2);
        assert(self.registers@ == (RegisterState {
            pc: advanced(old(self).registers.pc, length as int),
            ..old(self).registers@
        }));
        execute(instruction, &mut self.registers, &mut self.memory);
    }

    /// What the next step would fetch: the instruction at the program
    /// counter, or `None` where the byte there encodes no instruction.
    pub open spec fn next_instruction(self) -> Option<(Opcode, AddressingValue)> {
        instruction_at(self.machine().memory, self.machine().registers.pc)
    }

    /// The byte at the program counter.
    pub open spec fn next_byte(self) -> Byte {
        self.machine().memory[self.machine().registers.pc as int]
    }

    /// Executes the instruction at the program counter.
    ///
    /// A running driver that finds a legal opcode moves the program counter
    /// past the instruction and executes it. One that finds an illegal
    /// opcode halts with the program counter still on it and reports the
    /// byte. A halted driver reports the byte it halted on and changes
    /// nothing.
    pub fn step(&mut self) -> (result: Result<(), IllegalOpcode>)
        ensures
            result is Ok <==> old(self).status() == DriverState::Running && old(
                self,
            ).next_instruction() is Some,
            result is Ok ==> final(self).status() == DriverState::Running,
            result is Ok ==> final(self).machine().registers == stepped(
                old(self).machine(),
            ).registers,
            result is Ok ==> final(self).machine().memory == stepped(old(self).machine()).memory,
            result is Err ==> final(self).status() == DriverState::Halted,
            result is Err ==> result == Err::<(), IllegalOpcode>(
                IllegalOpcode(final(self).halted_on()),
            ),
            result is Err ==> final(self).machine() == old(self).machine(),
            old(self).status() == DriverState::Halted ==> *final(self) == *old(self),
            old(self).status() == DriverState::Running && result is Err ==> final(self).halted_on()
                == old(self).next_byte(),
    {
        match self.state {
            DriverState::Halted => Err(IllegalOpcode(self.fault)),
            DriverState::Running => {
                let pc = self.registers.pc;
                match read_opcode(&self.memory, pc) {
                    Err(illegal) => {
                        self.state = DriverState::Halted;
                        self.fault = illegal.0;
                        Err(illegal)
                    },
                    Ok(instruction) => {
                        self.run(instruction);
                        Ok(())
                    },
                }
            },
        }
    }

    /// Resets the processor: the program counter is loaded from the reset
    /// vector at `0xFFFC`, interrupt disable is set, and a halted driver
    /// runs again. The other registers and memory stay.
    pub fn reset(&mut self)
        ensures
            final(self).status() == DriverState::Running,
            final(self).machine().registers == after_reset(old(self).machine()),
            final(self).machine().memory == old(self).machine().memory,
    {
        self.registers.pc = self.memory.read_word(RESET_VECTOR);
        self.registers.status.replace_interrupt_disable(true);
        self.state = DriverState::Running;
    }

    /// Gives the processor a new program counter. A halted driver runs
    /// again.
    pub fn set_pc(&mut self, pc: Byte2)
        ensures
            final(self).status() == DriverState::Running,
            final(self).machine().registers == (RegisterState {
                pc,
                ..old(self).machine().registers
            }),
            final(self).machine().memory == old(self).machine().memory,
    {
        self.registers.pc = pc;
        self.state = DriverState::Running;
    }

    /// Whether the processor would take an interrupt request now: it is
    /// running and its interrupt-disable flag is clear.
    pub open spec fn takes_irq(self) -> bool {
        self.status() == DriverState::Running && !self.machine().registers.flags.interrupt_disable
    }

    /// Raises an interrupt request. A running processor whose interrupt
    /// disable flag is clear enters the handler whose address is at
    /// `0xFFFE`, as `BRK` does but with the break bit clear in the status
    /// byte pushed; otherwise nothing happens.
    pub fn raise_irq(&mut self)
        ensures
            final(self).status() == old(self).status(),
            final(self).halted_on() == old(self).halted_on(),
            old(self).takes_irq() ==> final(self).machine().registers == after_interrupt(
                old(self).machine(),
                IRQ_VECTOR,
                false,
            ).registers,
            old(self).takes_irq() ==> final(self).machine().memory == after_interrupt(
                old(self).machine(),
                IRQ_VECTOR,
                false,
            ).memory,
            !old(self).takes_irq() ==> *final(self) == *old(self),
    {
        let masked = self.registers.status.get_interrupt_disable();
        if self.state == DriverState::Running && !masked {
            interrupt(IRQ_VECTOR, false, &mut self.registers, &mut self.memory);
        }
    }

    /// Raises a non-maskable interrupt. A running processor enters the
    /// handler whose address is at `0xFFFA`, whatever its interrupt disable
    /// flag says; on a halted one nothing happens.
    pub fn raise_nmi(&mut self)
        ensures
            final(self).status() == old(self).status(),
            final(self).halted_on() == old(self).halted_on(),
            old(self).status() == DriverState::Running ==> final(self).machine().registers
                == after_interrupt(old(self).machine(), NMI_VECTOR, false).registers,
            old(self).status() == DriverState::Running ==> final(self).machine().memory
                == after_interrupt(old(self).machine(), NMI_VECTOR, false).memory,
            old(self).status() == DriverState::Halted ==> *final(self) == *old(self),
    {
        if self.state == DriverState::Running {
            interrupt(NMI_VECTOR, false, &mut self.registers, &mut self.memory);
        }
    }
}

} // verus!
