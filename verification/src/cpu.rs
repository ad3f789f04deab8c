//! The processor as its driver sees it: registers, a halt latch, and a step
//! function that executes one instruction per call.
//!
//! An instruction is atomic for the caller. A step either executes one whole
//! instruction and reports its cycles, or reports why it did not and leaves
//! registers and bus as they were. The cycle count is advice for the host's
//! timing; the core does not wait.
use vstd::prelude::*;
use crate::addressing::resolved;
use crate::bus::{read_word_le, Bus, MemState, RESET_VECTOR};
use crate::error::CpuError;
use crate::execute::{accepts, branch_taken, fault};
use crate::instruction::{decode, Instruction};
use crate::opcodes::{mode_of, operation_of};
use crate::registers::{machine, Machine, Registers};
use crate::status::Status;

verus! {

/// A processor: its registers and whether it is halted.
#[derive(Clone, Copy, Debug, PartialEq, Eq, Structural)]
pub struct Cpu {
    /// The register file.
    pub regs: Registers,
    /// Set once a halting opcode was met. Only [`Cpu::reset`] clears it.
    pub halted: bool,
}

/// No entry of the opcode table pairs an operation with an addressing mode
/// that cannot supply its operand.
pub proof fn lemma_table_accepts(opcode: u8, regs: Registers, mem: MemState)
    ensures
        accepts(operation_of(opcode), resolved(mode_of(opcode), regs, mem).operand),
{
}

impl Cpu {
    /// The machine once the opcode byte at the program counter is fetched:
    /// the program counter points at the first operand byte.
    pub open spec fn fetched(self, mem: MemState) -> Machine {
        machine(Registers { pc: self.regs.pc.wrapping_add(1), ..self.regs }, mem)
    }

    /// The instruction at the program counter.
    pub open spec fn next_instruction(self, mem: MemState) -> Instruction {
        Instruction::decoded(mem.read(self.regs.pc))
    }

    /// The error that keeps the next step from executing, if there is one.
    pub open spec fn next_fault(self, mem: MemState) -> Option<CpuError> {
        if self.halted {
            Some(CpuError::Halted)
        } else {
            let instruction = self.next_instruction(mem);
            let start = self.fetched(mem);
            fault(
                instruction.op,
                resolved(instruction.addr_mode, start.regs, mem).operand,
                self.regs.status,
            )
        }
    }

    /// The registers after a reset: execution continues at the address in the
    /// reset vector with interrupts disabled, and the stack pointer has moved
    /// down by three, the reset being an interrupt sequence whose writes are
    /// suppressed. The other registers and flags keep their values.
    pub open spec fn reset_registers(self, mem: MemState) -> Registers {
        Registers {
            pc: mem.read_word(RESET_VECTOR),
            sp: self.regs.sp.wrapping_sub(3),
            status: Status { interrupt_disable: true, ..self.regs.status },
            ..self.regs
        }
    }

    /// A processor before its first reset: registers zero, not halted.
    pub fn new() -> (cpu: Cpu)
        ensures
            cpu == (Cpu { regs: Registers::new_spec(), halted: false }),
    {
        Cpu { regs: Registers::new(), halted: false }
    }

    /// Resets the processor. This is the only way out of the halted state.
    pub fn reset<B: Bus>(&mut self, bus: &B)
        requires
            bus@.wf(),
        ensures
            *final(self) == (Cpu { regs: old(self).reset_registers(bus@), halted: false }),
    {
        self.regs.pc = read_word_le(bus, RESET_VECTOR);
        self.regs.sp = self.regs.sp.wrapping_sub(3);
        self.regs.status.interrupt_disable = true;
        self.halted = false;
    }

    /// Executes the instruction at the program counter and returns the
    /// cycles it took.
    ///
    /// A halted processor does nothing and reports [`CpuError::Halted`]. A
    /// halting opcode halts the processor and reports the same. Addition or
    /// subtraction under the Decimal flag reports [`CpuError::DecimalMode`].
    /// No other error occurs, and after any error the registers and the bus
    /// are as before.
    pub fn step<B: Bus>(&mut self, bus: &mut B) -> (result: Result<u16, CpuError>)
        requires
            old(bus)@.wf(),
        ensures
            final(bus)@.wf(),
            match old(self).next_fault(old(bus)@) {
                Some(error) => {
                    &&& result == Err::<u16, CpuError>(error)
                    &&& error == CpuError::Halted || error == CpuError::DecimalMode
                    &&& final(self).regs == old(self).regs
                    &&& final(self).halted == (error == CpuError::Halted)
                    &&& final(bus)@ == old(bus)@
                },
                None => {
                    let instruction = old(self).next_instruction(old(bus)@);
                    let start = old(self).fetched(old(bus)@);
                    let found = resolved(instruction.addr_mode, start.regs, start.mem);
                    &&& result matches Ok(count)
                    &&& count == instruction.realized_cycles(
                        found.page_crossed,
                        branch_taken(instruction.op, old(self).regs.status),
                    )
                    &&& machine(final(self).regs, final(bus)@) == instruction.applied(start)
                    &&& !final(self).halted
                },
            },
    {
        if self.halted {
            return Err(CpuError::Halted);
        }
        let opcode = bus.read_byte(self.regs.pc);
        let mut instruction = decode(opcode);
        let saved = self.regs.pc;
        proof {
            lemma_table_accepts(opcode, old(self).fetched(old(bus)@).regs, old(bus)@);
        }
        self.regs.pc = saved.wrapping_add(1);
        match instruction.run(&mut self.regs, bus) {
            Ok(count) => Ok(count),
            Err(error) => {
                self.regs.pc = saved;
                self.halted = match error {
                    CpuError::Halted => true,
                    _ => false,
                };
                Err(error)
            },
        }
    }
}

} // verus!
