//! An instruction in flight: its table entry, the split of its cycles into
//! phases, and what resolving and executing it once leaves behind.
//!
//! Timing rule. The opcode fetch takes one cycle, then come the cycles that
//! fetch the operand address, the two cycles of a read-modify-write (the
//! dummy read and the write of the unmodified value), and the cycles that
//! execute. An instruction that pays for a page crossing only when one
//! happens keeps that cycle among its execute cycles and skips it when no
//! page is crossed. A branch that is taken costs one cycle more, and a second
//! one when its destination lies in another page than the next instruction.
use vstd::prelude::*;
use crate::addressing::{address_of, resolve, resolved, Operand, Resolved};
use crate::bus::Bus;
use crate::error::CpuError;
use crate::execute::{branch_taken, executed, fault};
use crate::opcodes::{descriptor, get_instruction, AddrMode, Op};
use crate::registers::{machine, Machine, Registers};

verus! {

/// An instruction and the context of its execution.
#[derive(Clone, Copy, Debug, PartialEq, Eq, Structural)]
pub struct Instruction {
    /// How the operand is found.
    pub addr_mode: AddrMode,
    /// What is done to it.
    pub op: Op,
    /// The address of the operand, once resolved.
    pub operand_addr: u16,
    /// The base or pointer address that the operand address was reached from.
    pub index_addr: u16,
    /// Cycles spent fetching the operand address.
    pub cycles_to_fetch: u8,
    /// Cycles spent executing, the one kept for a page crossing included.
    pub cycles_to_run: u8,
    /// Cycles spent on the dummy read and write of a read-modify-write.
    pub cycles_to_rmw: u8,
    /// The byte read by the dummy read, which is written back unmodified.
    pub rmw_buffer: u8,
    /// Whether resolving the operand crossed a page.
    pub zp_crossed: bool,
}

/// The cycles that fetching the operand address takes in each mode.
pub open spec fn fetch_cycles(mode: AddrMode) -> u8 {
    match mode {
        AddrMode::Absolute | AddrMode::Indirect => 2,
        AddrMode::AbsoluteIndexedX(_) | AddrMode::AbsoluteIndexedY(_) => 3,
        AddrMode::Zeropage => 1,
        AddrMode::ZeropageIndexedX | AddrMode::ZeropageIndexedY => 2,
        AddrMode::IndexedIndirectX | AddrMode::IndirectIndexedY(_) => 4,
        _ => 0,
    }
}

/// The cycles of the dummy read and write of a read-modify-write.
pub open spec fn rmw_cycles(is_rmw: bool) -> u8 {
    if is_rmw {
        2
    } else {
        0
    }
}

/// The cycles left for execution out of a base count of `total_cycles`: what
/// the opcode fetch, the operand fetch and the read-modify-write do not use.
/// The opcode fetch is not deducted where a cycle is kept for a page
/// crossing.
pub open spec fn run_cycles(total_cycles: u8, is_rmw: bool, mode: AddrMode) -> int {
    total_cycles - fetch_cycles(mode) - rmw_cycles(is_rmw) - if mode.extra_cycle_on_cross() {
        0int
    } else {
        1int
    }
}

/// The extra cycles of a branch: one when taken, two when taken across a page.
pub open spec fn branch_penalty(taken: bool, page_crossed: bool) -> int {
    if !taken {
        0
    } else if page_crossed {
        2
    } else {
        1
    }
}

impl Instruction {
    /// The instruction that [`Instruction::new`] builds.
    pub open spec fn created(op: Op, total_cycles: u8, is_rmw: bool, addr_mode: AddrMode) -> Instruction {
        Instruction {
            addr_mode,
            op,
            operand_addr: 0,
            index_addr: 0,
            cycles_to_fetch: fetch_cycles(addr_mode),
            cycles_to_run: run_cycles(total_cycles, is_rmw, addr_mode) as u8,
            cycles_to_rmw: rmw_cycles(is_rmw),
            rmw_buffer: 0,
            zp_crossed: false,
        }
    }

    /// The instruction that an opcode byte decodes to.
    pub open spec fn decoded(opcode: u8) -> Instruction {
        let (op, total_cycles, is_rmw, addr_mode) = descriptor(opcode);
        Instruction::created(op, total_cycles, is_rmw, addr_mode)
    }

    /// The cycles the instruction takes in all, given whether resolving its
    /// operand crossed a page and whether it is a branch that was taken.
    pub open spec fn realized_cycles(self, page_crossed: bool, taken: bool) -> int {
        1 + self.cycles_to_fetch + self.cycles_to_rmw + self.cycles_to_run - if
            self.addr_mode.extra_cycle_on_cross() && !page_crossed {
            1int
        } else {
            0int
        } + branch_penalty(taken, page_crossed)
    }

    /// Whether the instruction performs the dummy read and write on `operand`.
    pub open spec fn rewrites(self, operand: Operand) -> bool {
        self.cycles_to_rmw != 0 && operand is Address
    }

    /// The context that resolving and executing leaves in the instruction.
    pub open spec fn with_context(self, found: Resolved, m: Machine) -> Instruction {
        Instruction {
            operand_addr: found.operand.address(),
            index_addr: found.index_addr,
            zp_crossed: found.page_crossed,
            rmw_buffer: if self.rewrites(found.operand) {
                m.mem.read(found.operand.address())
            } else {
                self.rmw_buffer
            },
            ..self
        }
    }

    /// The machine after the instruction, whose operand bytes start at the
    /// program counter of `m`, has been resolved and executed: the program
    /// counter moves past the operand bytes, a read-modify-write writes the
    /// byte it read back unmodified, and the operation executes.
    pub open spec fn applied(self, m: Machine) -> Machine {
        let found = resolved(self.addr_mode, m.regs, m.mem);
        let advanced = m.jump(m.regs.pc.wrapping_add(found.length as u16));
        let primed = if self.rewrites(found.operand) {
            advanced.write(found.operand.address(), m.mem.read(found.operand.address()))
        } else {
            advanced
        };
        executed(self.op, found.operand, primed)
    }

    /// Builds an instruction from a table entry and splits its base cycle
    /// count into the fetch, read-modify-write and execute phases.
    ///
    /// The base count must cover the phases that the mode and the
    /// read-modify-write flag impose; every entry of the opcode table does.
    pub fn new(op: Op, total_cycles: u8, is_rmw: bool, addr_mode: AddrMode) -> (instruction:
        Instruction)
        requires
            run_cycles(total_cycles, is_rmw, addr_mode) >= 0,
        ensures
            instruction == Instruction::created(op, total_cycles, is_rmw, addr_mode),
    {
        let mut i = Instruction {
            op,
            addr_mode,
            operand_addr: 0,
            index_addr: 0,
            cycles_to_fetch: 0,
            cycles_to_run: 0,
            cycles_to_rmw: if is_rmw {
                2
            } else {
                0
            },
            rmw_buffer: 0,
            zp_crossed: false,
        };
        let mut extra_cycle = false;
        match i.addr_mode {
            AddrMode::Absolute => {
                i.cycles_to_fetch = 2;
            },
            AddrMode::AbsoluteIndexedX(extra) => {
                i.cycles_to_fetch = 3;
                extra_cycle = extra;
            },
            AddrMode::AbsoluteIndexedY(extra) => {
                i.cycles_to_fetch = 3;
                extra_cycle = extra;
            },
            AddrMode::Zeropage => {
                i.cycles_to_fetch = 1;
            },
            AddrMode::Indirect => {
                i.cycles_to_fetch = 2;
            },
            AddrMode::ZeropageIndexedX => {
                i.cycles_to_fetch = 2;
            },
            AddrMode::ZeropageIndexedY => {
                i.cycles_to_fetch = 2;
            },
            AddrMode::IndexedIndirectX => {
                i.cycles_to_fetch = 4;
            },
            AddrMode::IndirectIndexedY(extra) => {
                i.cycles_to_fetch = 4;
                extra_cycle = extra;
            },
            _ => {},
        }
        i.cycles_to_run = total_cycles - i.cycles_to_fetch - i.cycles_to_rmw;
        // The opcode fetch has taken one cycle already. An instruction with
        // an extra cycle on a page crossing keeps it.
        if !extra_cycle {
            i.cycles_to_run -= 1;
        }
        i
    }

    /// The three-letter mnemonic of the instruction's operation.
    pub fn mnemonic(&self) -> (text: &'static str)
        ensures
            text@ == self.op.name(),
            text@.len() == 3,
    {
        self.op.mnemonic()
    }

    /// The cycles the instruction takes in all, given whether resolving its
    /// operand crossed a page and whether it is a branch that was taken.
    pub fn cycles(&self, page_crossed: bool, taken: bool) -> (count: u16)
        ensures
            count == self.realized_cycles(page_crossed, taken),
    {
        let phases: u16 = 1 + self.cycles_to_fetch as u16 + self.cycles_to_rmw as u16
            + self.cycles_to_run as u16;
        let skipped: u16 = match self.addr_mode {
            AddrMode::AbsoluteIndexedX(true)
            | AddrMode::AbsoluteIndexedY(true)
            | AddrMode::IndirectIndexedY(true) => if page_crossed {
                0
            } else {
                1
            },
            _ => 0,
        };
        let branch: u16 = if !taken {
            0
        } else if page_crossed {
            2
        } else {
            1
        };
        phases - skipped + branch
    }

    /// Resolves the operand at the program counter and executes the
    /// instruction in one call, and returns the cycles it took.
    ///
    /// The program counter must point at the first operand byte. On an error
    /// nothing is changed: neither the instruction, nor a register, nor the
    /// bus.
    pub fn run<B: Bus>(&mut self, regs: &mut Registers, bus: &mut B) -> (result: Result<
        u16,
        CpuError,
    >)
        requires
            old(bus)@.wf(),
        ensures
            final(bus)@.wf(),
            ({
                let before = machine(*old(regs), old(bus)@);
                let found = resolved(old(self).addr_mode, *old(regs), old(bus)@);
                match fault(old(self).op, found.operand, old(regs).status) {
                    Some(error) => {
                        &&& result == Err::<u16, CpuError>(error)
                        &&& *final(self) == *old(self)
                        &&& machine(*final(regs), final(bus)@) == before
                    },
                    None => {
                        &&& result matches Ok(count)
                        &&& count == old(self).realized_cycles(
                            found.page_crossed,
                            branch_taken(old(self).op, old(regs).status),
                        )
                        &&& *final(self) == old(self).with_context(found, before)
                        &&& machine(*final(regs), final(bus)@) == old(self).applied(before)
                    },
                }
            }),
    {
        let found = resolve(self.addr_mode, regs, bus);
        match self.op.check(found.operand, &regs.status) {
            Err(error) => {
                return Err(error);
            },
            Ok(()) => {},
        }
        self.operand_addr = address_of(found.operand);
        self.index_addr = found.index_addr;
        self.zp_crossed = found.page_crossed;
        regs.pc = regs.pc.wrapping_add(found.length as u16);
        if self.cycles_to_rmw != 0 {
            match found.operand {
                Operand::Address(addr) => {
                    self.rmw_buffer = bus.read_byte(addr);
                    let _ = bus.write_byte(addr, self.rmw_buffer);
                },
                _ => {},
            }
        }
        match self.op.run(found.operand, regs, bus) {
            Ok(taken) => Ok(self.cycles(found.page_crossed, taken)),
            Err(error) => Err(error),
        }
    }
}

/// Every entry of the opcode table leaves room for its phases: its base cycle
/// count covers the opcode fetch, the operand fetch and the read-modify-write
/// cycles, so [`Instruction::new`] accepts it.
pub proof fn lemma_table_fits(opcode: u8)
    ensures
        ({
            let (op, total_cycles, is_rmw, addr_mode) = descriptor(opcode);
            run_cycles(total_cycles, is_rmw, addr_mode) >= 0
        }),
{
}

/// Decodes an opcode byte into an instruction ready to run. Every byte
/// decodes.
pub fn decode(opcode: u8) -> (instruction: Instruction)
    ensures
        instruction == Instruction::decoded(opcode),
{
    let (op, total_cycles, is_rmw, addr_mode) = get_instruction(opcode).unwrap();
    proof {
        lemma_table_fits(opcode);
    }
    Instruction::new(op, total_cycles, is_rmw, addr_mode)
}

} // verus!
