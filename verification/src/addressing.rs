//! The addressing modes: from the bytes that follow an opcode to the operand
//! of the instruction.
//!
//! Resolution reads the operand bytes at the program counter and changes
//! nothing. It reports how many bytes it read, so that the caller can move
//! the program counter, and whether indexing left the page of the base
//! address. Pointers and words are read as the bus reads words: the high byte
//! from the next address, also at the end of the zero page. The one exception
//! is the pointer of an indirect jump, whose high byte the hardware fetches
//! from the start of the same page when the pointer sits on the last byte of
//! a page; that behaviour is reproduced.
use vstd::prelude::*;
use crate::alu::signed;
use crate::bus::{high_byte, low_byte, make_word, read_word_le, split_word, word, Bus, MemState};
use crate::error::CpuError;
use crate::opcodes::AddrMode;
use crate::registers::Registers;

verus! {

/// What an instruction operates on, once its addressing mode is resolved.
#[derive(Clone, Copy, Debug, PartialEq, Eq, Structural)]
pub enum Operand {
    /// The instruction names no operand.
    Implied,
    /// The accumulator.
    Accumulator,
    /// The byte that follows the opcode.
    Immediate(u8),
    /// The byte in memory at this address; for a branch, its destination.
    Address(u16),
}

/// The outcome of resolving an addressing mode.
#[derive(Clone, Copy, Debug, PartialEq, Eq, Structural)]
pub struct Resolved {
    /// The operand.
    pub operand: Operand,
    /// The address before the last hop: the base that an index was added to,
    /// or the place a pointer was read from. Zero where there is neither.
    pub index_addr: u16,
    /// The number of operand bytes read from the instruction stream.
    pub length: u8,
    /// Whether the operand address lies in another page than its base; for a
    /// branch, than the instruction that follows it.
    pub page_crossed: bool,
}

/// `base` plus an index register, wrapping at the end of the address space.
pub open spec fn indexed(base: u16, index: u8) -> u16 {
    base.wrapping_add(index as u16)
}

/// A zero-page address plus an index register, wrapping inside the zero page.
pub open spec fn zero_page_indexed(base: u8, index: u8) -> u16 {
    base.wrapping_add(index) as u16
}

/// Whether two addresses lie in different pages.
pub open spec fn crosses_page(from: u16, to: u16) -> bool {
    high_byte(from) != high_byte(to)
}

/// The destination of a branch: the address of the next instruction plus the
/// signed displacement, wrapping at either end of the address space.
pub open spec fn branch_target(next: u16, displacement: u8) -> u16 {
    ((next as int + signed(displacement)) % 0x10000) as u16
}

/// The address after `pointer` inside the same page.
pub open spec fn next_in_page(pointer: u16) -> u16 {
    word(low_byte(pointer).wrapping_add(1), high_byte(pointer))
}

/// The word that an indirect jump reads through `pointer`: the high byte
/// comes from the same page as the low byte.
pub open spec fn jump_vector(mem: MemState, pointer: u16) -> u16 {
    word(mem.read(pointer), mem.read(next_in_page(pointer)))
}

/// The operand of an instruction whose operand bytes start at `regs.pc`.
pub open spec fn resolved(mode: AddrMode, regs: Registers, mem: MemState) -> Resolved {
    let pc = regs.pc;
    match mode {
        AddrMode::Implied => Resolved {
            operand: Operand::Implied,
            index_addr: 0,
            length: 0,
            page_crossed: false,
        },
        AddrMode::Accumulator => Resolved {
            operand: Operand::Accumulator,
            index_addr: 0,
            length: 0,
            page_crossed: false,
        },
        AddrMode::Immediate => Resolved {
            operand: Operand::Immediate(mem.read(pc)),
            index_addr: 0,
            length: 1,
            page_crossed: false,
        },
        AddrMode::Absolute => Resolved {
            operand: Operand::Address(mem.read_word(pc)),
            index_addr: 0,
            length: 2,
            page_crossed: false,
        },
        AddrMode::AbsoluteIndexedX(_) => {
            let base = mem.read_word(pc);
            Resolved {
                operand: Operand::Address(indexed(base, regs.x)),
                index_addr: base,
                length: 2,
                page_crossed: crosses_page(base, indexed(base, regs.x)),
            }
        },
        AddrMode::AbsoluteIndexedY(_) => {
            let base = mem.read_word(pc);
            Resolved {
                operand: Operand::Address(indexed(base, regs.y)),
                index_addr: base,
                length: 2,
                page_crossed: crosses_page(base, indexed(base, regs.y)),
            }
        },
        AddrMode::Zeropage => Resolved {
            operand: Operand::Address(mem.read(pc) as u16),
            index_addr: 0,
            length: 1,
            page_crossed: false,
        },
        AddrMode::ZeropageIndexedX => Resolved {
            operand: Operand::Address(zero_page_indexed(mem.read(pc), regs.x)),
            index_addr: mem.read(pc) as u16,
            length: 1,
            page_crossed: false,
        },
        AddrMode::ZeropageIndexedY => Resolved {
            operand: Operand::Address(zero_page_indexed(mem.read(pc), regs.y)),
            index_addr: mem.read(pc) as u16,
            length: 1,
            page_crossed: false,
        },
        AddrMode::Relative => {
            let next = pc.wrapping_add(1);
            let target = branch_target(next, mem.read(pc));
            Resolved {
                operand: Operand::Address(target),
                index_addr: next,
                length: 1,
                page_crossed: crosses_page(next, target),
            }
        },
        AddrMode::Indirect => {
            let pointer = mem.read_word(pc);
            Resolved {
                operand: Operand::Address(jump_vector(mem, pointer)),
                index_addr: pointer,
                length: 2,
                page_crossed: false,
            }
        },
        AddrMode::IndexedIndirectX => {
            let pointer = zero_page_indexed(mem.read(pc), regs.x);
            Resolved {
                operand: Operand::Address(mem.read_word(pointer)),
                index_addr: pointer,
                length: 1,
                page_crossed: false,
            }
        },
        AddrMode::IndirectIndexedY(_) => {
            let base = mem.read_word(mem.read(pc) as u16);
            Resolved {
                operand: Operand::Address(indexed(base, regs.y)),
                index_addr: base,
                length: 1,
                page_crossed: crosses_page(base, indexed(base, regs.y)),
            }
        },
    }
}

impl Operand {
    /// The byte the operand stands for. An implied operand stands for none;
    /// its value is taken as zero.
    pub open spec fn value(self, regs: Registers, mem: MemState) -> u8 {
        match self {
            Operand::Implied => 0,
            Operand::Accumulator => regs.a,
            Operand::Immediate(value) => value,
            Operand::Address(addr) => mem.read(addr),
        }
    }

    /// The address of an operand in memory; zero for any other operand.
    pub open spec fn address(self) -> u16 {
        match self {
            Operand::Address(addr) => addr,
            _ => 0,
        }
    }

    /// Whether the operand is a place that a result can be stored to.
    pub open spec fn is_place(self) -> bool {
        self is Accumulator || self is Address
    }
}

/// Whether two addresses lie in different pages.
pub fn page_differs(from: u16, to: u16) -> (crossed: bool)
    ensures
        crossed == crosses_page(from, to),
{
    from / 256 != to / 256
}

/// Computes the destination of a branch with the signed `displacement`,
/// counted from the address `next` of the instruction after the branch.
pub fn branch_destination(next: u16, displacement: u8) -> (target: u16)
    ensures
        target == branch_target(next, displacement),
{
    if displacement < 0x80 {
        next.wrapping_add(displacement as u16)
    } else {
        next.wrapping_sub(0x100 - displacement as u16)
    }
}

/// Reads the target of an indirect jump through `pointer`, fetching the high
/// byte from the same page as the low byte.
pub fn read_jump_vector<B: Bus>(bus: &B, pointer: u16) -> (target: u16)
    requires
        bus@.wf(),
    ensures
        target == jump_vector(bus@, pointer),
{
    let (lo, hi) = split_word(pointer);
    let target_lo = bus.read_byte(pointer);
    let target_hi = bus.read_byte(make_word(lo.wrapping_add(1), hi));
    make_word(target_lo, target_hi)
}

/// Resolves the address of the operand of an instruction whose operand bytes
/// start at the program counter.
///
/// The implied, accumulator and immediate modes have no operand address; to
/// ask for one is an error of the caller, reported as
/// [`CpuError::InvalidAddressingMode`].
pub fn get_operand_addr<B: Bus>(mode: AddrMode, regs: &Registers, bus: &B) -> (result: Result<
    Resolved,
    CpuError,
>)
    requires
        bus@.wf(),
    ensures
        result is Err <==> mode is Implied || mode is Accumulator || mode is Immediate,
        result matches Ok(found) ==> found == resolved(mode, *regs, bus@) && found.operand
            is Address,
        result matches Err(error) ==> error == CpuError::InvalidAddressingMode,
{
    let pc = regs.pc;
    match mode {
        AddrMode::Implied | AddrMode::Accumulator | AddrMode::Immediate => Err(
            CpuError::InvalidAddressingMode,
        ),
        AddrMode::Absolute => Ok(
            Resolved {
                operand: Operand::Address(read_word_le(bus, pc)),
                index_addr: 0,
                length: 2,
                page_crossed: false,
            },
        ),
        AddrMode::AbsoluteIndexedX(_) => {
            let base = read_word_le(bus, pc);
            let addr = base.wrapping_add(regs.x as u16);
            Ok(
                Resolved {
                    operand: Operand::Address(addr),
                    index_addr: base,
                    length: 2,
                    page_crossed: page_differs(base, addr),
                },
            )
        },
        AddrMode::AbsoluteIndexedY(_) => {
            let base = read_word_le(bus, pc);
            let addr = base.wrapping_add(regs.y as u16);
            Ok(
                Resolved {
                    operand: Operand::Address(addr),
                    index_addr: base,
                    length: 2,
                    page_crossed: page_differs(base, addr),
                },
            )
        },
        AddrMode::Zeropage => Ok(
            Resolved {
                operand: Operand::Address(bus.read_byte(pc) as u16),
                index_addr: 0,
                length: 1,
                page_crossed: false,
            },
        ),
        AddrMode::ZeropageIndexedX => {
            let base = bus.read_byte(pc);
            Ok(
                Resolved {
                    operand: Operand::Address(base.wrapping_add(regs.x) as u16),
                    index_addr: base as u16,
                    length: 1,
                    page_crossed: false,
                },
            )
        },
        AddrMode::ZeropageIndexedY => {
            let base = bus.read_byte(pc);
            Ok(
                Resolved {
                    operand: Operand::Address(base.wrapping_add(regs.y) as u16),
                    index_addr: base as u16,
                    length: 1,
                    page_crossed: false,
                },
            )
        },
        AddrMode::Relative => {
            let next = pc.wrapping_add(1);
            let target = branch_destination(next, bus.read_byte(pc));
            Ok(
                Resolved {
                    operand: Operand::Address(target),
                    index_addr: next,
                    length: 1,
                    page_crossed: page_differs(next, target),
                },
            )
        },
        AddrMode::Indirect => {
            let pointer = read_word_le(bus, pc);
            Ok(
                Resolved {
                    operand: Operand::Address(read_jump_vector(bus, pointer)),
                    index_addr: pointer,
                    length: 2,
                    page_crossed: false,
                },
            )
        },
        AddrMode::IndexedIndirectX => {
            let pointer = bus.read_byte(pc).wrapping_add(regs.x) as u16;
            Ok(
                Resolved {
                    operand: Operand::Address(read_word_le(bus, pointer)),
                    index_addr: pointer,
                    length: 1,
                    page_crossed: false,
                },
            )
        },
        AddrMode::IndirectIndexedY(_) => {
            let base = read_word_le(bus, bus.read_byte(pc) as u16);
            let addr = base.wrapping_add(regs.y as u16);
            Ok(
                Resolved {
                    operand: Operand::Address(addr),
                    index_addr: base,
                    length: 1,
                    page_crossed: page_differs(base, addr),
                },
            )
        },
    }
}

/// Resolves the operand of an instruction whose operand bytes start at the
/// program counter. Every mode resolves; nothing is changed.
pub fn resolve<B: Bus>(mode: AddrMode, regs: &Registers, bus: &B) -> (found: Resolved)
    requires
        bus@.wf(),
    ensures
        found == resolved(mode, *regs, bus@),
        found.length == mode.operand_len(),
{
    match get_operand_addr(mode, regs, bus) {
        Ok(found) => found,
        Err(_) => match mode {
            AddrMode::Immediate => Resolved {
                operand: Operand::Immediate(bus.read_byte(regs.pc)),
                index_addr: 0,
                length: 1,
                page_crossed: false,
            },
            AddrMode::Accumulator => Resolved {
                operand: Operand::Accumulator,
                index_addr: 0,
                length: 0,
                page_crossed: false,
            },
            _ => Resolved {
                operand: Operand::Implied,
                index_addr: 0,
                length: 0,
                page_crossed: false,
            },
        },
    }
}

/// The address of an operand in memory; zero for any other operand.
pub fn address_of(operand: Operand) -> (addr: u16)
    ensures
        addr == operand.address(),
{
    match operand {
        Operand::Address(addr) => addr,
        _ => 0,
    }
}

/// Reads the byte that a resolved operand stands for; zero for an implied
/// operand, which stands for none.
pub fn fetch<B: Bus>(operand: Operand, regs: &Registers, bus: &B) -> (value: u8)
    requires
        bus@.wf(),
    ensures
        value == operand.value(*regs, bus@),
{
    match operand {
        Operand::Implied => 0,
        Operand::Accumulator => regs.a,
        Operand::Immediate(value) => value,
        Operand::Address(addr) => bus.read_byte(addr),
    }
}

/// The registers and the bus after storing `value` to a resolved operand that
/// is a place.
pub open spec fn stored(operand: Operand, regs: Registers, mem: MemState, value: u8) -> (
    Registers,
    MemState,
) {
    match operand {
        Operand::Accumulator => (Registers { a: value, ..regs }, mem),
        Operand::Address(addr) => (regs, mem.write(addr, value)),
        _ => (regs, mem),
    }
}

/// Stores `value` to a resolved operand: into the accumulator, or through a
/// write request on the bus. A write that the bus rejects is dropped; the
/// request still shows in the history of the bus. An operand that is no place
/// takes no value, and nothing changes.
pub fn put<B: Bus>(operand: Operand, regs: &mut Registers, bus: &mut B, value: u8)
    requires
        old(bus)@.wf(),
    ensures
        final(bus)@.wf(),
        (*final(regs), final(bus)@) == stored(operand, *old(regs), old(bus)@, value),
{
    match operand {
        Operand::Accumulator => {
            regs.a = value;
        },
        Operand::Address(addr) => {
            let _ = bus.write_byte(addr, value);
        },
        _ => {},
    }
}

/// Fetches the operand value of an instruction whose operand bytes start at
/// the program counter. An implied operand has no value.
pub fn get_operand<B: Bus>(mode: AddrMode, regs: &Registers, bus: &B) -> (result: Result<
    u8,
    CpuError,
>)
    requires
        bus@.wf(),
    ensures
        result == if mode is Implied {
            Err::<u8, CpuError>(CpuError::InvalidAddressingMode)
        } else {
            Ok::<u8, CpuError>(resolved(mode, *regs, bus@).operand.value(*regs, bus@))
        },
{
    match mode {
        AddrMode::Implied => Err(CpuError::InvalidAddressingMode),
        _ => {
            let found = resolve(mode, regs, bus);
            Ok(fetch(found.operand, regs, bus))
        },
    }
}

/// Stores `value` to the operand of an instruction whose operand bytes start
/// at the program counter. Only the accumulator and memory can be stored to:
/// the implied, immediate and relative modes are refused.
pub fn set_operand<B: Bus>(mode: AddrMode, regs: &mut Registers, bus: &mut B, value: u8) -> (result:
    Result<(), CpuError>)
    requires
        old(bus)@.wf(),
    ensures
        final(bus)@.wf(),
        result is Err <==> mode is Implied || mode is Immediate || mode is Relative,
        result matches Err(error) ==> error == CpuError::InvalidAddressingMode && *final(regs)
            == *old(regs) && final(bus)@ == old(bus)@,
        result is Ok ==> (*final(regs), final(bus)@) == stored(
            resolved(mode, *old(regs), old(bus)@).operand,
            *old(regs),
            old(bus)@,
            value,
        ),
{
    match mode {
        AddrMode::Implied | AddrMode::Immediate | AddrMode::Relative => Err(
            CpuError::InvalidAddressingMode,
        ),
        _ => {
            let found = resolve(mode, regs, bus);
            put(found.operand, regs, bus, value);
            Ok(())
        },
    }
}

} // verus!
