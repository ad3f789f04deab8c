//! What holds of the instruction set as a whole: statements that relate the
//! opcode table, the addressing modes, the timing rule and the operations to
//! one another, each proved from their definitions.
use vstd::prelude::*;
use crate::addressing::{resolved, Operand};
use crate::alu::{difference, sum};
use crate::bus::{high_byte, low_byte, MemState};
use crate::execute::{branch_taken, executed};
use crate::instruction::{branch_penalty, Instruction};
use crate::opcodes::{descriptor, mode_of, operation_of, reference_cycles, AddrMode, Op};
use crate::registers::{stack_slot, Machine, Registers};
use crate::status::{lemma_unpack_packed, Status};

verus! {

/// The cycles that an instruction takes are those of the reference timing,
/// whether or not its operand crosses a page: the base count of its table
/// entry, one more when a page is crossed by an instruction that pays for the
/// crossing only then, and the penalty of a taken branch. The split into
/// phases loses and adds nothing.
pub proof fn lemma_cycles_match_reference(opcode: u8, page_crossed: bool, taken: bool)
    ensures
        Instruction::decoded(opcode).realized_cycles(page_crossed, taken) == reference_cycles(
            operation_of(opcode),
            mode_of(opcode),
        ) + (if mode_of(opcode).extra_cycle_on_cross() && page_crossed {
            1int
        } else {
            0int
        }) + branch_penalty(taken, page_crossed),
        descriptor(opcode).1 == reference_cycles(operation_of(opcode), mode_of(opcode)),
{
}

/// Only branches can be taken, and only the instructions that index a 16-bit
/// base pay for a page crossing when it happens: no instruction that is not a
/// branch takes more than one cycle over its base count.
pub proof fn lemma_penalty_bounded(opcode: u8, page_crossed: bool)
    ensures
        operation_of(opcode).is_branch() <==> mode_of(opcode) is Relative,
        mode_of(opcode).extra_cycle_on_cross() ==> !operation_of(opcode).is_branch(),
        Instruction::decoded(opcode).realized_cycles(page_crossed, false) <= descriptor(opcode).1
            + 1,
{
}

/// Indexing a zero-page address wraps inside the zero page: the operand of the
/// two indexed zero-page modes, and the pointer of the indexed-indirect mode,
/// never leave it, and no page crossing is reported.
pub proof fn lemma_zero_page_wraps(mode: AddrMode, regs: Registers, mem: MemState)
    ensures
        mode is ZeropageIndexedX || mode is ZeropageIndexedY || mode is Zeropage ==> resolved(
            mode,
            regs,
            mem,
        ).operand.address() < 0x100,
        mode is IndexedIndirectX ==> resolved(mode, regs, mem).index_addr < 0x100,
        mode is ZeropageIndexedX || mode is ZeropageIndexedY || mode is Zeropage
            || mode is IndexedIndirectX ==> !resolved(mode, regs, mem).page_crossed,
{
}

/// Subtracting is adding the one's complement: the difference of `a` and `m`
/// with borrow, with its carry and overflow, is the sum of `a` and the
/// complement of `m` with the same carry.
pub proof fn lemma_difference_is_complement_sum(a: u8, m: u8, carry: bool)
    ensures
        difference(a, m, carry) == sum(a, (0xFF - m) as u8, carry),
{
}

/// A return undoes a call. After JSR to any target and RTS, the registers are
/// what they were when JSR executed: the program counter points at the
/// instruction after the call and the stack pointer is restored. The two stack
/// slots under the stack pointer must accept writes.
pub proof fn lemma_return_undoes_call(m: Machine, target: u16)
    requires
        m.mem.wf(),
        !m.mem.read_only.contains(stack_slot(m.regs.sp)),
        !m.mem.read_only.contains(stack_slot(m.regs.sp.wrapping_sub(1))),
    ensures
        executed(
            Op::RTS,
            Operand::Implied,
            executed(Op::JSR, Operand::Address(target), m),
        ).regs == m.regs,
{
    let called = executed(Op::JSR, Operand::Address(target), m);
    let pushed = m.regs.pc.wrapping_sub(1);
    assert(called.top() == low_byte(pushed));
    assert(called.pop().top() == high_byte(pushed));
    assert(called.top_word() == pushed);
}

/// A return from interrupt undoes a software interrupt. After BRK and RTI,
/// every flag and the stack pointer are what they were when BRK executed, and
/// the program counter has skipped the one byte that follows the BRK opcode.
/// The three stack slots under the stack pointer must accept writes.
pub proof fn lemma_return_undoes_interrupt(m: Machine)
    requires
        m.mem.wf(),
        !m.mem.read_only.contains(stack_slot(m.regs.sp)),
        !m.mem.read_only.contains(stack_slot(m.regs.sp.wrapping_sub(1))),
        !m.mem.read_only.contains(stack_slot(m.regs.sp.wrapping_sub(2))),
    ensures
        executed(Op::RTI, Operand::Implied, executed(Op::BRK, Operand::Implied, m)).regs
            == (Registers { pc: m.regs.pc.wrapping_add(1), ..m.regs }),
{
    let entered = executed(Op::BRK, Operand::Implied, m);
    let pushed = m.regs.pc.wrapping_add(1);
    lemma_unpack_packed(m.regs.status, true);
    assert(entered.top() == m.regs.status.packed(true));
    assert(entered.pop().top() == low_byte(pushed));
    assert(entered.pop().pop().top() == high_byte(pushed));
    assert(entered.pop().top_word() == pushed);
}

/// SAX requests one write, of the accumulator ANDed with X, and touches no
/// register and no flag.
pub proof fn lemma_sax_stores_and(m: Machine, addr: u16)
    ensures
        executed(Op::SAX, Operand::Address(addr), m) == m.write(addr, m.regs.a & m.regs.x),
        executed(Op::SAX, Operand::Address(addr), m).regs == m.regs,
{
}

/// A store changes no register and no flag, whatever it stores to.
pub proof fn lemma_stores_keep_flags(op: Op, operand: Operand, m: Machine)
    requires
        op is STA || op is STX || op is STY || op is SAX || op is AHX || op is SHX || op is SHY,
        operand is Address,
    ensures
        executed(op, operand, m).regs == m.regs,
{
}

/// The seven flag operations change exactly one flag and nothing else.
pub proof fn lemma_flag_operations(op: Op, operand: Operand, m: Machine)
    ensures
        op is CLC ==> executed(op, operand, m) == m.flags(
            Status { carry: false, ..m.regs.status },
        ),
        op is SEC ==> executed(op, operand, m) == m.flags(Status { carry: true, ..m.regs.status }),
        op is CLD ==> executed(op, operand, m) == m.flags(
            Status { decimal: false, ..m.regs.status },
        ),
        op is SED ==> executed(op, operand, m) == m.flags(
            Status { decimal: true, ..m.regs.status },
        ),
        op is CLI ==> executed(op, operand, m) == m.flags(
            Status { interrupt_disable: false, ..m.regs.status },
        ),
        op is SEI ==> executed(op, operand, m) == m.flags(
            Status { interrupt_disable: true, ..m.regs.status },
        ),
        op is CLV ==> executed(op, operand, m) == m.flags(
            Status { overflow: false, ..m.regs.status },
        ),
{
}

/// A read-modify-write instruction of the table writes twice to its operand:
/// first the byte it read, unmodified, then the result.
pub proof fn lemma_modify_writes_twice(opcode: u8, m: Machine)
    requires
        descriptor(opcode).2,
    ensures
        ({
            let instruction = Instruction::decoded(opcode);
            let addr = resolved(instruction.addr_mode, m.regs, m.mem).operand.address();
            let after = instruction.applied(m).mem.writes;
            &&& after.len() == m.mem.writes.len() + 2
            &&& after.subrange(0, m.mem.writes.len() as int) == m.mem.writes
            &&& after[m.mem.writes.len() as int] == (addr, m.mem.read(addr))
            &&& after[m.mem.writes.len() as int + 1].0 == addr
        }),
{
}

/// An instruction that is neither a jump, a call, a return, an interrupt nor
/// a taken branch leaves the program counter behind its operand bytes: with
/// the opcode byte, an instruction of the table is one, two or three bytes
/// long.
pub proof fn lemma_program_counter_advances(opcode: u8, m: Machine)
    requires
        ({
            let op = operation_of(opcode);
            !(op is JMP || op is JSR || op is RTS || op is RTI || op is BRK)
                && !branch_taken(op, m.regs.status)
        }),
    ensures
        Instruction::decoded(opcode).applied(m).regs.pc == m.regs.pc.wrapping_add(
            mode_of(opcode).operand_len() as u16,
        ),
        mode_of(opcode).operand_len() <= 2,
        resolved(mode_of(opcode), m.regs, m.mem).length == mode_of(opcode).operand_len(),
{
}

/// Whether the bus state `after` can follow `before` by write requests alone:
/// same size, same read-only addresses, and the history of `before` at the
/// start of the history of `after`.
pub open spec fn follows(after: MemState, before: MemState) -> bool {
    &&& after.bytes.len() == before.bytes.len()
    &&& after.read_only == before.read_only
    &&& before.writes.len() <= after.writes.len()
    &&& after.writes.subrange(0, before.writes.len() as int) == before.writes
}

proof fn lemma_follows_chain(a: MemState, b: MemState, c: MemState)
    requires
        follows(b, a),
        follows(c, b),
    ensures
        follows(c, a),
{
    assert(c.writes.subrange(0, a.writes.len() as int) =~= b.writes.subrange(
        0,
        a.writes.len() as int,
    )) by {
        assert forall|i: int| 0 <= i < a.writes.len() implies c.writes[i] == b.writes[i] by {
            assert(c.writes.subrange(0, b.writes.len() as int)[i] == b.writes[i]);
        }
    }
}

proof fn lemma_write_follows(mem: MemState)
    requires
        mem.wf(),
    ensures
        follows(mem, mem),
        forall|addr: u16, value: u8| follows(#[trigger] mem.write(addr, value), mem),
{
    assert(mem.writes.subrange(0, mem.writes.len() as int) =~= mem.writes);
    assert forall|addr: u16, value: u8| follows(#[trigger] mem.write(addr, value), mem) by {
        assert(mem.write(addr, value).writes.subrange(0, mem.writes.len() as int)
            =~= mem.writes);
    }
}

proof fn lemma_store_follows(m: Machine, operand: Operand)
    requires
        m.mem.wf(),
    ensures
        forall|value: u8| follows(#[trigger] m.store(operand, value).mem, m.mem),
{
    lemma_write_follows(m.mem);
}

proof fn lemma_push_follows(m: Machine)
    requires
        m.mem.wf(),
    ensures
        forall|value: u8| follows(#[trigger] m.push(value).mem, m.mem),
        forall|value: u16| follows(#[trigger] m.push_word(value).mem, m.mem),
{
    lemma_write_follows(m.mem);
    assert forall|value: u16| follows(#[trigger] m.push_word(value).mem, m.mem) by {
        let first = m.push(high_byte(value));
        lemma_write_follows(first.mem);
        lemma_follows_chain(m.mem, first.mem, first.push(low_byte(value)).mem);
    }
}

/// Executing changes a bus only through write requests: the bus keeps its
/// size and its read-only addresses, and the requests it had seen before are
/// still the first ones of its history.
pub proof fn lemma_bus_changes_by_writes(op: Op, operand: Operand, m: Machine)
    requires
        m.mem.wf(),
    ensures
        follows(executed(op, operand, m).mem, m.mem),
{
    lemma_write_follows(m.mem);
    lemma_store_follows(m, operand);
    lemma_push_follows(m);
    if op is TAS {
        lemma_store_follows(
            m.with_regs(Registers { sp: m.regs.a & m.regs.x, ..m.regs }),
            operand,
        );
    } else if op is BRK {
        let pushed = m.push_word(m.regs.pc.wrapping_add(1));
        lemma_push_follows(pushed);
        lemma_follows_chain(m.mem, pushed.mem, pushed.push(m.regs.status.packed(true)).mem);
    }
}

} // verus!
