//! The execution unit: what each operation does to the registers and the bus.
//!
//! The meaning of an operation is the function [`executed`] from a machine to
//! a machine. [`Op::run`] carries it out on the caller's registers and bus in
//! one call; it either executes the whole operation or, where [`fault`] names
//! an error, changes nothing.
//!
//! Decimal arithmetic is not implemented: the adding and subtracting
//! operations are refused while the Decimal flag is set. Writes that the bus
//! rejects are dropped. The undocumented operations follow the published
//! formulas: the unstable ones take the value that the formula gives, with `H`
//! the high byte of the operand address plus one.
use vstd::prelude::*;
use crate::addressing::{address_of, fetch, put, stored, Operand};
use crate::alu::{shift_left, shift_right, shifted_left, shifted_right, sign_bit};
use crate::bus::{high_byte, make_word, read_word_le, split_word, Bus, IRQ_VECTOR};
use crate::error::CpuError;
use crate::opcodes::Op;
use crate::registers::{machine, Machine, Registers};
use crate::status::Status;

verus! {

/// Whether `op` can work on `operand`.
pub open spec fn accepts(op: Op, operand: Operand) -> bool {
    if op.needs_address() {
        operand is Address
    } else if op.is_store() || op.is_modify() {
        operand.is_place()
    } else if op.reads_value() {
        !(operand is Implied)
    } else {
        true
    }
}

/// The error that keeps `op` from executing on `operand` under the flags
/// `status`, if there is one.
pub open spec fn fault(op: Op, operand: Operand, status: Status) -> Option<CpuError> {
    if op is HLT {
        Some(CpuError::Halted)
    } else if !accepts(op, operand) {
        Some(CpuError::InvalidAddressingMode)
    } else if op.uses_adder() && status.decimal {
        Some(CpuError::DecimalMode)
    } else {
        None
    }
}

/// Whether `op` is a branch whose condition holds under the flags `status`.
pub open spec fn branch_taken(op: Op, status: Status) -> bool {
    match op {
        Op::BCC => !status.carry,
        Op::BCS => status.carry,
        Op::BNE => !status.zero,
        Op::BEQ => status.zero,
        Op::BPL => !status.negative,
        Op::BMI => status.negative,
        Op::BVC => !status.overflow,
        Op::BVS => status.overflow,
        _ => false,
    }
}

/// The high byte of an operand address plus one, which the unstable stores
/// mix into the value they store.
pub open spec fn address_mask(operand: Operand) -> u8 {
    high_byte(operand.address()).wrapping_add(1)
}

impl Machine {
    /// The machine after storing `value` to `operand`.
    pub open spec fn store(self, operand: Operand, value: u8) -> Machine {
        let (regs, mem) = stored(operand, self.regs, self.mem, value);
        Machine { regs, mem }
    }

    /// This machine with the program counter at `pc`.
    pub open spec fn jump(self, pc: u16) -> Machine {
        Machine { regs: Registers { pc, ..self.regs }, ..self }
    }

    /// This machine with the flags `status`.
    pub open spec fn flags(self, status: Status) -> Machine {
        Machine { regs: Registers { status, ..self.regs }, ..self }
    }
}

/// The machine after `op` has executed on `operand`, for an operation that
/// [`fault`] lets pass. The program counter of `m` points at the instruction
/// that follows.
pub open spec fn executed(op: Op, operand: Operand, m: Machine) -> Machine {
    let r = m.regs;
    let p = r.status;
    let v = operand.value(r, m.mem);
    match op {
        // Loads set Zero and Negative from the byte moved; stores set no flag.
        Op::LDA => m.with_regs(r.loaded_a(v)),
        Op::LDX => m.with_regs(r.loaded_x(v)),
        Op::LDY => m.with_regs(r.loaded_y(v)),
        Op::STA => m.store(operand, r.a),
        Op::STX => m.store(operand, r.x),
        Op::STY => m.store(operand, r.y),
        Op::TAX => m.with_regs(r.loaded_x(r.a)),
        Op::TAY => m.with_regs(r.loaded_y(r.a)),
        Op::TXA => m.with_regs(r.loaded_a(r.x)),
        Op::TYA => m.with_regs(r.loaded_a(r.y)),
        Op::TSX => m.with_regs(r.loaded_x(r.sp)),
        Op::TXS => m.with_regs(Registers { sp: r.x, ..r }),
        // The pushed copy of the flags carries the Break marker.
        Op::PHA => m.push(r.a),
        Op::PHP => m.push(p.packed(true)),
        Op::PLA => m.pop().with_regs(m.pop().regs.loaded_a(m.top())),
        Op::PLP => m.pop().flags(Status::unpacked(m.top())),
        Op::AND => m.with_regs(r.loaded_a(r.a & v)),
        Op::EOR => m.with_regs(r.loaded_a(r.a ^ v)),
        Op::ORA => m.with_regs(r.loaded_a(r.a | v)),
        Op::BIT => m.with_regs(r.bit_tested(v)),
        Op::ADC => m.with_regs(r.added(v)),
        Op::SBC => m.with_regs(r.subtracted(v)),
        Op::CMP => m.with_regs(r.compared(r.a, v)),
        Op::CPX => m.with_regs(r.compared(r.x, v)),
        Op::CPY => m.with_regs(r.compared(r.y, v)),
        // Increments and decrements wrap modulo 256.
        Op::INC => {
            let w = v.wrapping_add(1);
            let stored = m.store(operand, w);
            stored.with_regs(stored.regs.with_zn(w))
        },
        Op::INX => m.with_regs(r.loaded_x(r.x.wrapping_add(1))),
        Op::INY => m.with_regs(r.loaded_y(r.y.wrapping_add(1))),
        Op::DEC => {
            let w = v.wrapping_sub(1);
            let stored = m.store(operand, w);
            stored.with_regs(stored.regs.with_zn(w))
        },
        Op::DEX => m.with_regs(r.loaded_x(r.x.wrapping_sub(1))),
        Op::DEY => m.with_regs(r.loaded_y(r.y.wrapping_sub(1))),
        // Shifts put the bit that falls off into Carry; rotates shift the old
        // Carry in.
        Op::ASL => {
            let (w, carry) = shifted_left(v, false);
            let stored = m.store(operand, w);
            stored.with_regs(stored.regs.with_carry_zn(carry, w))
        },
        Op::LSR => {
            let (w, carry) = shifted_right(v, false);
            let stored = m.store(operand, w);
            stored.with_regs(stored.regs.with_carry_zn(carry, w))
        },
        Op::ROL => {
            let (w, carry) = shifted_left(v, p.carry);
            let stored = m.store(operand, w);
            stored.with_regs(stored.regs.with_carry_zn(carry, w))
        },
        Op::ROR => {
            let (w, carry) = shifted_right(v, p.carry);
            let stored = m.store(operand, w);
            stored.with_regs(stored.regs.with_carry_zn(carry, w))
        },
        // A call pushes the address of its own last byte; the return adds one.
        Op::JMP => m.jump(operand.address()),
        Op::JSR => m.push_word(r.pc.wrapping_sub(1)).jump(operand.address()),
        Op::RTS => m.pop().pop().jump(m.top_word().wrapping_add(1)),
        Op::BCC | Op::BCS | Op::BEQ | Op::BMI | Op::BNE | Op::BPL | Op::BVC | Op::BVS => {
            if branch_taken(op, p) {
                m.jump(operand.address())
            } else {
                m
            }
        },
        Op::CLC => m.flags(Status { carry: false, ..p }),
        Op::CLD => m.flags(Status { decimal: false, ..p }),
        Op::CLI => m.flags(Status { interrupt_disable: false, ..p }),
        Op::CLV => m.flags(Status { overflow: false, ..p }),
        Op::SEC => m.flags(Status { carry: true, ..p }),
        Op::SED => m.flags(Status { decimal: true, ..p }),
        Op::SEI => m.flags(Status { interrupt_disable: true, ..p }),
        // A software interrupt skips the byte after the opcode, pushes the
        // return address and the flags with the Break marker, and enters the
        // handler with interrupts disabled.
        Op::BRK => {
            let pushed = m.push_word(r.pc.wrapping_add(1)).push(p.packed(true));
            pushed.flags(Status { interrupt_disable: true, ..p }).jump(
                pushed.mem.read_word(IRQ_VECTOR),
            )
        },
        Op::NOP => m,
        Op::RTI => m.pop().pop().pop().flags(Status::unpacked(m.top())).jump(m.pop().top_word()),
        Op::HLT => m,
        // The undocumented operations.
        Op::SLO => {
            let (w, carry) = shifted_left(v, false);
            let stored = m.store(operand, w);
            stored.with_regs(
                Registers { a: stored.regs.a | w, ..stored.regs }.with_carry_zn(
                    carry,
                    stored.regs.a | w,
                ),
            )
        },
        Op::RLA => {
            let (w, carry) = shifted_left(v, p.carry);
            let stored = m.store(operand, w);
            stored.with_regs(
                Registers { a: stored.regs.a & w, ..stored.regs }.with_carry_zn(
                    carry,
                    stored.regs.a & w,
                ),
            )
        },
        Op::SRE => {
            let (w, carry) = shifted_right(v, false);
            let stored = m.store(operand, w);
            stored.with_regs(
                Registers { a: stored.regs.a ^ w, ..stored.regs }.with_carry_zn(
                    carry,
                    stored.regs.a ^ w,
                ),
            )
        },
        Op::RRA => {
            let (w, carry) = shifted_right(v, p.carry);
            let stored = m.store(operand, w);
            stored.with_regs(
                Registers { status: Status { carry, ..p }, ..stored.regs }.added(w),
            )
        },
        Op::SAX => m.store(operand, r.a & r.x),
        Op::LAX => m.with_regs(Registers { x: v, ..r }.loaded_a(v)),
        Op::DCP => {
            let w = v.wrapping_sub(1);
            let stored = m.store(operand, w);
            stored.with_regs(stored.regs.compared(stored.regs.a, w))
        },
        Op::ISC => {
            let w = v.wrapping_add(1);
            let stored = m.store(operand, w);
            stored.with_regs(stored.regs.subtracted(w))
        },
        Op::ANC => m.with_regs(
            Registers { a: r.a & v, ..r }.with_carry_zn(sign_bit(r.a & v), r.a & v),
        ),
        Op::ALR => {
            let (w, carry) = shifted_right(r.a & v, false);
            m.with_regs(Registers { a: w, ..r }.with_carry_zn(carry, w))
        },
        // Carry and Overflow come out of the adder that the rotate passes
        // through: bit 6 of the result, and bit 6 differing from bit 5.
        Op::ARR => {
            let w = shifted_right(r.a & v, p.carry).0;
            m.with_regs(
                Registers {
                    a: w,
                    status: Status {
                        carry: w & 0x40 != 0,
                        overflow: (w & 0x40 != 0) != (w & 0x20 != 0),
                        ..p
                    }.with_zn(w),
                    ..r
                },
            )
        },
        Op::XAA => m.with_regs(r.loaded_a(r.x & v)),
        Op::AXS => m.with_regs(
            Registers { x: (r.a & r.x).wrapping_sub(v), ..r }.compared(r.a & r.x, v),
        ),
        Op::AHX => m.store(operand, r.a & r.x & address_mask(operand)),
        Op::SHY => m.store(operand, r.y & address_mask(operand)),
        Op::SHX => m.store(operand, r.x & address_mask(operand)),
        Op::TAS => m.with_regs(Registers { sp: r.a & r.x, ..r }).store(
            operand,
            r.a & r.x & address_mask(operand),
        ),
        Op::LAS => m.with_regs(Registers { x: v & r.sp, sp: v & r.sp, ..r }.loaded_a(v & r.sp)),
    }
}

/// Pushes a byte on the stack.
pub fn push<B: Bus>(regs: &mut Registers, bus: &mut B, value: u8)
    requires
        old(bus)@.wf(),
    ensures
        final(bus)@.wf(),
        machine(*final(regs), final(bus)@) == machine(*old(regs), old(bus)@).push(value),
{
    let _ = bus.write_byte(regs.stack_address(), value);
    regs.sp = regs.sp.wrapping_sub(1);
}

/// Pushes a word on the stack, high byte first.
pub fn push_word<B: Bus>(regs: &mut Registers, bus: &mut B, value: u16)
    requires
        old(bus)@.wf(),
    ensures
        final(bus)@.wf(),
        machine(*final(regs), final(bus)@) == machine(*old(regs), old(bus)@).push_word(value),
{
    let (lo, hi) = split_word(value);
    push(regs, bus, hi);
    push(regs, bus, lo);
}

/// Pulls a byte from the stack.
pub fn pull<B: Bus>(regs: &mut Registers, bus: &B) -> (value: u8)
    requires
        bus@.wf(),
    ensures
        value == machine(*old(regs), bus@).top(),
        machine(*final(regs), bus@) == machine(*old(regs), bus@).pop(),
{
    regs.sp = regs.sp.wrapping_add(1);
    bus.read_byte(regs.stack_address())
}

/// Pulls a word from the stack, low byte first.
pub fn pull_word<B: Bus>(regs: &mut Registers, bus: &B) -> (value: u16)
    requires
        bus@.wf(),
    ensures
        value == machine(*old(regs), bus@).top_word(),
        machine(*final(regs), bus@) == machine(*old(regs), bus@).pop().pop(),
{
    let lo = pull(regs, bus);
    let hi = pull(regs, bus);
    make_word(lo, hi)
}

/// The high byte of the operand address plus one.
fn high_plus_one(operand: Operand) -> (mask: u8)
    ensures
        mask == address_mask(operand),
{
    split_word(address_of(operand)).1.wrapping_add(1)
}

impl Op {
    /// Tells whether the operation can execute on `operand` under the flags
    /// `status`, and if not, why.
    pub fn check(&self, operand: Operand, status: &Status) -> (result: Result<(), CpuError>)
        ensures
            result == match fault(*self, operand, *status) {
                Some(error) => Err::<(), CpuError>(error),
                None => Ok::<(), CpuError>(()),
            },
    {
        let is_address = match operand {
            Operand::Address(_) => true,
            _ => false,
        };
        let is_place = match operand {
            Operand::Address(_) | Operand::Accumulator => true,
            _ => false,
        };
        let has_value = match operand {
            Operand::Implied => false,
            _ => true,
        };
        let (accepted, adds) = match self {
            Op::HLT => {
                return Err(CpuError::Halted);
            },
            Op::JMP
            | Op::JSR
            | Op::BCC
            | Op::BCS
            | Op::BEQ
            | Op::BMI
            | Op::BNE
            | Op::BPL
            | Op::BVC
            | Op::BVS
            | Op::AHX
            | Op::TAS
            | Op::SHY
            | Op::SHX => (is_address, false),
            Op::STA
            | Op::STX
            | Op::STY
            | Op::SAX
            | Op::ASL
            | Op::LSR
            | Op::ROL
            | Op::ROR
            | Op::INC
            | Op::DEC
            | Op::SLO
            | Op::RLA
            | Op::SRE
            | Op::DCP => (is_place, false),
            Op::RRA | Op::ISC => (is_place, true),
            Op::ADC | Op::SBC | Op::ARR => (has_value, true),
            Op::LDA
            | Op::LDX
            | Op::LDY
            | Op::AND
            | Op::EOR
            | Op::ORA
            | Op::BIT
            | Op::CMP
            | Op::CPX
            | Op::CPY
            | Op::ANC
            | Op::ALR
            | Op::XAA
            | Op::AXS
            | Op::LAX
            | Op::LAS => (has_value, false),
            _ => (true, false),
        };
        if !accepted {
            Err(CpuError::InvalidAddressingMode)
        } else if adds && status.decimal {
            Err(CpuError::DecimalMode)
        } else {
            Ok(())
        }
    }
}

/// The part of the execution unit that carries an operation out.
#[derive(Clone, Copy, Debug, PartialEq, Eq, Structural)]
pub enum Unit {
    /// Loads, stores and register transfers.
    Transfer,
    /// Logic, arithmetic and comparisons on registers.
    Arithmetic,
    /// Operations that read a byte, change it and write it back.
    Modify,
    /// The stack, jumps, branches, flags and interrupts.
    Control,
}

impl Op {
    /// The part of the execution unit that carries the operation out.
    pub open spec fn unit(self) -> Unit {
        if self.is_modify() {
            Unit::Modify
        } else if self.is_store() || self is LDA || self is LDX || self is LDY || self is TAX
            || self is TAY || self is TXA || self is TYA || self is TSX || self is TXS
            || self is LAX || self is LAS {
            Unit::Transfer
        } else if self.reads_value() || self is INX || self is INY || self is DEX || self is DEY {
            Unit::Arithmetic
        } else {
            Unit::Control
        }
    }

    /// Tells which part of the execution unit carries the operation out.
    pub fn unit_of(&self) -> (unit: Unit)
        ensures
            unit == self.unit(),
    {
        match self {
            Op::ASL
            | Op::LSR
            | Op::ROL
            | Op::ROR
            | Op::INC
            | Op::DEC
            | Op::SLO
            | Op::RLA
            | Op::SRE
            | Op::RRA
            | Op::DCP
            | Op::ISC => Unit::Modify,
            Op::LDA
            | Op::LDX
            | Op::LDY
            | Op::STA
            | Op::STX
            | Op::STY
            | Op::TAX
            | Op::TAY
            | Op::TXA
            | Op::TYA
            | Op::TSX
            | Op::TXS
            | Op::SAX
            | Op::LAX
            | Op::LAS
            | Op::AHX
            | Op::SHY
            | Op::SHX
            | Op::TAS => Unit::Transfer,
            Op::AND
            | Op::EOR
            | Op::ORA
            | Op::BIT
            | Op::ADC
            | Op::SBC
            | Op::CMP
            | Op::CPX
            | Op::CPY
            | Op::INX
            | Op::INY
            | Op::DEX
            | Op::DEY
            | Op::ANC
            | Op::ALR
            | Op::ARR
            | Op::XAA
            | Op::AXS => Unit::Arithmetic,
            _ => Unit::Control,
        }
    }

    /// Executes the operation on a resolved operand.
    ///
    /// The program counter must already point at the instruction that
    /// follows. On success the result tells whether a branch was taken. On an
    /// error nothing is changed: no register, no byte, and no write is
    /// requested of the bus.
    pub fn run<B: Bus>(&self, operand: Operand, regs: &mut Registers, bus: &mut B) -> (result:
        Result<bool, CpuError>)
        requires
            old(bus)@.wf(),
        ensures
            final(bus)@.wf(),
            match fault(*self, operand, old(regs).status) {
                Some(error) => {
                    &&& result == Err::<bool, CpuError>(error)
                    &&& *final(regs) == *old(regs)
                    &&& final(bus)@ == old(bus)@
                },
                None => {
                    &&& result == Ok::<bool, CpuError>(branch_taken(*self, old(regs).status))
                    &&& machine(*final(regs), final(bus)@) == executed(
                        *self,
                        operand,
                        machine(*old(regs), old(bus)@),
                    )
                },
            },
    {
        match self.check(operand, &regs.status) {
            Err(error) => {
                return Err(error);
            },
            Ok(()) => {},
        }
        match self.unit_of() {
            Unit::Transfer => {
                transfer(*self, operand, regs, bus);
                Ok(false)
            },
            Unit::Arithmetic => {
                compute(*self, operand, regs, bus);
                Ok(false)
            },
            Unit::Modify => {
                modify(*self, operand, regs, bus);
                Ok(false)
            },
            Unit::Control => Ok(control(*self, operand, regs, bus)),
        }
    }
}

/// Carries out a load, a store or a register transfer; any other operation
/// changes nothing here.
fn transfer<B: Bus>(op: Op, operand: Operand, regs: &mut Registers, bus: &mut B)
    requires
        old(bus)@.wf(),
    ensures
        final(bus)@.wf(),
        machine(*final(regs), final(bus)@) == if op.unit() == Unit::Transfer {
            executed(op, operand, machine(*old(regs), old(bus)@))
        } else {
            machine(*old(regs), old(bus)@)
        },
{
    match op {
        Op::LDA => regs.load_a(fetch(operand, regs, bus)),
        Op::LDX => regs.load_x(fetch(operand, regs, bus)),
        Op::LDY => regs.load_y(fetch(operand, regs, bus)),
        Op::STA => put(operand, regs, bus, regs.a),
        Op::STX => put(operand, regs, bus, regs.x),
        Op::STY => put(operand, regs, bus, regs.y),
        Op::TAX => regs.load_x(regs.a),
        Op::TAY => regs.load_y(regs.a),
        Op::TXA => regs.load_a(regs.x),
        Op::TYA => regs.load_a(regs.y),
        Op::TSX => regs.load_x(regs.sp),
        Op::TXS => {
            regs.sp = regs.x;
        },
        Op::SAX => put(operand, regs, bus, regs.a & regs.x),
        Op::LAX => {
            let value = fetch(operand, regs, bus);
            regs.x = value;
            regs.load_a(value);
        },
        Op::LAS => {
            let result = fetch(operand, regs, bus) & regs.sp;
            regs.x = result;
            regs.sp = result;
            regs.load_a(result);
        },
        Op::AHX => put(operand, regs, bus, regs.a & regs.x & high_plus_one(operand)),
        Op::SHY => put(operand, regs, bus, regs.y & high_plus_one(operand)),
        Op::SHX => put(operand, regs, bus, regs.x & high_plus_one(operand)),
        Op::TAS => {
            regs.sp = regs.a & regs.x;
            put(operand, regs, bus, regs.sp & high_plus_one(operand));
        },
        _ => {},
    }
}

/// Carries out an operation of logic, arithmetic or comparison; any other
/// operation changes nothing here.
fn compute<B: Bus>(op: Op, operand: Operand, regs: &mut Registers, bus: &B)
    requires
        bus@.wf(),
    ensures
        machine(*final(regs), bus@) == if op.unit() == Unit::Arithmetic {
            executed(op, operand, machine(*old(regs), bus@))
        } else {
            machine(*old(regs), bus@)
        },
{
    let value = fetch(operand, regs, bus);
    match op {
        Op::AND => regs.load_a(regs.a & value),
        Op::EOR => regs.load_a(regs.a ^ value),
        Op::ORA => regs.load_a(regs.a | value),
        Op::BIT => regs.test_bits(value),
        Op::ADC => regs.add(value),
        Op::SBC => regs.subtract(value),
        Op::CMP => regs.compare_with(regs.a, value),
        Op::CPX => regs.compare_with(regs.x, value),
        Op::CPY => regs.compare_with(regs.y, value),
        Op::INX => regs.load_x(regs.x.wrapping_add(1)),
        Op::INY => regs.load_y(regs.y.wrapping_add(1)),
        Op::DEX => regs.load_x(regs.x.wrapping_sub(1)),
        Op::DEY => regs.load_y(regs.y.wrapping_sub(1)),
        Op::ANC => {
            regs.a = regs.a & value;
            regs.set_carry_zn(regs.a >= 0x80, regs.a);
        },
        Op::ALR => {
            let (result, carry) = shift_right(regs.a & value, false);
            regs.a = result;
            regs.set_carry_zn(carry, result);
        },
        Op::ARR => {
            let (result, _) = shift_right(regs.a & value, regs.status.carry);
            regs.a = result;
            regs.status.carry = result & 0x40 != 0;
            regs.status.overflow = (result & 0x40 != 0) != (result & 0x20 != 0);
            regs.status.set_zn(result);
        },
        Op::XAA => regs.load_a(regs.x & value),
        Op::AXS => {
            let both = regs.a & regs.x;
            regs.x = both.wrapping_sub(value);
            regs.compare_with(both, value);
        },
        _ => {},
    }
}

/// Carries out a read-modify-write operation; any other operation changes
/// nothing here.
fn modify<B: Bus>(op: Op, operand: Operand, regs: &mut Registers, bus: &mut B)
    requires
        old(bus)@.wf(),
    ensures
        final(bus)@.wf(),
        machine(*final(regs), final(bus)@) == if op.unit() == Unit::Modify {
            executed(op, operand, machine(*old(regs), old(bus)@))
        } else {
            machine(*old(regs), old(bus)@)
        },
{
    let value = fetch(operand, regs, bus);
    match op {
        Op::INC => {
            let result = value.wrapping_add(1);
            put(operand, regs, bus, result);
            regs.status.set_zn(result);
        },
        Op::DEC => {
            let result = value.wrapping_sub(1);
            put(operand, regs, bus, result);
            regs.status.set_zn(result);
        },
        Op::ASL => {
            let (result, carry) = shift_left(value, false);
            put(operand, regs, bus, result);
            regs.set_carry_zn(carry, result);
        },
        Op::LSR => {
            let (result, carry) = shift_right(value, false);
            put(operand, regs, bus, result);
            regs.set_carry_zn(carry, result);
        },
        Op::ROL => {
            let (result, carry) = shift_left(value, regs.status.carry);
            put(operand, regs, bus, result);
            regs.set_carry_zn(carry, result);
        },
        Op::ROR => {
            let (result, carry) = shift_right(value, regs.status.carry);
            put(operand, regs, bus, result);
            regs.set_carry_zn(carry, result);
        },
        Op::SLO => {
            let (result, carry) = shift_left(value, false);
            put(operand, regs, bus, result);
            regs.a = regs.a | result;
            regs.set_carry_zn(carry, regs.a);
        },
        Op::RLA => {
            let (result, carry) = shift_left(value, regs.status.carry);
            put(operand, regs, bus, result);
            regs.a = regs.a & result;
            regs.set_carry_zn(carry, regs.a);
        },
        Op::SRE => {
            let (result, carry) = shift_right(value, false);
            put(operand, regs, bus, result);
            regs.a = regs.a ^ result;
            regs.set_carry_zn(carry, regs.a);
        },
        Op::RRA => {
            let (result, carry) = shift_right(value, regs.status.carry);
            put(operand, regs, bus, result);
            regs.status.carry = carry;
            regs.add(result);
        },
        Op::DCP => {
            let result = value.wrapping_sub(1);
            put(operand, regs, bus, result);
            regs.compare_with(regs.a, result);
        },
        Op::ISC => {
            let result = value.wrapping_add(1);
            put(operand, regs, bus, result);
            regs.subtract(result);
        },
        _ => {},
    }
}

/// Calls a subroutine: pushes the address of the last byte of the calling
/// instruction and jumps to `target`.
fn call<B: Bus>(operand: Operand, regs: &mut Registers, bus: &mut B)
    requires
        old(bus)@.wf(),
    ensures
        final(bus)@.wf(),
        machine(*final(regs), final(bus)@) == executed(
            Op::JSR,
            operand,
            machine(*old(regs), old(bus)@),
        ),
{
    push_word(regs, bus, regs.pc.wrapping_sub(1));
    regs.pc = address_of(operand);
}

/// Returns from a subroutine to the byte after the pulled address.
fn return_from_call<B: Bus>(regs: &mut Registers, bus: &B)
    requires
        bus@.wf(),
    ensures
        forall|operand: Operand|
            machine(*final(regs), bus@) == #[trigger] executed(
                Op::RTS,
                operand,
                machine(*old(regs), bus@),
            ),
{
    let target = pull_word(regs, bus);
    regs.pc = target.wrapping_add(1);
}

/// Enters the interrupt handler as BRK does.
fn software_interrupt<B: Bus>(regs: &mut Registers, bus: &mut B)
    requires
        old(bus)@.wf(),
    ensures
        final(bus)@.wf(),
        forall|operand: Operand|
            machine(*final(regs), final(bus)@) == #[trigger] executed(
                Op::BRK,
                operand,
                machine(*old(regs), old(bus)@),
            ),
{
    push_word(regs, bus, regs.pc.wrapping_add(1));
    push(regs, bus, regs.status.to_byte(true));
    regs.status.interrupt_disable = true;
    regs.pc = read_word_le(bus, IRQ_VECTOR);
}

/// Leaves an interrupt handler: pulls the flags, then the program counter.
fn return_from_interrupt<B: Bus>(regs: &mut Registers, bus: &B)
    requires
        bus@.wf(),
    ensures
        forall|operand: Operand|
            machine(*final(regs), bus@) == #[trigger] executed(
                Op::RTI,
                operand,
                machine(*old(regs), bus@),
            ),
{
    let pulled = pull(regs, bus);
    regs.status = Status::from_byte(pulled);
    regs.pc = pull_word(regs, bus);
}

/// Carries out a stack, jump, branch, flag or interrupt operation and tells
/// whether a branch was taken; any other operation changes nothing here.
fn control<B: Bus>(op: Op, operand: Operand, regs: &mut Registers, bus: &mut B) -> (taken: bool)
    requires
        old(bus)@.wf(),
    ensures
        final(bus)@.wf(),
        taken == branch_taken(op, old(regs).status),
        machine(*final(regs), final(bus)@) == if op.unit() == Unit::Control {
            executed(op, operand, machine(*old(regs), old(bus)@))
        } else {
            machine(*old(regs), old(bus)@)
        },
{
    match op {
        Op::PHA => push(regs, bus, regs.a),
        Op::PHP => push(regs, bus, regs.status.to_byte(true)),
        Op::PLA => {
            let pulled = pull(regs, bus);
            regs.load_a(pulled);
        },
        Op::PLP => {
            let pulled = pull(regs, bus);
            regs.status = Status::from_byte(pulled);
        },
        Op::JMP => {
            regs.pc = address_of(operand);
        },
        Op::JSR => call(operand, regs, bus),
        Op::RTS => return_from_call(regs, bus),
        Op::BCC | Op::BCS | Op::BEQ | Op::BMI | Op::BNE | Op::BPL | Op::BVC | Op::BVS => {
            let taken = branch_condition(op, &regs.status);
            if taken {
                regs.pc = address_of(operand);
            }
            return taken;
        },
        Op::CLC => {
            regs.status.carry = false;
        },
        Op::CLD => {
            regs.status.decimal = false;
        },
        Op::CLI => {
            regs.status.interrupt_disable = false;
        },
        Op::CLV => {
            regs.status.overflow = false;
        },
        Op::SEC => {
            regs.status.carry = true;
        },
        Op::SED => {
            regs.status.decimal = true;
        },
        Op::SEI => {
            regs.status.interrupt_disable = true;
        },
        Op::BRK => software_interrupt(regs, bus),
        Op::RTI => return_from_interrupt(regs, bus),
        Op::NOP => {
            // The operand of a NOP is read and discarded.
            let _ = fetch(operand, regs, bus);
        },
        _ => {},
    }
    false
}

/// Evaluates the condition of a branch; false for any other operation.
pub fn branch_condition(op: Op, status: &Status) -> (taken: bool)
    ensures
        taken == branch_taken(op, *status),
{
    match op {
        Op::BCC => !status.carry,
        Op::BCS => status.carry,
        Op::BNE => !status.zero,
        Op::BEQ => status.zero,
        Op::BPL => !status.negative,
        Op::BMI => status.negative,
        Op::BVC => !status.overflow,
        Op::BVS => status.overflow,
        _ => false,
    }
}

} // verus!
