//! The register file of the processor and the machine it forms with a bus.
use vstd::prelude::*;
use crate::alu::{add_with_carry, compare, comparison, difference, sign_bit, subtract_with_borrow, sum};
use crate::bus::{high_byte, low_byte, word, MemState};
use crate::status::Status;

verus! {

/// The page that holds the stack.
pub const STACK_PAGE: u16 = 0x0100;

/// The registers of the processor. They belong to the caller, who hands them
/// to every call that executes an instruction.
#[derive(Clone, Copy, Debug, PartialEq, Eq, Structural)]
pub struct Registers {
    /// The accumulator.
    pub a: u8,
    /// The X index register.
    pub x: u8,
    /// The Y index register.
    pub y: u8,
    /// The stack pointer, an offset into the stack page.
    pub sp: u8,
    /// The program counter.
    pub pc: u16,
    /// The processor flags.
    pub status: Status,
}

/// The address of the stack slot that `sp` points at.
pub open spec fn stack_slot(sp: u8) -> u16 {
    (STACK_PAGE + sp) as u16
}

impl Registers {
    /// These registers with Zero and Negative taken from `value`.
    pub open spec fn with_zn(self, value: u8) -> Registers {
        Registers { status: self.status.with_zn(value), ..self }
    }

    /// These registers with `value` loaded into the accumulator.
    pub open spec fn loaded_a(self, value: u8) -> Registers {
        Registers { a: value, ..self }.with_zn(value)
    }

    /// These registers with `value` loaded into X.
    pub open spec fn loaded_x(self, value: u8) -> Registers {
        Registers { x: value, ..self }.with_zn(value)
    }

    /// These registers with `value` loaded into Y.
    pub open spec fn loaded_y(self, value: u8) -> Registers {
        Registers { y: value, ..self }.with_zn(value)
    }

    /// These registers with Carry set to `carry` and Zero and Negative taken
    /// from `value`.
    pub open spec fn with_carry_zn(self, carry: bool, value: u8) -> Registers {
        Registers { status: Status { carry, ..self.status }.with_zn(value), ..self }
    }

    /// These registers after comparing `register` with `m`: only Carry, Zero
    /// and Negative change.
    pub open spec fn compared(self, register: u8, m: u8) -> Registers {
        let (carry, zero, negative) = comparison(register, m);
        Registers { status: Status { carry, zero, negative, ..self.status }, ..self }
    }

    /// These registers after adding `m` and the carry to the accumulator.
    pub open spec fn added(self, m: u8) -> Registers {
        let (value, carry, overflow) = sum(self.a, m, self.status.carry);
        Registers {
            a: value,
            status: Status { carry, overflow, ..self.status }.with_zn(value),
            ..self
        }
    }

    /// These registers after subtracting `m` and the borrow from the
    /// accumulator.
    pub open spec fn subtracted(self, m: u8) -> Registers {
        let (value, carry, overflow) = difference(self.a, m, self.status.carry);
        Registers {
            a: value,
            status: Status { carry, overflow, ..self.status }.with_zn(value),
            ..self
        }
    }

    /// These registers after testing the bits of `m` against the accumulator:
    /// Zero tells whether they share no bit, Negative and Overflow are bits 7
    /// and 6 of `m`.
    pub open spec fn bit_tested(self, m: u8) -> Registers {
        Registers {
            status: Status {
                zero: self.a & m == 0,
                negative: sign_bit(m),
                overflow: m & 0x40 != 0,
                ..self.status
            },
            ..self
        }
    }

    /// Loads the accumulator and sets Zero and Negative from the value.
    pub fn load_a(&mut self, value: u8)
        ensures
            *final(self) == old(self).loaded_a(value),
    {
        self.a = value;
        self.status.set_zn(value);
    }

    /// Loads X and sets Zero and Negative from the value.
    pub fn load_x(&mut self, value: u8)
        ensures
            *final(self) == old(self).loaded_x(value),
    {
        self.x = value;
        self.status.set_zn(value);
    }

    /// Loads Y and sets Zero and Negative from the value.
    pub fn load_y(&mut self, value: u8)
        ensures
            *final(self) == old(self).loaded_y(value),
    {
        self.y = value;
        self.status.set_zn(value);
    }

    /// Sets Carry, and Zero and Negative from `value`.
    pub fn set_carry_zn(&mut self, carry: bool, value: u8)
        ensures
            *final(self) == old(self).with_carry_zn(carry, value),
    {
        self.status.carry = carry;
        self.status.set_zn(value);
    }

    /// Compares `register` with `m` and sets Carry, Zero and Negative.
    pub fn compare_with(&mut self, register: u8, m: u8)
        ensures
            *final(self) == old(self).compared(register, m),
    {
        let (carry, zero, negative) = compare(register, m);
        self.status.carry = carry;
        self.status.zero = zero;
        self.status.negative = negative;
    }

    /// Adds `m` and the carry to the accumulator in binary.
    pub fn add(&mut self, m: u8)
        ensures
            *final(self) == old(self).added(m),
    {
        let (value, carry, overflow) = add_with_carry(self.a, m, self.status.carry);
        self.a = value;
        self.status.carry = carry;
        self.status.overflow = overflow;
        self.status.set_zn(value);
    }

    /// Subtracts `m` and the borrow from the accumulator in binary.
    pub fn subtract(&mut self, m: u8)
        ensures
            *final(self) == old(self).subtracted(m),
    {
        let (value, carry, overflow) = subtract_with_borrow(self.a, m, self.status.carry);
        self.a = value;
        self.status.carry = carry;
        self.status.overflow = overflow;
        self.status.set_zn(value);
    }

    /// Tests the bits of `m` against the accumulator.
    pub fn test_bits(&mut self, m: u8)
        ensures
            *final(self) == old(self).bit_tested(m),
    {
        self.status.zero = self.a & m == 0;
        self.status.negative = m >= 0x80;
        self.status.overflow = m & 0x40 != 0;
    }

    /// Registers as they are before the first reset: all zero, interrupts
    /// disabled.
    pub open spec fn new_spec() -> Registers {
        Registers { a: 0, x: 0, y: 0, sp: 0, pc: 0, status: Status::new_spec() }
    }

    /// Registers as they are before the first reset: all zero, interrupts
    /// disabled.
    #[verifier::when_used_as_spec(new_spec)]
    pub fn new() -> (regs: Registers)
        ensures
            regs == Registers::new_spec(),
    {
        Registers { a: 0, x: 0, y: 0, sp: 0, pc: 0, status: Status::new() }
    }

    /// The address of the stack slot that the stack pointer points at.
    pub fn stack_address(&self) -> (addr: u16)
        ensures
            addr == stack_slot(self.sp),
    {
        STACK_PAGE + self.sp as u16
    }
}

/// The processor's registers together with the state of the bus: all that an
/// instruction can read or change.
pub struct Machine {
    pub regs: Registers,
    pub mem: MemState,
}

/// The machine made of `regs` and a bus in state `mem`.
pub open spec fn machine(regs: Registers, mem: MemState) -> Machine {
    Machine { regs, mem }
}

impl Machine {
    /// This machine with other registers.
    pub open spec fn with_regs(self, regs: Registers) -> Machine {
        Machine { regs, ..self }
    }

    /// The machine after a write request on the bus.
    pub open spec fn write(self, addr: u16, value: u8) -> Machine {
        Machine { mem: self.mem.write(addr, value), ..self }
    }

    /// The machine after pushing a byte: the byte is written to the slot the
    /// stack pointer points at, and the pointer moves down, wrapping inside
    /// the stack page.
    pub open spec fn push(self, value: u8) -> Machine {
        Machine {
            regs: Registers { sp: self.regs.sp.wrapping_sub(1), ..self.regs },
            mem: self.mem.write(stack_slot(self.regs.sp), value),
        }
    }

    /// The machine after pushing a word, high byte first.
    pub open spec fn push_word(self, value: u16) -> Machine {
        self.push(high_byte(value)).push(low_byte(value))
    }

    /// The byte that a pull yields: the one above the stack pointer.
    pub open spec fn top(self) -> u8 {
        self.mem.read(stack_slot(self.regs.sp.wrapping_add(1)))
    }

    /// The machine after pulling a byte: the stack pointer moves up, wrapping
    /// inside the stack page.
    pub open spec fn pop(self) -> Machine {
        Machine { regs: Registers { sp: self.regs.sp.wrapping_add(1), ..self.regs }, ..self }
    }

    /// The word that pulling two bytes yields, low byte first.
    pub open spec fn top_word(self) -> u16 {
        word(self.top(), self.pop().top())
    }
}

} // verus!
