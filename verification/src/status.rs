//! The processor status register.
//!
//! Six flags are latched by the processor. The two remaining bits of the
//! packed byte are not storage: bit 5 always reads as one, and bit 4 (Break)
//! exists only in the copy that is pushed on the stack.
use vstd::prelude::*;

verus! {

/// Bit mask of the Negative flag in the packed status byte.
pub const NEGATIVE_MASK: u8 = 0x80;

/// Bit mask of the Overflow flag in the packed status byte.
pub const OVERFLOW_MASK: u8 = 0x40;

/// Bit mask of the bit that always reads as one.
pub const UNUSED_MASK: u8 = 0x20;

/// Bit mask of the Break marker in a pushed status byte.
pub const BREAK_MASK: u8 = 0x10;

/// Bit mask of the Decimal flag in the packed status byte.
pub const DECIMAL_MASK: u8 = 0x08;

/// Bit mask of the InterruptDisable flag in the packed status byte.
pub const INTERRUPT_DISABLE_MASK: u8 = 0x04;

/// Bit mask of the Zero flag in the packed status byte.
pub const ZERO_MASK: u8 = 0x02;

/// Bit mask of the Carry flag in the packed status byte.
pub const CARRY_MASK: u8 = 0x01;

/// `mask` when `set` holds, otherwise no bit at all.
pub open spec fn flag_bits(set: bool, mask: u8) -> u8 {
    if set {
        mask
    } else {
        0
    }
}

/// The latched flags of the processor.
#[derive(Clone, Copy, Debug, PartialEq, Eq, Structural)]
pub struct Status {
    pub negative: bool,
    pub overflow: bool,
    pub decimal: bool,
    pub interrupt_disable: bool,
    pub zero: bool,
    pub carry: bool,
}

impl Status {
    /// The packed byte for these flags: bit 5 is set, bit 4 is `brk`.
    pub open spec fn packed(self, brk: bool) -> u8 {
        flag_bits(self.negative, NEGATIVE_MASK) | flag_bits(self.overflow, OVERFLOW_MASK)
            | UNUSED_MASK | flag_bits(brk, BREAK_MASK) | flag_bits(self.decimal, DECIMAL_MASK)
            | flag_bits(self.interrupt_disable, INTERRUPT_DISABLE_MASK) | flag_bits(
            self.zero,
            ZERO_MASK,
        ) | flag_bits(self.carry, CARRY_MASK)
    }

    /// The flags latched from a packed byte; bits 4 and 5 are not latched.
    pub open spec fn unpacked(byte: u8) -> Status {
        Status {
            negative: byte & NEGATIVE_MASK != 0,
            overflow: byte & OVERFLOW_MASK != 0,
            decimal: byte & DECIMAL_MASK != 0,
            interrupt_disable: byte & INTERRUPT_DISABLE_MASK != 0,
            zero: byte & ZERO_MASK != 0,
            carry: byte & CARRY_MASK != 0,
        }
    }

    /// These flags with Zero and Negative taken from `value`.
    pub open spec fn with_zn(self, value: u8) -> Status {
        Status { zero: value == 0, negative: value >= 0x80, ..self }
    }

    /// The flags after power-on: only InterruptDisable is set.
    pub open spec fn new_spec() -> Status {
        Status {
            negative: false,
            overflow: false,
            decimal: false,
            interrupt_disable: true,
            zero: false,
            carry: false,
        }
    }

    /// The state of the flags after power-on: only InterruptDisable is set.
    #[verifier::when_used_as_spec(new_spec)]
    pub fn new() -> (status: Status)
        ensures
            status == Status::new_spec(),
    {
        Status {
            negative: false,
            overflow: false,
            decimal: false,
            interrupt_disable: true,
            zero: false,
            carry: false,
        }
    }

    /// Packs the flags into a byte as the processor pushes it: bit 5 is always
    /// one and bit 4 is the Break marker `brk`.
    pub fn to_byte(&self, brk: bool) -> (byte: u8)
        ensures
            byte == self.packed(brk),
            byte & UNUSED_MASK == UNUSED_MASK,
    {
        let byte = mask_if(self.negative, NEGATIVE_MASK) | mask_if(self.overflow, OVERFLOW_MASK)
            | UNUSED_MASK | mask_if(brk, BREAK_MASK) | mask_if(self.decimal, DECIMAL_MASK)
            | mask_if(self.interrupt_disable, INTERRUPT_DISABLE_MASK) | mask_if(
            self.zero,
            ZERO_MASK,
        ) | mask_if(self.carry, CARRY_MASK);
        proof {
            lemma_pack_bits(
                flag_bits(self.negative, NEGATIVE_MASK),
                flag_bits(self.overflow, OVERFLOW_MASK),
                flag_bits(brk, BREAK_MASK),
                flag_bits(self.decimal, DECIMAL_MASK),
                flag_bits(self.interrupt_disable, INTERRUPT_DISABLE_MASK),
                flag_bits(self.zero, ZERO_MASK),
                flag_bits(self.carry, CARRY_MASK),
            );
        }
        byte
    }

    /// Latches the six flags from a packed byte, ignoring bits 4 and 5.
    pub fn from_byte(byte: u8) -> (status: Status)
        ensures
            status == Status::unpacked(byte),
    {
        Status {
            negative: byte & NEGATIVE_MASK != 0,
            overflow: byte & OVERFLOW_MASK != 0,
            decimal: byte & DECIMAL_MASK != 0,
            interrupt_disable: byte & INTERRUPT_DISABLE_MASK != 0,
            zero: byte & ZERO_MASK != 0,
            carry: byte & CARRY_MASK != 0,
        }
    }

    /// Sets Zero and Negative from `value` and leaves the other flags alone.
    pub fn set_zn(&mut self, value: u8)
        ensures
            *final(self) == old(self).with_zn(value),
    {
        self.zero = value == 0;
        self.negative = value >= 0x80;
    }
}

fn mask_if(set: bool, mask: u8) -> (bits: u8)
    ensures
        bits == flag_bits(set, mask),
{
    if set {
        mask
    } else {
        0
    }
}

proof fn lemma_pack_bits(n: u8, v: u8, b: u8, d: u8, i: u8, z: u8, c: u8)
    by (bit_vector)
    requires
        n == 0 || n == 0x80,
        v == 0 || v == 0x40,
        b == 0 || b == 0x10,
        d == 0 || d == 0x08,
        i == 0 || i == 0x04,
        z == 0 || z == 0x02,
        c == 0 || c == 0x01,
    ensures
        ({
            let p = n | v | 0x20u8 | b | d | i | z | c;
            &&& p & 0x80 == n
            &&& p & 0x40 == v
            &&& p & 0x20 == 0x20
            &&& p & 0x10 == b
            &&& p & 0x08 == d
            &&& p & 0x04 == i
            &&& p & 0x02 == z
            &&& p & 0x01 == c
        }),
{
}

/// Packing and unpacking are inverse on the latched flags: whatever the Break
/// marker of the pushed copy, reading the byte back yields the same six flags.
pub proof fn lemma_unpack_packed(status: Status, brk: bool)
    ensures
        Status::unpacked(status.packed(brk)) == status,
        status.packed(brk) & UNUSED_MASK == UNUSED_MASK,
        (status.packed(brk) & BREAK_MASK != 0) == brk,
{
    lemma_pack_bits(
        flag_bits(status.negative, NEGATIVE_MASK),
        flag_bits(status.overflow, OVERFLOW_MASK),
        flag_bits(brk, BREAK_MASK),
        flag_bits(status.decimal, DECIMAL_MASK),
        flag_bits(status.interrupt_disable, INTERRUPT_DISABLE_MASK),
        flag_bits(status.zero, ZERO_MASK),
        flag_bits(status.carry, CARRY_MASK),
    );
}

} // verus!
