//! The arithmetic and logic of the processor on plain bytes.
//!
//! Each operation is specified by what it computes on integers: a sum and
//! whether it left the unsigned or the signed byte range, a doubling or a
//! halving and the bit that fell off. The executable functions use the
//! byte-sized tricks of the hardware and are proved to agree.
use vstd::prelude::*;

verus! {

/// A byte read as a two's-complement number.
pub open spec fn signed(value: u8) -> int {
    if value < 0x80 {
        value as int
    } else {
        value as int - 0x100
    }
}

/// A flag as the number it adds to a sum.
pub open spec fn carry_value(carry: bool) -> int {
    if carry {
        1
    } else {
        0
    }
}

/// Whether bit 7, the sign bit, of a byte is set.
pub open spec fn sign_bit(value: u8) -> bool {
    value >= 0x80
}

/// Binary addition with carry: the low byte of `a + m + carry`, the carry out
/// of bit 7, and whether the signed sum left the range of a byte.
pub open spec fn sum(a: u8, m: u8, carry: bool) -> (u8, bool, bool) {
    let unsigned = a as int + m as int + carry_value(carry);
    let two_complement = signed(a) + signed(m) + carry_value(carry);
    (
        (unsigned % 0x100) as u8,
        unsigned >= 0x100,
        two_complement < -0x80 || two_complement > 0x7F,
    )
}

/// Binary subtraction with borrow, the borrow being the inverted carry: the
/// low byte of `a - m - (1 - carry)`, whether no borrow was needed, and
/// whether the signed difference left the range of a byte.
pub open spec fn difference(a: u8, m: u8, carry: bool) -> (u8, bool, bool) {
    let unsigned = a as int - m as int - (1 - carry_value(carry));
    let two_complement = signed(a) - signed(m) - (1 - carry_value(carry));
    (
        (unsigned % 0x100) as u8,
        unsigned >= 0,
        two_complement < -0x80 || two_complement > 0x7F,
    )
}

/// Comparison of a register with an operand: whether no borrow occurred
/// (Carry), whether they are equal (Zero), and the sign bit of the low byte of
/// the difference (Negative).
pub open spec fn comparison(register: u8, m: u8) -> (bool, bool, bool) {
    (register >= m, register == m, sign_bit(((register as int - m as int) % 0x100) as u8))
}

/// A byte shifted left by one: the result and the bit shifted out.
pub open spec fn shifted_left(value: u8, carry_in: bool) -> (u8, bool) {
    (((value as int * 2 + carry_value(carry_in)) % 0x100) as u8, sign_bit(value))
}

/// A byte shifted right by one: the result and the bit shifted out.
pub open spec fn shifted_right(value: u8, carry_in: bool) -> (u8, bool) {
    ((value as int / 2 + 0x80 * carry_value(carry_in)) as u8, value as int % 2 == 1)
}

/// The facts that tie the shifts and the end bits of a byte to arithmetic.
pub proof fn lemma_byte_bits(value: u8)
    by (bit_vector)
    ensures
        value << 1 == (value % 0x80) * 2,
        value >> 1 == value / 2,
        (value & 0x80 != 0) == (value >= 0x80),
        (value & 0x01 != 0) == (value % 2 == 1),
{
}

/// Adds `m` and the carry to `a` in binary.
///
/// Overflow is set exactly when both inputs have the same sign and the sign
/// of the result differs from it.
pub fn add_with_carry(a: u8, m: u8, carry: bool) -> (out: (u8, bool, bool))
    ensures
        out == sum(a, m, carry),
{
    let total: u16 = a as u16 + m as u16 + if carry {
        1
    } else {
        0
    };
    let value = (total % 0x100) as u8;
    let same_sign = (a >= 0x80) == (m >= 0x80);
    let flipped = (value >= 0x80) != (a >= 0x80);
    (value, total > 0xFF, same_sign && flipped)
}

/// Subtracts `m` and the borrow from `a` in binary, as the hardware does it:
/// by adding the one's complement of `m`.
pub fn subtract_with_borrow(a: u8, m: u8, carry: bool) -> (out: (u8, bool, bool))
    ensures
        out == difference(a, m, carry),
        out == sum(a, (0xFF - m) as u8, carry),
{
    add_with_carry(a, 0xFF - m, carry)
}

/// Compares a register with an operand without storing the difference.
/// Yields Carry, Zero and Negative in this order.
pub fn compare(register: u8, m: u8) -> (out: (bool, bool, bool))
    ensures
        out == comparison(register, m),
{
    let low = register.wrapping_sub(m);
    (register >= m, low == 0, low >= 0x80)
}

/// Shifts left by one, moving `carry_in` into bit 0.
pub fn shift_left(value: u8, carry_in: bool) -> (out: (u8, bool))
    ensures
        out == shifted_left(value, carry_in),
{
    proof {
        lemma_byte_bits(value);
    }
    let doubled = value << 1;
    let low: u8 = if carry_in {
        1
    } else {
        0
    };
    (doubled + low, value & 0x80 != 0)
}

/// Shifts right by one, moving `carry_in` into bit 7.
pub fn shift_right(value: u8, carry_in: bool) -> (out: (u8, bool))
    ensures
        out == shifted_right(value, carry_in),
{
    proof {
        lemma_byte_bits(value);
    }
    let halved = value >> 1;
    let high: u8 = if carry_in {
        0x80
    } else {
        0
    };
    (halved + high, value & 0x01 != 0)
}

} // verus!
