//! The processor status register: eight flags packed into one byte.
//!
//! The byte is kept as it is pushed to and pulled from the stack; the
//! functions here name its bits.

use vstd::prelude::*;

verus! {

/// Carry: the bit that an addition or a shift moves out.
pub const FLAG_CARRY: u8 = 0b0000_0001;

/// Zero: the last result was 0.
pub const FLAG_ZERO: u8 = 0b0000_0010;

/// Interrupt disable: maskable interrupts are held back.
pub const FLAG_INTERRUPT_DISABLE: u8 = 0b0000_0100;

/// Decimal mode, which this processor keeps but does not act on.
pub const FLAG_DECIMAL: u8 = 0b0000_1000;

/// Break: set in the copy of the status that `BRK` and `PHP` push.
pub const FLAG_B: u8 = 0b0001_0000;

/// The unused bit, which reads as set in a pushed or pulled status.
pub const FLAG_U: u8 = 0b0010_0000;

/// Overflow: the last signed addition or subtraction did not fit.
pub const FLAG_OVERFLOW: u8 = 0b0100_0000;

/// Negative: bit 7 of the last result.
pub const FLAG_NEGATIVE: u8 = 0b1000_0000;

/// Whether any of the bits of `mask` is set in the status byte `p`.
pub open spec fn flag(p: u8, mask: u8) -> bool {
    p & mask != 0
}

/// The status byte `p` with the bits of `mask` set (`on`) or cleared.
pub open spec fn with_flag(p: u8, mask: u8, on: bool) -> u8 {
    if on {
        p | mask
    } else {
        p & !mask
    }
}

/// The status byte `p` with the zero flag saying whether `val` is zero and
/// the negative flag holding bit 7 of `val`.
pub open spec fn with_zn(p: u8, val: u8) -> u8 {
    with_flag(with_flag(p, FLAG_ZERO, val == 0), FLAG_NEGATIVE, val >= 128)
}

/// The carry flag as a number: 1 when set, 0 when clear.
pub open spec fn carry_in(p: u8) -> int {
    if flag(p, FLAG_CARRY) {
        1
    } else {
        0
    }
}

/// Whether `mask` is the bit of one of the eight flags.
pub open spec fn is_flag_mask(mask: u8) -> bool {
    mask == 0x01 || mask == 0x02 || mask == 0x04 || mask == 0x08 || mask == 0x10 || mask == 0x20
        || mask == 0x40 || mask == 0x80
}

/// Setting or clearing a flag makes it read back as written and leaves
/// every other flag as it was.
pub proof fn lemma_with_flag(p: u8, mask: u8, other: u8, on: bool)
    by (bit_vector)
    requires
        is_flag_mask(mask),
        is_flag_mask(other),
    ensures
        flag(with_flag(p, mask, on), mask) == on,
        other != mask ==> flag(with_flag(p, mask, on), other) == flag(p, other),
{
}

/// After `with_zn` the zero and negative flags describe `val`, and the six
/// other flags are those of `p`.
pub proof fn lemma_with_zn(p: u8, val: u8)
    ensures
        flag(with_zn(p, val), FLAG_ZERO) == (val == 0),
        flag(with_zn(p, val), FLAG_NEGATIVE) == (val >= 128),
        flag(with_zn(p, val), FLAG_CARRY) == flag(p, FLAG_CARRY),
        flag(with_zn(p, val), FLAG_INTERRUPT_DISABLE) == flag(p, FLAG_INTERRUPT_DISABLE),
        flag(with_zn(p, val), FLAG_DECIMAL) == flag(p, FLAG_DECIMAL),
        flag(with_zn(p, val), FLAG_B) == flag(p, FLAG_B),
        flag(with_zn(p, val), FLAG_U) == flag(p, FLAG_U),
        flag(with_zn(p, val), FLAG_OVERFLOW) == flag(p, FLAG_OVERFLOW),
{
    let z = with_flag(p, FLAG_ZERO, val == 0);
    lemma_with_flag(z, FLAG_NEGATIVE, FLAG_ZERO, val >= 128);
    lemma_with_flag(z, FLAG_NEGATIVE, FLAG_CARRY, val >= 128);
    lemma_with_flag(z, FLAG_NEGATIVE, FLAG_INTERRUPT_DISABLE, val >= 128);
    lemma_with_flag(z, FLAG_NEGATIVE, FLAG_DECIMAL, val >= 128);
    lemma_with_flag(z, FLAG_NEGATIVE, FLAG_B, val >= 128);
    lemma_with_flag(z, FLAG_NEGATIVE, FLAG_U, val >= 128);
    lemma_with_flag(z, FLAG_NEGATIVE, FLAG_OVERFLOW, val >= 128);
    lemma_with_flag(p, FLAG_ZERO, FLAG_CARRY, val == 0);
    lemma_with_flag(p, FLAG_ZERO, FLAG_INTERRUPT_DISABLE, val == 0);
    lemma_with_flag(p, FLAG_ZERO, FLAG_DECIMAL, val == 0);
    lemma_with_flag(p, FLAG_ZERO, FLAG_B, val == 0);
    lemma_with_flag(p, FLAG_ZERO, FLAG_U, val == 0);
    lemma_with_flag(p, FLAG_ZERO, FLAG_OVERFLOW, val == 0);
}

/// Bit 7, bit 6 and bit 0 of a byte, and its complement, read as arithmetic.
pub proof fn lemma_byte_bits(v: u8)
    by (bit_vector)
    ensures
        (v & 0x80 != 0) == (v >= 128),
        ((v >> 6) & 0x01 == 1) == ((v / 64) % 2 == 1),
        (v & 0x01 == 1) == (v % 2 == 1),
        !v == 255 - v,
{
}

/// A shift to the left doubles a byte and drops what does not fit; with the
/// carry bit `c` moved into bit 0 it is a rotation.
pub proof fn lemma_shift_left(v: u8, c: u8)
    requires
        c <= 1,
    ensures
        v << 1 == (2 * v) % 256,
        (v << 1) | c == (2 * v + c) % 256,
{
    assert(v << 1 == (2 * v) % 256) by (bit_vector);
    assert((v << 1) | c == (2 * v + c) % 256) by (bit_vector)
        requires
            c <= 1,
    ;
}

/// A shift to the right halves a byte; with the carry bit `c` moved into
/// bit 7 it is a rotation.
pub proof fn lemma_shift_right(v: u8, c: u8)
    requires
        c <= 1,
    ensures
        v >> 1 == v / 2,
        (v >> 1) | (c << 7) == v / 2 + 128 * c,
{
    assert(v >> 1 == v / 2) by (bit_vector);
    assert((v >> 1) | (c << 7) == v / 2 + 128 * c) by (bit_vector)
        requires
            c <= 1,
    ;
}

/// The exclusive-or test for signed overflow agrees with the comparison of
/// signs: the operands `a` and `v` have the same sign and the result `r`
/// has the other one.
pub proof fn lemma_overflow_bits(a: u8, v: u8, r: u8)
    by (bit_vector)
    ensures
        ((!(a ^ v) & (a ^ r) & 0x80) != 0) == ((a >= 128) == (v >= 128) && (r >= 128) != (a
            >= 128)),
{
}

} // verus!
