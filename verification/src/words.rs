//! Fixed-width arithmetic on bytes and 16-bit words, stated over integers.

use vstd::prelude::*;
use vstd::arithmetic::div_mod::{lemma_add_mod_noop, lemma_mod_twice};

verus! {

/// `n` reduced to a byte: the value of `n` modulo 256.
pub closed spec fn wrap8(n: int) -> u8 {
    (n % 256) as u8
}

/// `n` reduced to a 16-bit word: the value of `n` modulo 65536.
pub closed spec fn wrap16(n: int) -> u16 {
    (n % 65536) as u16
}

/// `n` reduced to 32 bits: the value of `n` modulo 2^32.
pub closed spec fn wrap32(n: int) -> u32 {
    (n % 0x1_0000_0000) as u32
}

/// What the three reductions are: remainders.
pub proof fn lemma_wrap_is_remainder(n: int)
    ensures
        wrap8(n) == n % 256,
        wrap16(n) == n % 65536,
        wrap32(n) == n % 0x1_0000_0000,
{
}

/// A number that is less than one round of 256 below 0 or above 255 is
/// reduced by adding or subtracting 256 once.
pub broadcast proof fn lemma_wrap8_near(n: int)
    requires
        -256 <= n < 512,
    ensures
        #[trigger] wrap8(n) == if n < 0 {
            n + 256
        } else if n < 256 {
            n
        } else {
            n - 256
        },
{
}

/// A number that is less than one round of 65536 below 0 or above 65535 is
/// reduced by adding or subtracting 65536 once.
pub broadcast proof fn lemma_wrap16_near(n: int)
    requires
        -65536 <= n < 131072,
    ensures
        #[trigger] wrap16(n) == if n < 0 {
            n + 65536
        } else if n < 65536 {
            n
        } else {
            n - 65536
        },
{
}

/// A number that is less than one round of 2^32 above the largest 32-bit
/// number is reduced by subtracting 2^32 once.
pub broadcast proof fn lemma_wrap32_near(n: int)
    requires
        0 <= n < 0x2_0000_0000,
    ensures
        #[trigger] wrap32(n) == if n < 0x1_0000_0000 {
            n
        } else {
            n - 0x1_0000_0000
        },
{
}

/// Reducing a sum is reducing the sum of a reduced number: a byte that
/// steps up or down by `d` from the reduction of `n` is at the reduction of
/// `n + d`.
pub proof fn lemma_wrap8_sum(n: int, d: int)
    ensures
        wrap8(wrap8(n) + d) == wrap8(n + d),
{
    lemma_add_mod_noop(n, d, 256);
    lemma_add_mod_noop(n % 256, d, 256);
    lemma_mod_twice(n, 256);
}

/// The three facts about reductions of numbers near the range.
pub broadcast group group_wrap_near {
    lemma_wrap8_near,
    lemma_wrap16_near,
    lemma_wrap32_near,
}

/// The byte `b` read as a two's-complement number in -128..=127.
pub open spec fn signed8(b: u8) -> int {
    if b < 128 {
        b as int
    } else {
        b - 256
    }
}

/// The little-endian word whose low byte is `lo` and whose high byte is `hi`.
pub open spec fn word(lo: u8, hi: u8) -> u16 {
    (lo + 256 * hi) as u16
}

/// The low byte of `w`.
pub open spec fn low_byte(w: u16) -> u8 {
    (w % 256) as u8
}

/// The high byte of `w`.
pub open spec fn high_byte(w: u16) -> u8 {
    (w / 256) as u8
}

/// The 256-byte page that `address` lies on.
pub open spec fn page_of(address: u16) -> int {
    address as int / 256
}

/// Join two bytes into a little-endian word.
pub fn make_word(lo: u8, hi: u8) -> (w: u16)
    ensures
        w == word(lo, hi),
{
    let w: u16 = ((hi as u16) << 8) | (lo as u16);
    assert(w == lo + 256 * hi) by (bit_vector)
        requires
            w == ((hi as u16) << 8) | (lo as u16),
    ;
    w
}

/// Split a word into its low and high byte.
pub fn split_word(w: u16) -> (bytes: (u8, u8))
    ensures
        bytes.0 == low_byte(w),
        bytes.1 == high_byte(w),
        word(bytes.0, bytes.1) == w,
{
    let lo: u8 = (w % 256) as u8;
    let hi: u8 = (w / 256) as u8;
    (lo, hi)
}

/// A word is the join of its two bytes, and the bytes of a join are the
/// bytes joined.
pub proof fn lemma_word_bytes(lo: u8, hi: u8, w: u16)
    ensures
        low_byte(word(lo, hi)) == lo,
        high_byte(word(lo, hi)) == hi,
        word(low_byte(w), high_byte(w)) == w,
{
}

} // verus!
