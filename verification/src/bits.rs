//! Bytes, words and wrapping arithmetic, with the facts about bitwise
//! operators that the rest of the library leans on.
use vstd::prelude::*;

verus! {

/// The 16-bit word whose high byte is `hi` and whose low byte is `lo`.
pub open spec fn word(hi: u8, lo: u8) -> u16 {
    (hi as int * 256 + lo as int) as u16
}

/// The high byte of a word.
pub open spec fn hi_byte(w: u16) -> u8 {
    (w as int / 256) as u8
}

/// The low byte of a word.
pub open spec fn lo_byte(w: u16) -> u8 {
    (w as int % 256) as u8
}

/// Two's-complement sign extension of a byte to a word.
pub open spec fn sign_extend(b: u8) -> u16 {
    if b < 128 {
        b as u16
    } else {
        (b as int + 0xFF00) as u16
    }
}

/// `x` modulo 2^16.
pub open spec fn wrap16(x: int) -> u16 {
    (x % 0x10000) as u16
}

/// `x` modulo 2^8.
pub open spec fn wrap8(x: int) -> u8 {
    (x % 0x100) as u8
}

/// Wrapping by one subtraction or addition of the modulus, for values
/// within one modulus of the range.
pub proof fn lemma_wrap8(x: int)
    requires
        -0x100 <= x < 0x200,
    ensures
        wrap8(x) as int == if x > 0xff {
            x - 0x100
        } else if x < 0 {
            x + 0x100
        } else {
            x
        },
{
}

/// The same for words.
pub proof fn lemma_wrap16(x: int)
    requires
        -0x10000 <= x < 0x20000,
    ensures
        wrap16(x) as int == if x > 0xffff {
            x - 0x10000
        } else if x < 0 {
            x + 0x10000
        } else {
            x
        },
{
}

/// Wrapping once after two subtractions is wrapping after each.
pub proof fn lemma_wrap8_twice(x: int, y: int)
    ensures
        wrap8(wrap8(x) - y) == wrap8(x - y),
{
    assert((x % 0x100 - y) % 0x100 == (x - y) % 0x100) by (nonlinear_arith);
}

/// Shifting the high byte up and joining the low byte gives the word of
/// the two bytes.
pub proof fn lemma_word_pack(hi: u8, lo: u8)
    by (bit_vector)
    ensures
        ((hi as u16) << 8 | (lo as u16)) == (hi as u16) * 256 + (lo as u16),
{
}

/// Masking and shifting a word gives its two bytes.
pub proof fn lemma_word_split(w: u16)
    by (bit_vector)
    ensures
        ((w & 0xff00) >> 8) as u8 == (w / 256) as u8,
        (w & 0x00ff) as u8 == (w % 256) as u8,
        (w & 0x00f0) as u8 == ((w % 256) as u8) & 0xf0,
{
}

/// A byte cast to a signed byte and on to a word is sign-extended.
pub proof fn lemma_sign_extend(b: u8)
    by (bit_vector)
    ensures
        b < 128 ==> b as i8 as u16 == b as u16,
        b >= 128 ==> b as i8 as u16 == (b as u16) + 0xFF00,
{
}

/// The low nibble of a byte is at most 15, and masking the high nibble
/// clears it.
pub proof fn lemma_nibbles(x: u8)
    by (bit_vector)
    ensures
        x & 0x0f <= 15,
        (x & 0xf0) & 0x0f == 0,
{
}

/// Masking the low bits of a word is the remainder by a power of two.
pub proof fn lemma_word_masks(x: u16)
    by (bit_vector)
    ensures
        x & 0x0fff == x % 4096,
        x & 0x00ff == x % 256,
        x & 0x000f == x % 16,
        x & 0x1fff == x % 0x2000,
{
}

} // verus!
