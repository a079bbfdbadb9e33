//! Words, bit fields and sign extension.

use vstd::prelude::*;

verus! {

/// Number of distinct values of a word.
pub open spec fn word_span() -> int {
    0x1_0000
}

/// The number of values that a field of `bits` bits takes: 2 to the power
/// `bits`, for each width from 1 that fits in a word.
#[verifier::inline]
pub open spec fn field_span(bits: u16) -> int {
    if bits == 1 {
        0x2
    } else if bits == 2 {
        0x4
    } else if bits == 3 {
        0x8
    } else if bits == 4 {
        0x10
    } else if bits == 5 {
        0x20
    } else if bits == 6 {
        0x40
    } else if bits == 7 {
        0x80
    } else if bits == 8 {
        0x100
    } else if bits == 9 {
        0x200
    } else if bits == 10 {
        0x400
    } else if bits == 11 {
        0x800
    } else if bits == 12 {
        0x1000
    } else if bits == 13 {
        0x2000
    } else if bits == 14 {
        0x4000
    } else if bits == 15 {
        0x8000
    } else {
        0x1_0000
    }
}

/// The value of `val` modulo `span`, read as a two's-complement number of
/// `span` values: the upper half of the span stands for the negatives.
pub open spec fn signed_low(val: u16, span: int) -> int {
    let low = val as int % span;
    if 2 * low >= span {
        low - span
    } else {
        low
    }
}

/// The value of the lowest `bits` bits of `val`, read as an unsigned number.
pub open spec fn low_field(val: u16, bits: u16) -> int {
    val as int % field_span(bits)
}

/// The value of the lowest `bits` bits of `val`, read as a two's-complement
/// number of that width.
pub open spec fn signed_field(val: u16, bits: u16) -> int {
    signed_low(val, field_span(bits))
}

/// The word that stands for an integer modulo 2^16.
pub open spec fn to_word(value: int) -> u16 {
    (value % word_span()) as u16
}

/// The word whose lowest `bits` bits are those of `val` and whose higher bits
/// all repeat bit `bits - 1`.
pub open spec fn sign_extend(val: u16, bits: u16) -> u16 {
    to_word(signed_field(val, bits))
}

/// The sum of two words modulo 2^16.
pub open spec fn word_add(a: u16, b: u16) -> u16 {
    to_word(a + b)
}

/// A word read as a two's-complement number.
pub open spec fn signed_value(word: u16) -> int {
    if word >= 0x8000 {
        word - word_span()
    } else {
        word as int
    }
}

/// The low eight bits of a word.
pub open spec fn low_byte(word: u16) -> u8 {
    (word % 0x100) as u8
}

/// The high eight bits of a word.
pub open spec fn high_byte(word: u16) -> u8 {
    (word / 0x100) as u8
}

/// The word made of a high and a low byte.
pub open spec fn join_bytes(high: u8, low: u8) -> u16 {
    (high * 0x100 + low) as u16
}

proof fn lemma_shift_is_span(bits: u16)
    requires
        1 <= bits <= 16,
    ensures
        (1u32 << bits) as int == field_span(bits),
{
    assert(1u32 << 1u16 == 0x2 && 1u32 << 2u16 == 0x4 && 1u32 << 3u16 == 0x8 && 1u32 << 4u16
        == 0x10 && 1u32 << 5u16 == 0x20 && 1u32 << 6u16 == 0x40 && 1u32 << 7u16 == 0x80 && 1u32
        << 8u16 == 0x100 && 1u32 << 9u16 == 0x200 && 1u32 << 10u16 == 0x400 && 1u32 << 11u16
        == 0x800 && 1u32 << 12u16 == 0x1000 && 1u32 << 13u16 == 0x2000 && 1u32 << 14u16 == 0x4000
        && 1u32 << 15u16 == 0x8000 && 1u32 << 16u16 == 0x10000) by (bit_vector);
}

/// Sign-extends the lowest `bits` bits of `val` to a full word.
pub fn sign_ext(val: u16, bits: u16) -> (r: u16)
    requires
        1 <= bits <= 16,
    ensures
        r == sign_extend(val, bits),
{
    if bits == 16 {
        return val;
    }
    let top: u16 = 1u16 << bits;
    proof {
        lemma_shift_is_span(bits);
        assert(2 <= top <= 0x8000 && top as u32 == 1u32 << bits) by (bit_vector)
            requires
                1 <= bits < 16,
                top == 1u16 << bits,
        ;
    }
    let low: u16 = val & (top - 1);
    let r: u16 = if (low >> (bits - 1)) & 1 != 0 {
        low | (0xFFFFu16 << bits)
    } else {
        low
    };
    proof {
        assert(low == val % top && (((low >> ((bits - 1) as u16)) & 1 != 0) <==> 2 * low >= top)
            && (2 * low >= top ==> (low | (0xFFFFu16 << bits)) == low + 0x10000 - top))
            by (bit_vector)
            requires
                1 <= bits < 16,
                top == 1u16 << bits,
                low == val & (top - 1) as u16,
        ;
    }
    r
}

/// Adds two words, wrapping at 2^16.
pub fn add_words(a: u16, b: u16) -> (r: u16)
    ensures
        r == word_add(a, b),
{
    a.wrapping_add(b)
}

/// The low eight bits of a word.
pub fn low_byte_of(word: u16) -> (r: u8)
    ensures
        r == low_byte(word),
{
    let low: u16 = word & 0xFF;
    assert(low == word % 0x100 && low < 0x100) by (bit_vector)
        requires
            low == word & 0xFF,
    ;
    low as u8
}

/// The high eight bits of a word.
pub fn high_byte_of(word: u16) -> (r: u8)
    ensures
        r == high_byte(word),
{
    let high: u16 = word >> 8;
    assert(high == word / 0x100 && high < 0x100) by (bit_vector)
        requires
            high == word >> 8,
    ;
    high as u8
}

/// The word whose high byte is `high` and whose low byte is `low`.
pub fn word_from_bytes(high: u8, low: u8) -> (r: u16)
    ensures
        r == join_bytes(high, low),
{
    let h: u16 = high as u16;
    let l: u16 = low as u16;
    let r: u16 = (h << 8) | l;
    assert(r == h * 0x100 + l) by (bit_vector)
        requires
            h < 0x100,
            l < 0x100,
            r == (h << 8) | l,
    ;
    r
}

} // verus!
