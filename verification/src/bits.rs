use vstd::prelude::*;

verus! {

/// Arithmetic meaning of the masks and shifts used on a byte: nibbles, single bits,
/// bit fields of an opcode, complement.
pub proof fn lemma_byte_fields(x: u8)
    by (bit_vector)
    ensures
        x & 0x0F <= 0x0F,
        x & 0x0F == x % 16,
        x & 0x01 == x % 2,
        ((x & 0x01) != 0) == (x % 2 == 1),
        ((x & 0x01) == 1) == (x % 2 == 1),
        (x & 0x80 != 0) == (x >= 0x80),
        (x & 0x80) >> 7 == (if x >= 0x80 { 1u8 } else { 0u8 }),
        ((x & 0x80) >> 7 == 1) == (x >= 0x80),
        ((x >> 7) & 0x01 == 0) == (x < 0x80),
        !x == 255 - x,
        x & 0x07 == x % 8,
        (x & 0x38) >> 3 == (x / 8) % 8,
        (x & 0x30) >> 4 == (x / 16) % 4,
        (x & 0x18) >> 3 == (x / 8) % 4,
        (x & 0xC0) >> 6 == x / 64,
        x & 0xC0 == (x / 64) * 64,
        x & 0x38 == ((x / 8) % 8) * 8,
        ((x & 0x0F) + 1 > 0x0F) == (x % 16 == 15),
        ((x & 0x0F) == 0x00) == (x % 16 == 0),
        x ^ x == 0,
        (x >> 7 & 1u8 > 0) == (x & 0x80u8 != 0),
        (x >> 6 & 1u8 > 0) == (x & 0x40u8 != 0),
        (x >> 5 & 1u8 > 0) == (x & 0x20u8 != 0),
        (x >> 4 & 1u8 > 0) == (x & 0x10u8 != 0),
        (0xFFu16 << 8u16) | x as u16 == 0xFF * 256 + x,
{
}

/// Right shifts and right rotation of a byte by one bit, and the nibble swap.
pub proof fn lemma_byte_shift_right(x: u8)
    by (bit_vector)
    ensures
        x >> 1 == x / 2,
        (x >> 1) | (x << 7) == x / 2 + (x % 2) * 128,
        (x >> 1) | ((x & 0x01) << 7) == x / 2 + (x % 2) * 128,
        (x << 4) | (x >> 4) == (x % 16) * 16 + x / 16,
        ((x & 0x0F) << 4) | ((x & 0xF0) >> 4) == (x % 16) * 16 + x / 16,
        (x >> 1) | 0x80u8 == x / 2 + 128,
        (x >> 1) | 0u8 == x / 2,
{
}

/// Left shift and left rotation of a byte by one bit.
pub proof fn lemma_byte_shift_left(x: u8)
    by (bit_vector)
    ensures
        x << 1 == (x * 2) % 256,
        (x << 1) | 0u8 == (x * 2) % 256,
        (x << 1) | (x >> 7) == (x * 2) % 256 + x / 128,
        (x << 1) | ((x & 0x80) >> 7) == (x * 2) % 256 + x / 128,
{
}

/// Arithmetic shift right of a byte: bit 7 kept.
pub proof fn lemma_byte_sra(x: u8)
    by (bit_vector)
    ensures
        (x >> 1) | (x & 0x80) == x / 2 + (if x >= 0x80 { 1int } else { 0 }) * 128,
{
}

/// Left shifts of a byte that take in a bit `c` (0 or 1).
pub proof fn lemma_byte_shift_left_in(x: u8, c: u8)
    by (bit_vector)
    requires
        c <= 1,
    ensures
        (x << 1) | c == (x * 2) % 256 + c,
        ((x << 1) & 0b1111_1110) | c == (x * 2) % 256 + c,
{
}

/// Right shift of a byte that takes in a bit `c` (0 or 1) as bit 7.
pub proof fn lemma_byte_shift_right_in(x: u8, c: u8)
    by (bit_vector)
    requires
        c <= 1,
    ensures
        (x >> 1) | (c << 7) == x / 2 + c * 128,
{
}

/// A 16-bit word made of a high and a low byte.
pub proof fn lemma_word(hi: u8, lo: u8)
    by (bit_vector)
    ensures
        (hi as u16) << 8 | lo as u16 == hi * 256 + lo,
{
}

/// The high and low bytes of a 16-bit word, and its low bit fields.
pub proof fn lemma_word_parts(v: u16)
    by (bit_vector)
    ensures
        (v >> 8) as u8 == v / 256,
        (v & 0xFF) as u8 == v % 256,
        (v & 0x00FF) as u8 == v % 256,
        ((v & 0xFF00) >> 8) as u8 == v / 256,
        v & 0xFFF == v % 4096,
        v & 0xF == v % 16,
        v & 0xFF == v % 256,
        v & 0xFF < 256,
        v & 0xFFF0 == (v / 16) * 16,
{
}

/// A 16-bit word built from two values below 256.
pub proof fn lemma_word_from_small(hi: u16, lo: u16)
    by (bit_vector)
    requires
        hi < 256,
        lo < 256,
    ensures
        (hi << 8) | lo == hi * 256 + lo,
{
}

/// A sum of two bytes held in 16 bits: its low byte and its carry out of bit 7.
pub proof fn lemma_nine_bit_sum(sum: u16)
    by (bit_vector)
    requires
        sum < 512,
    ensures
        sum as u8 == sum % 256,
        ((sum & 0x0100) != 0) == (sum >= 256),
{
}

/// The borrow out of bit 3 of `x - y - c`, as the wrapping nibble arithmetic shows it.
pub proof fn lemma_nibble_borrow(x: u8, y: u8, c: u8)
    by (bit_vector)
    requires
        c <= 1,
    ensures
        (((x & 0x0F).wrapping_sub(y & 0x0F).wrapping_sub(c)) & 0x10 != 0) == (x % 16 < y % 16 + c),
{
}

/// OR of a byte with zero, and of a value below 16 with the upper BCD adjustment.
pub proof fn lemma_or_small(x: u8)
    by (bit_vector)
    ensures
        0u8 | x == x,
        x < 0x10 ==> x | 0x60 == x + 0x60,
{
}

/// The low nibble of a byte is at most 15.
pub proof fn lemma_low_nibble(x: u8)
    ensures
        x & 0x0F <= 0x0F,
        x & 0x0F == x % 16,
{
    lemma_byte_fields(x);
}

/// Bit 7 of a byte is set exactly when the byte is at least 0x80.
pub proof fn lemma_bit7(x: u8)
    ensures
        (x & 0x80 != 0) == (x >= 0x80),
        (x & 0x80) >> 7 == (if x >= 0x80 { 1u8 } else { 0u8 }),
{
    lemma_byte_fields(x);
}

} // verus!
