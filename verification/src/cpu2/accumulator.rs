use vstd::prelude::*;

use crate::cpu2::defines::Accumulator;

verus! {

/// `value` with the byte `b` ORed in at byte position `pos`.
pub open spec fn put_u8(value: u32, pos: u8, b: u8) -> u32 {
    value | ((b as u32) << (pos * 8) as u32)
}

/// `value` with the 16-bit `w` ORed in from byte position `pos`.
pub open spec fn put_u16(value: u32, pos: u8, w: u16) -> u32 {
    value | ((w as u32) << (pos * 8) as u32)
}

/// The byte at position `index` of `value`.
pub open spec fn u8_at(value: u32, index: int) -> u8 {
    (value >> (index * 8) as u32) as u8
}

/// The 16 bits at half-word position `index` of `value`.
pub open spec fn u16_at(value: u32, index: int) -> u16 {
    (value >> (index * 16) as u32) as u16
}

impl Accumulator {
    /// An empty accumulator.
    pub fn new() -> (r: Self)
        ensures
            r.value == 0,
            r.pos == 0,
    {
        Accumulator { value: 0, pos: 0 }
    }

    /// Empties the accumulator.
    pub fn reset(&mut self)
        ensures
            final(self).value == 0,
            final(self).pos == 0,
    {
        self.value = 0;
        self.pos = 0;
    }

    /// Takes one more byte, at the next byte position.
    pub fn accumulate_u8(&mut self, value: u8)
        requires
            old(self).pos <= 3,
        ensures
            final(self).value == put_u8(old(self).value, old(self).pos, value),
            final(self).pos == old(self).pos + 1,
    {
        self.value = self.value | ((value as u32) << (self.pos * 8) as u32);
        self.pos = self.pos + 1;
    }

    /// Takes two more bytes, low byte first.
    pub fn accumulate_u16(&mut self, value: u16)
        requires
            old(self).pos <= 2,
        ensures
            final(self).value == put_u16(old(self).value, old(self).pos, value),
            final(self).pos == old(self).pos + 2,
    {
        self.value = self.value | ((value as u32) << (self.pos * 8) as u32);
        self.pos = self.pos + 2;
    }

    /// The 16-bit word at `index` (0: bytes 0 and 1, 1: bytes 2 and 3).
    pub fn get_u16_at(&self, index: usize) -> (r: u16)
        requires
            index < 2,
            self.pos >= 2,
        ensures
            r == u16_at(self.value, index as int),
    {
        (self.value >> (index * 16) as u32) as u16
    }

    /// The byte at `index`.
    pub fn get_u8_at(&self, index: usize) -> (r: u8)
        requires
            index < 4,
        ensures
            r == u8_at(self.value, index as int),
    {
        (self.value >> (index * 8) as u32) as u8
    }
}

/// Four bytes taken into an empty accumulator come back, in order, byte by byte
/// and as two little-endian words.
pub proof fn lemma_accumulate_four_bytes(b0: u8, b1: u8, b2: u8, b3: u8)
    ensures
        ({
            let v = put_u8(put_u8(put_u8(put_u8(0, 0, b0), 1, b1), 2, b2), 3, b3);
            &&& u8_at(v, 0) == b0
            &&& u8_at(v, 1) == b1
            &&& u8_at(v, 2) == b2
            &&& u8_at(v, 3) == b3
            &&& u16_at(v, 0) == b1 as int * 256 + b0 as int
            &&& u16_at(v, 1) == b3 as int * 256 + b2 as int
        }),
{
    let v = put_u8(put_u8(put_u8(put_u8(0, 0, b0), 1, b1), 2, b2), 3, b3);
    assert(v == (0u32 | ((b0 as u32) << 0u32)) | ((b1 as u32) << 8u32) | ((b2 as u32) << 16u32) | ((b3 as u32) << 24u32));
    assert(({
        let w = (0u32 | ((b0 as u32) << 0u32)) | ((b1 as u32) << 8u32) | ((b2 as u32) << 16u32) | ((b3 as u32) << 24u32);
        &&& (w >> 0u32) as u8 == b0
        &&& (w >> 8u32) as u8 == b1
        &&& (w >> 16u32) as u8 == b2
        &&& (w >> 24u32) as u8 == b3
        &&& (w >> 0u32) as u16 == b1 as int * 256 + b0 as int
        &&& (w >> 16u32) as u16 == b3 as int * 256 + b2 as int
    })) by (bit_vector);
}

/// Two words taken into an empty accumulator come back in order.
pub proof fn lemma_accumulate_two_words(w0: u16, w1: u16)
    ensures
        u16_at(put_u16(put_u16(0, 0, w0), 2, w1), 0) == w0,
        u16_at(put_u16(put_u16(0, 0, w0), 2, w1), 1) == w1,
{
    let v = put_u16(put_u16(0, 0, w0), 2, w1);
    assert(v == (0u32 | ((w0 as u32) << 0u32)) | ((w1 as u32) << 16u32));
    assert(({
        let w = (0u32 | ((w0 as u32) << 0u32)) | ((w1 as u32) << 16u32);
        (w >> 0u32) as u16 == w0 && (w >> 16u32) as u16 == w1
    })) by (bit_vector);
}

} // verus!
