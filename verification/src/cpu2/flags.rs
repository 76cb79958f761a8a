use vstd::prelude::*;

use crate::cpu2::defines::{Flag, flag_mask, has_flag, with_flag};

verus! {

/// Reading and writing the condition flags of a flags byte.
pub trait FlagsOps {
    fn get_flag(&self, f: Flag) -> bool;

    fn set_flag(&mut self, f: Flag, value: bool);
}

impl FlagsOps for u8 {
    /// Whether the flag's bit is set.
    fn get_flag(&self, f: Flag) -> (r: bool)
        ensures
            r == has_flag(*self, f),
    {
        let x = *self;
        proof {
            crate::bits::lemma_byte_fields(x);
        }
        match f {
            Flag::Zero => {
                x >> 7 & 0b00000001 > 0
            },
            Flag::Subtract => {
                x >> 6 & 0b00000001 > 0
            },
            Flag::HalfCarry => {
                x >> 5 & 0b00000001 > 0
            },
            Flag::Carry => {
                x >> 4 & 0b00000001 > 0
            },
        }
    }

    /// Raises or clears the flag's bit; the seven other bits are kept.
    fn set_flag(&mut self, f: Flag, value: bool)
        ensures
            *final(self) == with_flag(*old(self), f, value),
    {
        let m: u8 = match f {
            Flag::Zero => 0x80,
            Flag::Subtract => 0x40,
            Flag::HalfCarry => 0x20,
            Flag::Carry => 0x10,
        };
        assert(m == flag_mask(f));
        if value {
            *self = *self | m;
        } else {
            *self = *self & !m;
        }
    }
}

/// Setting a flag and reading it back gives the value set; the other three flags
/// and the low nibble stay as they were.
pub proof fn lemma_flag_set_get(flags: u8, f: Flag, g: Flag, value: bool)
    ensures
        has_flag(with_flag(flags, f, value), f) == value,
        f != g ==> has_flag(with_flag(flags, f, value), g) == has_flag(flags, g),
        with_flag(flags, f, value) & 0x0F == flags & 0x0F,
{
    let m = flag_mask(f);
    let n = flag_mask(g);
    assert(m == 0x80 || m == 0x40 || m == 0x20 || m == 0x10);
    assert(n == 0x80 || n == 0x40 || n == 0x20 || n == 0x10);
    assert(f != g ==> m != n);
    assert((m == 0x80 || m == 0x40 || m == 0x20 || m == 0x10) ==> (flags | m) & m != 0 && (flags & !m) & m == 0
        && (flags | m) & 0x0F == flags & 0x0F && (flags & !m) & 0x0F == flags & 0x0F) by (bit_vector);
    assert((m == 0x80 || m == 0x40 || m == 0x20 || m == 0x10) && (n == 0x80 || n == 0x40 || n == 0x20 || n == 0x10) && m != n
        ==> ((flags | m) & n != 0) == (flags & n != 0) && ((flags & !m) & n != 0) == (flags & n != 0)) by (bit_vector);
}

} // verus!
