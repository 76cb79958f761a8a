use vstd::prelude::*;

verus! {

/// The four condition flags, one boolean each.
#[derive(Debug, Clone, Copy, PartialEq, Eq, Structural)]
pub struct FlagsRegister {
    pub zero: bool,
    pub subtract: bool,
    pub half_carry: bool,
    pub carry: bool,
}

/// The F byte: Z in bit 7, N in bit 6, H in bit 5, C in bit 4, low nibble zero.
pub open spec fn flags_byte(f: FlagsRegister) -> u8 {
    ((if f.zero { 0x80int } else { 0 }) + (if f.subtract { 0x40int } else { 0 }) + (if f.half_carry {
        0x20int
    } else {
        0
    }) + (if f.carry { 0x10int } else { 0 })) as u8
}

/// The flags that an F byte holds in its upper nibble.
pub open spec fn flags_of_byte(b: u8) -> FlagsRegister {
    FlagsRegister {
        zero: b & 0x80 != 0,
        subtract: b & 0x40 != 0,
        half_carry: b & 0x20 != 0,
        carry: b & 0x10 != 0,
    }
}

impl FlagsRegister {
    pub open spec fn new_spec() -> FlagsRegister {
        FlagsRegister { zero: false, subtract: false, half_carry: false, carry: false }
    }

    /// All flags cleared.
    pub fn new() -> (r: Self)
        ensures
            r == (FlagsRegister { zero: false, subtract: false, half_carry: false, carry: false }),
    {
        FlagsRegister { zero: false, subtract: false, half_carry: false, carry: false }
    }

    /// The flags held in the upper nibble of `b`; the low nibble is ignored.
    pub fn from_byte(b: u8) -> (r: Self)
        ensures
            r == flags_of_byte(b),
    {
        FlagsRegister { zero: b & 0x80 != 0, subtract: b & 0x40 != 0, half_carry: b & 0x20 != 0, carry: b & 0x10 != 0 }
    }

    /// The F byte.
    pub fn to_byte(&self) -> (r: u8)
        ensures
            r == flags_byte(*self),
    {
        let z: u8 = if self.zero { 0x80 } else { 0 };
        let n: u8 = if self.subtract { 0x40 } else { 0 };
        let h: u8 = if self.half_carry { 0x20 } else { 0 };
        let c: u8 = if self.carry { 0x10 } else { 0 };
        z + n + h + c
    }

    /// Sets all four flags at once.
    pub fn set_all(&mut self, zero: bool, subtract: bool, half_carry: bool, carry: bool)
        ensures
            *final(self) == (FlagsRegister { zero, subtract, half_carry, carry }),
    {
        self.zero = zero;
        self.subtract = subtract;
        self.half_carry = half_carry;
        self.carry = carry;
    }

    pub fn get_zero(&self) -> (r: bool)
        ensures
            r == self.zero,
    {
        self.zero
    }

    pub fn get_subtract(&self) -> (r: bool)
        ensures
            r == self.subtract,
    {
        self.subtract
    }

    pub fn get_half_carry(&self) -> (r: bool)
        ensures
            r == self.half_carry,
    {
        self.half_carry
    }

    pub fn get_carry(&self) -> (r: bool)
        ensures
            r == self.carry,
    {
        self.carry
    }

    pub fn set_zero(&mut self, v: bool)
        ensures
            *final(self) == (FlagsRegister { zero: v, ..*old(self) }),
    {
        self.zero = v;
    }

    pub fn set_subtract(&mut self, v: bool)
        ensures
            *final(self) == (FlagsRegister { subtract: v, ..*old(self) }),
    {
        self.subtract = v;
    }

    pub fn set_half_carry(&mut self, v: bool)
        ensures
            *final(self) == (FlagsRegister { half_carry: v, ..*old(self) }),
    {
        self.half_carry = v;
    }

    pub fn set_carry(&mut self, v: bool)
        ensures
            *final(self) == (FlagsRegister { carry: v, ..*old(self) }),
    {
        self.carry = v;
    }
}

/// Writing the flags as an F byte and reading the byte back gives the same flags.
pub proof fn lemma_flags_byte_round_trip(f: FlagsRegister)
    ensures
        flags_of_byte(flags_byte(f)) == f,
        flags_byte(f) & 0x0F == 0,
{
    let b = flags_byte(f);
    let z = f.zero;
    let n = f.subtract;
    let h = f.half_carry;
    let c = f.carry;
    assert(b == ((if z { 0x80u8 } else { 0u8 }) | (if n { 0x40u8 } else { 0u8 }) | (if h { 0x20u8 } else { 0u8 }) | (if c {
        0x10u8
    } else {
        0u8
    }))) by {
        let zz: u8 = if z { 0x80u8 } else { 0u8 };
        let nn: u8 = if n { 0x40u8 } else { 0u8 };
        let hh: u8 = if h { 0x20u8 } else { 0u8 };
        let cc: u8 = if c { 0x10u8 } else { 0u8 };
        assert((zz == 0x80 || zz == 0) && (nn == 0x40 || nn == 0) && (hh == 0x20 || hh == 0) && (cc == 0x10 || cc == 0)
            ==> zz | nn | hh | cc == zz + nn + hh + cc) by (bit_vector);
    }
    assert(({
        let w = (if z { 0x80u8 } else { 0u8 }) | (if n { 0x40u8 } else { 0u8 }) | (if h { 0x20u8 } else { 0u8 }) | (if c {
            0x10u8
        } else {
            0u8
        });
        &&& (w & 0x80 != 0) == z
        &&& (w & 0x40 != 0) == n
        &&& (w & 0x20 != 0) == h
        &&& (w & 0x10 != 0) == c
        &&& w & 0x0F == 0
    })) by (bit_vector);
}

} // verus!
