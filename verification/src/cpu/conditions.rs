use vstd::prelude::*;

use crate::cpu::flags_registers::FlagsRegister;
use crate::cpu::registers::Registers;

verus! {

/// The condition of a conditional jump, call or return.
#[derive(Debug, Clone, Copy, PartialEq, Eq, Structural)]
pub enum Cond {
    NZ,
    Z,
    NC,
    C,
    Always,
}

/// Whether `cond` holds for the flags `f`.
pub open spec fn cond_holds(cond: Cond, f: FlagsRegister) -> bool {
    match cond {
        Cond::NZ => !f.zero,
        Cond::Z => f.zero,
        Cond::NC => !f.carry,
        Cond::C => f.carry,
        Cond::Always => true,
    }
}

impl Cond {
    /// The condition coded by the two-bit field `index` of an opcode.
    pub open spec fn spec_from_index(index: u8) -> Cond {
        if index == 0 {
            Cond::NZ
        } else if index == 1 {
            Cond::Z
        } else if index == 2 {
            Cond::NC
        } else {
            Cond::C
        }
    }

    /// The condition coded by the two-bit field `index` of an opcode.
    pub fn from_index(index: u8) -> (r: Cond)
        requires
            index < 4,
        ensures
            r == Cond::spec_from_index(index),
    {
        if index == 0 {
            Cond::NZ
        } else if index == 1 {
            Cond::Z
        } else if index == 2 {
            Cond::NC
        } else {
            Cond::C
        }
    }

    /// Whether the condition holds for the flags of `registers`.
    pub fn test(&self, registers: &mut Registers) -> (r: bool)
        ensures
            r == cond_holds(*self, old(registers).f),
            final(registers)@ == old(registers)@,
    {
        registers.check_condition(*self)
    }
}

} // verus!
