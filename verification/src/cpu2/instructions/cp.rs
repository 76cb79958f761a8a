use vstd::prelude::*;

use crate::cpu2::defines::{sub8, Cpu, CpuState, Flag, with_znhc};
use crate::cpu2::flags::FlagsOps;
use crate::cpu2::implemenation::Reg8;
use crate::cpu2::instructions::sub::after_sub_r8_r8;

verus! {

/// Flags of `dest - src`; no register changes.
pub open spec fn after_cp_r8_r8(s: CpuState, dest: int, src: int) -> CpuState {
    let a = s.reg(src);
    let d = s.reg(dest);
    let result = sub8(d as int, a as int);
    s.set_flags(with_znhc(s.flags, result == 0, true, (d & 0x0F) < (a & 0x0F), d < a))
}

/// `cp_r8_r8` on slots given at run time.
pub fn cp_r8_r8_at(cpu: &mut Cpu, dest_i: usize, src_i: usize)
    requires
        dest_i < 14,
        src_i < 14,
    ensures
        final(cpu)@ == after_cp_r8_r8(old(cpu)@, dest_i as int, src_i as int),
{
    let src = cpu.reg(src_i);
    let dest = cpu.reg(dest_i);
    let result = dest.wrapping_sub(src);
    cpu.flags.set_flag(Flag::Zero, result == 0);
    cpu.flags.set_flag(Flag::Subtract, true);
    cpu.flags.set_flag(Flag::HalfCarry, (dest & 0x0F) < (src & 0x0F));
    cpu.flags.set_flag(Flag::Carry, dest < src);
}

/// CP: the flags of `Dest - Src`, registers untouched.
pub fn cp_r8_r8<Dest: Reg8, Src: Reg8>(cpu: &mut Cpu)
    ensures
        final(cpu)@ == after_cp_r8_r8(old(cpu)@, Dest::USIZE as int, Src::USIZE as int),
{
    proof {
        Dest::lemma_index_in_range();
        Src::lemma_index_in_range();
    }
    cp_r8_r8_at(cpu, Dest::USIZE, Src::USIZE)
}

/// A compare sets exactly the flags that the matching subtraction sets, and keeps
/// every register.
pub proof fn lemma_cp_is_sub_without_store(s: CpuState, dest: int, src: int)
    requires
        s.wf(),
        0 <= dest < 14,
        0 <= src < 14,
    ensures
        after_cp_r8_r8(s, dest, src).flags == after_sub_r8_r8(s, dest, src).flags,
        after_cp_r8_r8(s, dest, src).r8 == s.r8,
        after_cp_r8_r8(s, dest, src).bus == s.bus,
{
}

} // verus!
