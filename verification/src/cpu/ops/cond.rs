use vstd::prelude::*;

use crate::cpu2::defines::{r16, r8, add16, cond_holds, hi_byte, lo_byte, CondKind, Flag};
use crate::cpu::defines::{micro, Cpu, MicroOp, MicroState};
use crate::cpu::ops::load::{after_read_memory_incr, read_memory_incr_at};
use crate::cpu2::implemenation::{Reg16, Reg8};
use crate::mmu::Mmu;
use crate::cpu2::flags::FlagsOps;

use crate::cpu2::instructions::cond::{signed_offset};

verus! {

/// A flag test that a conditional instruction makes.
pub trait Cond {
    const KIND: CondKind;

    fn is_met(cpu: &Cpu) -> (r: bool)
        ensures
            r == cond_holds(Self::KIND, cpu.flags),
    ;
}

/// Not zero.
pub struct CondNZ;

impl Cond for CondNZ {
    const KIND: CondKind = CondKind::NZ;

    fn is_met(cpu: &Cpu) -> (r: bool) {
        !cpu.flags.get_flag(Flag::Zero)
    }
}

/// Zero.
pub struct CondZ;

impl Cond for CondZ {
    const KIND: CondKind = CondKind::Z;

    fn is_met(cpu: &Cpu) -> (r: bool) {
        cpu.flags.get_flag(Flag::Zero)
    }
}

/// Not carry.
pub struct CondNC;

impl Cond for CondNC {
    const KIND: CondKind = CondKind::NC;

    fn is_met(cpu: &Cpu) -> (r: bool) {
        !cpu.flags.get_flag(Flag::Carry)
    }
}

/// Carry.
pub struct CondC;

impl Cond for CondC {
    const KIND: CondKind = CondKind::C;

    fn is_met(cpu: &Cpu) -> (r: bool) {
        cpu.flags.get_flag(Flag::Carry)
    }
}

/// When the condition fails, the rest of the instruction is dropped: the queue
/// becomes a single empty cycle, run next.
pub open spec fn after_check_cond(s: MicroState, k: CondKind) -> MicroState {
    if cond_holds(k, s.flags) {
        s
    } else {
        s.set_queue(seq![MicroOp::Noop]).set_op_index(0)
    }
}

/// `dest = [addr]`, `addr += 1`, then the condition test of `check_cond`.
pub open spec fn after_read_memory_incr_check(s: MicroState, addr: int, dest: int, k: CondKind) -> MicroState {
    after_check_cond(after_read_memory_incr(s, addr, dest), k)
}

/// PC moves by the signed offset in Z, modulo 65536; W and Z take the new PC.
pub open spec fn after_relative_jump(s: MicroState) -> MicroState {
    let target = add16(s.pair(r16::PC as int) as int, signed_offset(s.reg(r8::Z as int)));
    s.set_reg(r8::Z as int, lo_byte(target)).set_reg(r8::W as int, hi_byte(target)).set_pair(r16::PC as int, target)
}

/// `check_cond` on a condition given at run time.
pub fn check_cond_at(cpu: &mut Cpu, bus: &mut Mmu, k: CondKind)
    requires
        old(cpu).queue_len <= 8,
    ensures
        micro(*final(cpu), *final(bus)) == after_check_cond(micro(*old(cpu), *old(bus)), k),
        final(cpu).queue_len <= 8,
{
    let met = match k {
        CondKind::NZ => !cpu.flags.get_flag(Flag::Zero),
        CondKind::Z => cpu.flags.get_flag(Flag::Zero),
        CondKind::NC => !cpu.flags.get_flag(Flag::Carry),
        CondKind::C => cpu.flags.get_flag(Flag::Carry),
    };
    if !met {
        let ops = [MicroOp::Noop];
        cpu.load_queue(&ops);
        assert(ops@ =~= seq![MicroOp::Noop]);
    }
}

/// `read_memory_incr_check` on slots and a condition given at run time.
pub fn read_memory_incr_check_at(cpu: &mut Cpu, bus: &mut Mmu, addr_i: usize, dest_i: usize, k: CondKind)
    requires
        addr_i < 7,
        dest_i < 14,
        old(cpu).queue_len <= 8,
    ensures
        micro(*final(cpu), *final(bus)) == after_read_memory_incr_check(micro(*old(cpu), *old(bus)), addr_i as int, dest_i as int, k),
        final(cpu).queue_len <= 8,
{
    read_memory_incr_at(cpu, bus, addr_i, dest_i);
    check_cond_at(cpu, bus, k);
}

/// The high and low bytes of `pc` moved by the signed offset `z`, computed a byte at
/// a time as the hardware does: the low byte plus `z`, then the high byte fixed by
/// the carry and the sign of `z`.
fn jump_target(pc: u16, z: u8) -> (r: (u8, u8))
    ensures
        r.0 == hi_byte(add16(pc as int, signed_offset(z))),
        r.1 == lo_byte(add16(pc as int, signed_offset(z))),
{
    let pc_low = (pc & 0xFF) as u8;
    let pc_high = (pc >> 8) as u8;
    proof {
        crate::bits::lemma_word_parts(pc);
    }
    let z_sign = (z & 0x80) != 0;
    proof {
        crate::bits::lemma_bit7(z);
    }
    let sum = z as u16 + pc_low as u16;
    let result = sum as u8;
    let carry_7 = (sum & 0x0100) != 0;
    proof {
        crate::bits::lemma_nine_bit_sum(sum);
    }
    let w: u8 = if carry_7 && !z_sign {
        pc_high.wrapping_add(1)
    } else if !carry_7 && z_sign {
        pc_high.wrapping_sub(1)
    } else {
        pc_high
    };
    (w, result)
}

impl Cpu {
    /// Reads `[Src]` into `Dest` and steps `Src`, then drops the rest of the
    /// instruction when `Cc` does not hold.
    pub fn read_memory_incr_check<Src: Reg16, Dest: Reg8, Cc: Cond>(&mut self, bus: &mut Mmu)
        requires
            old(self).queue_len <= 8,
        ensures
            micro(*final(self), *final(bus)) == after_read_memory_incr_check(
                micro(*old(self), *old(bus)),
                Src::USIZE as int,
                Dest::USIZE as int,
                Cc::KIND,
            ),
    {
        proof {
            Src::lemma_index_in_range();
            Dest::lemma_index_in_range();
        }
        read_memory_incr_at(self, bus, Src::USIZE, Dest::USIZE);
        if !Cc::is_met(self) {
            let ops = [MicroOp::Noop];
            self.load_queue(&ops);
            assert(ops@ =~= seq![MicroOp::Noop]);
        }
    }

    /// Drops the rest of the instruction when `Cc` does not hold.
    pub fn check_cond<Cc: Cond>(&mut self, bus: &mut Mmu)
        requires
            old(self).queue_len <= 8,
        ensures
            micro(*final(self), *final(bus)) == after_check_cond(micro(*old(self), *old(bus)), Cc::KIND),
    {
        if !Cc::is_met(self) {
            let ops = [MicroOp::Noop];
            self.load_queue(&ops);
            assert(ops@ =~= seq![MicroOp::Noop]);
        }
    }

    /// The same test as `check_cond`, for the conditional calls and returns.
    pub fn check_cond_and_execute<Cc: Cond>(&mut self, bus: &mut Mmu)
        requires
            old(self).queue_len <= 8,
        ensures
            micro(*final(self), *final(bus)) == after_check_cond(micro(*old(self), *old(bus)), Cc::KIND),
    {
        if !Cc::is_met(self) {
            let ops = [MicroOp::Noop];
            self.load_queue(&ops);
            assert(ops@ =~= seq![MicroOp::Noop]);
        }
    }


    /// JR: adds the signed offset in Z to PC, through W and Z.
    pub fn relative_jump(&mut self, bus: &mut Mmu)
        ensures
            micro(*final(self), *final(bus)) == after_relative_jump(micro(*old(self), *old(bus))),
    {
        let z = self.reg(r8::Z);
        let pc = self.pair(r16::PC);
        let (w, result) = jump_target(pc, z);
        self.set_reg(r8::Z, result);
        self.set_reg(r8::W, w);
        proof {
            crate::bits::lemma_word(w, result);
        }
        let wz = ((w as u16) << 8) | (result as u16);
        self.set_pair(r16::PC, wz);
    }
}

} // verus!
