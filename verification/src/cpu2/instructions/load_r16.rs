use vstd::prelude::*;

use crate::cpu2::accumulator::{put_u16, put_u8, u16_at, u8_at};
use crate::cpu2::defines::{add16, add8, hi_byte, lo_byte, AccCpu, AccState, Flag, R16, R8, with_znhc};
use crate::cpu2::flags::FlagsOps;
use crate::cpu2::implemenation::GetReg;
use crate::cpu2::instructions::add::{carry_add, half_carry_add};
use crate::bits::lemma_low_nibble;
use crate::cpu2::instructions::other::sp_decr;

verus! {

/// The byte at the address held in pair `r`.
pub open spec fn mem_at_pair(s: AccState, r: R16) -> u8 {
    s.bus[s.pair(r) as int]
}

/// Pair `r` moved by `delta`, modulo 65536.
pub open spec fn bump(s: AccState, r: R16, delta: int) -> AccState {
    s.set_pair(r, add16(s.pair(r) as int, delta))
}

/// The accumulator takes the byte at the address in BC.
pub fn load_tmp_bc(cpu: &mut AccCpu)
    ensures
        final(cpu)@ == old(cpu)@.set_acc(mem_at_pair(old(cpu)@, R16::BC) as u32, old(cpu)@.acc_pos),
{
    let addr = cpu.registers.get(R16::BC);
    cpu.accumulator.value = cpu.bus[addr as usize] as u32;
}

/// The accumulator takes the byte at the address in DE.
pub fn load_tmp_de(cpu: &mut AccCpu)
    ensures
        final(cpu)@ == old(cpu)@.set_acc(mem_at_pair(old(cpu)@, R16::DE) as u32, old(cpu)@.acc_pos),
{
    let addr = cpu.registers.get(R16::DE);
    cpu.accumulator.value = cpu.bus[addr as usize] as u32;
}

/// The accumulator takes the byte at the address in HL.
pub fn load_tmp_hl(cpu: &mut AccCpu)
    ensures
        final(cpu)@ == old(cpu)@.set_acc(mem_at_pair(old(cpu)@, R16::HL) as u32, old(cpu)@.acc_pos),
{
    let addr = cpu.registers.get(R16::HL);
    cpu.accumulator.value = cpu.bus[addr as usize] as u32;
}

/// The accumulator takes the byte at HL, then HL moves by -1.
pub fn load_tmp_hl_decr(cpu: &mut AccCpu)
    ensures
        final(cpu)@ == bump(old(cpu)@.set_acc(mem_at_pair(old(cpu)@, R16::HL) as u32, old(cpu)@.acc_pos), R16::HL, -1),
{
    let addr = cpu.registers.get(R16::HL);
    cpu.accumulator.value = cpu.bus[addr as usize] as u32;
    let hl = cpu.registers.get(R16::HL);
    cpu.registers.set(R16::HL, hl.wrapping_sub(1));
}

/// The accumulator takes the byte at HL, then HL moves by 1.
pub fn load_tmp_hl_incr(cpu: &mut AccCpu)
    ensures
        final(cpu)@ == bump(old(cpu)@.set_acc(mem_at_pair(old(cpu)@, R16::HL) as u32, old(cpu)@.acc_pos), R16::HL, 1),
{
    let addr = cpu.registers.get(R16::HL);
    cpu.accumulator.value = cpu.bus[addr as usize] as u32;
    let hl = cpu.registers.get(R16::HL);
    cpu.registers.set(R16::HL, hl.wrapping_add(1));
}

/// Stores A at HL, then HL moves by -1.
pub fn write_a_in_mem_decr(cpu: &mut AccCpu)
    ensures
        final(cpu)@ == bump(old(cpu)@.set_mem(old(cpu)@.pair(R16::HL), old(cpu)@.reg(R8::A)), R16::HL, -1),
{
    let addr = cpu.registers.get(R16::HL);
    let a = cpu.registers.get(R8::A);
    cpu.bus[addr as usize] = a;
    let hl = cpu.registers.get(R16::HL);
    cpu.registers.set(R16::HL, hl.wrapping_sub(1));
}

/// Stores A at HL, then HL moves by 1.
pub fn write_a_in_mem_incr(cpu: &mut AccCpu)
    ensures
        final(cpu)@ == bump(old(cpu)@.set_mem(old(cpu)@.pair(R16::HL), old(cpu)@.reg(R8::A)), R16::HL, 1),
{
    let addr = cpu.registers.get(R16::HL);
    let a = cpu.registers.get(R8::A);
    cpu.bus[addr as usize] = a;
    let hl = cpu.registers.get(R16::HL);
    cpu.registers.set(R16::HL, hl.wrapping_add(1));
}

/// Stores A at the address in BC.
pub fn write_a_in_bc(cpu: &mut AccCpu)
    ensures
        final(cpu)@ == old(cpu)@.set_mem(old(cpu)@.pair(R16::BC), old(cpu)@.reg(R8::A)),
{
    let addr = cpu.registers.get(R16::BC);
    let a = cpu.registers.get(R8::A);
    cpu.bus[addr as usize] = a;
}

/// Stores A at the address in DE.
pub fn write_a_in_de(cpu: &mut AccCpu)
    ensures
        final(cpu)@ == old(cpu)@.set_mem(old(cpu)@.pair(R16::DE), old(cpu)@.reg(R8::A)),
{
    let addr = cpu.registers.get(R16::DE);
    let a = cpu.registers.get(R8::A);
    cpu.bus[addr as usize] = a;
}

/// Stores A at the address in HL.
pub fn write_a_in_hl(cpu: &mut AccCpu)
    ensures
        final(cpu)@ == old(cpu)@.set_mem(old(cpu)@.pair(R16::HL), old(cpu)@.reg(R8::A)),
{
    let addr = cpu.registers.get(R16::HL);
    let a = cpu.registers.get(R8::A);
    cpu.bus[addr as usize] = a;
}

/// BC takes the first word of the accumulator.
pub fn write_tmp_in_bc(cpu: &mut AccCpu)
    requires
        old(cpu).accumulator.pos >= 2,
    ensures
        final(cpu)@ == old(cpu)@.set_pair(R16::BC, u16_at(old(cpu)@.acc_value, 0)),
{
    let v = cpu.accumulator.get_u16_at(0);
    cpu.registers.set(R16::BC, v);
}

/// DE takes the first word of the accumulator.
pub fn write_tmp_in_de(cpu: &mut AccCpu)
    requires
        old(cpu).accumulator.pos >= 2,
    ensures
        final(cpu)@ == old(cpu)@.set_pair(R16::DE, u16_at(old(cpu)@.acc_value, 0)),
{
    let v = cpu.accumulator.get_u16_at(0);
    cpu.registers.set(R16::DE, v);
}

/// AF takes the first word of the accumulator.
pub fn write_tmp_in_af(cpu: &mut AccCpu)
    requires
        old(cpu).accumulator.pos >= 2,
    ensures
        final(cpu)@ == old(cpu)@.set_pair(R16::AF, u16_at(old(cpu)@.acc_value, 0)),
{
    let v = cpu.accumulator.get_u16_at(0);
    cpu.registers.set(R16::AF, v);
}

/// HL takes the first word of the accumulator.
pub fn write_tmp_in_hl(cpu: &mut AccCpu)
    requires
        old(cpu).accumulator.pos >= 2,
    ensures
        final(cpu)@ == old(cpu)@.set_pair(R16::HL, u16_at(old(cpu)@.acc_value, 0)),
{
    let v = cpu.accumulator.get_u16_at(0);
    cpu.registers.set(R16::HL, v);
}

/// SP takes the first word of the accumulator.
pub fn write_tmp_in_sp(cpu: &mut AccCpu)
    requires
        old(cpu).accumulator.pos >= 2,
    ensures
        final(cpu)@ == old(cpu)@.set_pair(R16::SP, u16_at(old(cpu)@.acc_value, 0)),
{
    let v = cpu.accumulator.get_u16_at(0);
    cpu.registers.set(R16::SP, v);
}

/// LD SP, HL.
pub fn load_hl_in_sp(cpu: &mut AccCpu)
    ensures
        final(cpu)@ == old(cpu)@.set_pair(R16::SP, old(cpu)@.pair(R16::HL)),
{
    let hl = cpu.registers.get(R16::HL);
    cpu.registers.set(R16::SP, hl);
}

/// Stores B at SP, then SP steps down.
pub fn write_msb_bc_in_mem(cpu: &mut AccCpu)
    ensures
        final(cpu)@ == bump(old(cpu)@.set_mem(old(cpu)@.sp, old(cpu)@.reg(R8::B)), R16::SP, -1),
{
    let sp = cpu.registers.get(R16::SP);
    let v = cpu.registers.get(R8::B);
    cpu.bus[sp as usize] = v;
    sp_decr(cpu);
}

/// Stores C at SP.
pub fn write_lsb_bc_in_mem(cpu: &mut AccCpu)
    ensures
        final(cpu)@ == old(cpu)@.set_mem(old(cpu)@.sp, old(cpu)@.reg(R8::C)),
{
    let sp = cpu.registers.get(R16::SP);
    let v = cpu.registers.get(R8::C);
    cpu.bus[sp as usize] = v;
}

/// Stores D at SP, then SP steps down.
pub fn write_msb_de_in_mem(cpu: &mut AccCpu)
    ensures
        final(cpu)@ == bump(old(cpu)@.set_mem(old(cpu)@.sp, old(cpu)@.reg(R8::D)), R16::SP, -1),
{
    let sp = cpu.registers.get(R16::SP);
    let v = cpu.registers.get(R8::D);
    cpu.bus[sp as usize] = v;
    sp_decr(cpu);
}

/// Stores E at SP.
pub fn write_lsb_de_in_mem(cpu: &mut AccCpu)
    ensures
        final(cpu)@ == old(cpu)@.set_mem(old(cpu)@.sp, old(cpu)@.reg(R8::E)),
{
    let sp = cpu.registers.get(R16::SP);
    let v = cpu.registers.get(R8::E);
    cpu.bus[sp as usize] = v;
}

/// Stores H at SP, then SP steps down.
pub fn write_msb_hl_in_mem(cpu: &mut AccCpu)
    ensures
        final(cpu)@ == bump(old(cpu)@.set_mem(old(cpu)@.sp, old(cpu)@.reg(R8::H)), R16::SP, -1),
{
    let sp = cpu.registers.get(R16::SP);
    let v = cpu.registers.get(R8::H);
    cpu.bus[sp as usize] = v;
    sp_decr(cpu);
}

/// Stores L at SP.
pub fn write_lsb_hl_in_mem(cpu: &mut AccCpu)
    ensures
        final(cpu)@ == old(cpu)@.set_mem(old(cpu)@.sp, old(cpu)@.reg(R8::L)),
{
    let sp = cpu.registers.get(R16::SP);
    let v = cpu.registers.get(R8::L);
    cpu.bus[sp as usize] = v;
}

/// Stores H at SP, then SP steps down.
pub fn write_msb_af_in_mem(cpu: &mut AccCpu)
    ensures
        final(cpu)@ == bump(old(cpu)@.set_mem(old(cpu)@.sp, old(cpu)@.reg(R8::H)), R16::SP, -1),
{
    let sp = cpu.registers.get(R16::SP);
    let v = cpu.registers.get(R8::H);
    cpu.bus[sp as usize] = v;
    sp_decr(cpu);
}

/// Stores L at SP.
pub fn write_lsb_af_in_mem(cpu: &mut AccCpu)
    ensures
        final(cpu)@ == old(cpu)@.set_mem(old(cpu)@.sp, old(cpu)@.reg(R8::L)),
{
    let sp = cpu.registers.get(R16::SP);
    let v = cpu.registers.get(R8::L);
    cpu.bus[sp as usize] = v;
}

/// Stores the high byte of SP at the address held in the accumulator.
pub fn write_msb_sp_in_mem(cpu: &mut AccCpu)
    requires
        old(cpu).accumulator.pos >= 2,
    ensures
        final(cpu)@ == old(cpu)@.set_mem(u16_at(old(cpu)@.acc_value, 0), hi_byte(old(cpu)@.sp)),
{
    let addr = cpu.accumulator.get_u16_at(0);
    let sp = cpu.registers.get(R16::SP);
    proof {
        crate::bits::lemma_word_parts(sp);
    }
    cpu.bus[addr as usize] = (sp >> 8) as u8;
}

/// Stores the low byte of SP at the address held in the accumulator, then the
/// accumulator holds that address plus one alone.
pub fn write_lsb_sp_in_mem(cpu: &mut AccCpu)
    requires
        old(cpu).accumulator.pos >= 2,
    ensures
        final(cpu)@ == old(cpu)@.set_mem(u16_at(old(cpu)@.acc_value, 0), lo_byte(old(cpu)@.sp)).set_acc(
            put_u16(0, 0, add16(u16_at(old(cpu)@.acc_value, 0) as int, 1)),
            2,
        ),
{
    let addr = cpu.accumulator.get_u16_at(0);
    let sp = cpu.registers.get(R16::SP);
    proof {
        crate::bits::lemma_word_parts(sp);
    }
    cpu.bus[addr as usize] = (sp & 0xFF) as u8;
    let tmp = cpu.accumulator.get_u16_at(0);
    cpu.accumulator.reset();
    cpu.accumulator.accumulate_u16(tmp.wrapping_add(1));
}

/// `L = A = low byte of SP + A`, flags from the addition, and bit 6 of the sum taken
/// into the accumulator.
pub fn add_accu_to_lsb_sp(cpu: &mut AccCpu)
    requires
        old(cpu).accumulator.pos <= 3,
    ensures
        ({
            let s = old(cpu)@;
            let sp_lsb = lo_byte(s.sp);
            let a = s.reg(R8::A);
            let result = add8(sp_lsb as int, a as int);
            final(cpu)@ == s.set_reg(R8::L, result).set_reg(R8::A, result).set_flags(
                with_znhc(s.flags, result == 0, false, half_carry_add(sp_lsb, a), carry_add(sp_lsb, a)),
            ).set_acc(put_u8(s.acc_value, s.acc_pos, result & 0b01000000), (s.acc_pos + 1) as u8)
        }),
{
    let sp = cpu.registers.get(R16::SP);
    proof {
        crate::bits::lemma_word_parts(sp);
    }
    let sp_lsb = (sp & 0xFF) as u8;
    let accu = cpu.registers.get(R8::A);
    let result = sp_lsb.wrapping_add(accu);
    cpu.registers.set(R8::L, result);
    cpu.registers.r8[R8::A.index()] = result;
    proof {
        lemma_low_nibble(sp_lsb);
        lemma_low_nibble(accu);
    }
    cpu.registers.flags.set_flag(Flag::Zero, result == 0);
    cpu.registers.flags.set_flag(Flag::Subtract, false);
    cpu.registers.flags.set_flag(Flag::HalfCarry, (sp_lsb & 0x0F) + (accu & 0x0F) > 0x0F);
    cpu.registers.flags.set_flag(Flag::Carry, (sp_lsb as u16) + (accu as u16) > 0xFF);
    cpu.accumulator.accumulate_u8(result & 0b01000000);
}

/// H takes the high byte of SP plus the sign fill of the accumulator's first byte
/// plus the carry; the sum is required to stay within a byte.
pub fn put_spe_in_h(cpu: &mut AccCpu)
    requires
        hi_byte(old(cpu)@.sp) + (if u8_at(old(cpu)@.acc_value, 0) >= 0x80 { 0xFFint } else { 0 })
            + (if crate::cpu2::defines::has_flag(old(cpu)@.flags, Flag::Carry) { 1int } else { 0 }) <= 0xFF,
    ensures
        final(cpu)@ == old(cpu)@.set_reg(
            R8::H,
            (hi_byte(old(cpu)@.sp) + (if u8_at(old(cpu)@.acc_value, 0) >= 0x80 { 0xFFint } else { 0 })
                + (if crate::cpu2::defines::has_flag(old(cpu)@.flags, Flag::Carry) { 1int } else { 0 })) as u8,
        ),
{
    let e = cpu.accumulator.get_u8_at(0);
    proof {
        crate::bits::lemma_byte_fields(e);
    }
    let adj: u8;
    if (e >> 7) & 0x01 == 0 {
        adj = 0x00;
    } else {
        adj = 0xFF;
    }
    let sp = cpu.registers.get(R16::SP);
    proof {
        crate::bits::lemma_word_parts(sp);
    }
    let sp_msb = (sp >> 8) as u8;
    let carry: u8 = if cpu.registers.flags.get_flag(Flag::Carry) { 1 } else { 0 };
    let res = sp_msb + adj + carry;
    cpu.registers.set(R8::H, res);
}

} // verus!
