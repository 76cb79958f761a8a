use vstd::prelude::*;

use crate::cpu::conditions::{cond_holds, Cond};
use crate::cpu::flags_registers::{flags_byte, flags_of_byte, FlagsRegister};
use crate::cpu2::defines::{add16, add8, hi_byte, lo_byte, sub8, word};
use crate::cpu2::instructions::other::{rotl8, rotr8, shl8, shr8, swap_nibbles};
use crate::mmu::Mmu;

verus! {

/// The 16-bit registers an opcode can name in its two-bit pair field.
#[derive(Debug, Clone, Copy, PartialEq, Eq, Structural)]
pub enum R16 {
    BC,
    DE,
    HL,
    SP,
}

impl R16 {
    pub open spec fn spec_from_index(value: u8) -> R16 {
        if value == 0 {
            R16::BC
        } else if value == 1 {
            R16::DE
        } else if value == 2 {
            R16::HL
        } else {
            R16::SP
        }
    }

    /// The pair coded by `value` (0 to 3).
    pub fn from_index(value: u8) -> (r: R16)
        requires
            value < 4,
        ensures
            r == R16::spec_from_index(value),
    {
        if value == 0 {
            R16::BC
        } else if value == 1 {
            R16::DE
        } else if value == 2 {
            R16::HL
        } else {
            R16::SP
        }
    }

    pub open spec fn spec_from_mem(value: R16Mem) -> R16 {
        match value {
            R16Mem::BC => R16::BC,
            R16Mem::DE => R16::DE,
            R16Mem::HLincrement | R16Mem::HLdecrement => R16::HL,
        }
    }

    /// The pair that a memory operand reads its address from.
    pub fn from_mem(value: R16Mem) -> (r: R16)
        ensures
            r == R16::spec_from_mem(value),
    {
        match value {
            R16Mem::BC => R16::BC,
            R16Mem::DE => R16::DE,
            R16Mem::HLincrement | R16Mem::HLdecrement => R16::HL,
        }
    }
}

/// The memory operands an opcode can name: through BC, DE, or HL then moved up or down.
#[derive(Debug, Clone, Copy, PartialEq, Eq, Structural)]
pub enum R16Mem {
    BC,
    DE,
    HLincrement,
    HLdecrement,
}

impl R16Mem {
    pub open spec fn spec_from_index(value: u8) -> R16Mem {
        if value == 0 {
            R16Mem::BC
        } else if value == 1 {
            R16Mem::DE
        } else if value == 2 {
            R16Mem::HLincrement
        } else {
            R16Mem::HLdecrement
        }
    }

    /// The memory operand coded by `value` (0 to 3).
    pub fn from_index(value: u8) -> (r: R16Mem)
        requires
            value < 4,
        ensures
            r == R16Mem::spec_from_index(value),
    {
        if value == 0 {
            R16Mem::BC
        } else if value == 1 {
            R16Mem::DE
        } else if value == 2 {
            R16Mem::HLincrement
        } else {
            R16Mem::HLdecrement
        }
    }
}

/// The 8-bit operands an opcode can name, in their three-bit code order.
#[derive(Debug, Clone, Copy, PartialEq, Eq, Structural)]
pub enum R8 {
    B,
    C,
    D,
    E,
    H,
    L,
    HLIndirect,
    A,
}

impl R8 {
    /// The three-bit code of the operand, which is also its slot in `Registers::r8`.
    pub open spec fn spec_index(self) -> int {
        match self {
            R8::B => 0,
            R8::C => 1,
            R8::D => 2,
            R8::E => 3,
            R8::H => 4,
            R8::L => 5,
            R8::HLIndirect => 6,
            R8::A => 7,
        }
    }

    pub fn index(self) -> (r: usize)
        ensures
            r == self.spec_index(),
    {
        match self {
            R8::B => 0,
            R8::C => 1,
            R8::D => 2,
            R8::E => 3,
            R8::H => 4,
            R8::L => 5,
            R8::HLIndirect => 6,
            R8::A => 7,
        }
    }

    pub open spec fn spec_from_index(value: u8) -> R8 {
        if value == 0 {
            R8::B
        } else if value == 1 {
            R8::C
        } else if value == 2 {
            R8::D
        } else if value == 3 {
            R8::E
        } else if value == 4 {
            R8::H
        } else if value == 5 {
            R8::L
        } else if value == 6 {
            R8::HLIndirect
        } else {
            R8::A
        }
    }

    /// The operand coded by `value` (0 to 7).
    pub fn from_index(value: u8) -> (r: R8)
        requires
            value < 8,
        ensures
            r == R8::spec_from_index(value),
            r.spec_index() == value,
    {
        if value == 0 {
            R8::B
        } else if value == 1 {
            R8::C
        } else if value == 2 {
            R8::D
        } else if value == 3 {
            R8::E
        } else if value == 4 {
            R8::H
        } else if value == 5 {
            R8::L
        } else if value == 6 {
            R8::HLIndirect
        } else {
            R8::A
        }
    }
}

/// The register file: B, C, D, E, H, L, a spare slot, A; the stack pointer; the flags.
pub struct Registers {
    pub r8: [u8; 8],
    pub sp: u16,
    pub f: FlagsRegister,
}

/// Mathematical picture of the register file.
pub struct RegState {
    pub r8: Seq<u8>,
    pub sp: u16,
    pub f: FlagsRegister,
}

impl View for Registers {
    type V = RegState;

    open spec fn view(&self) -> RegState {
        RegState { r8: self.r8@, sp: self.sp, f: self.f }
    }
}

impl RegState {
    pub open spec fn reg(self, t: R8) -> u8 {
        self.r8[t.spec_index()]
    }

    pub open spec fn set_reg(self, t: R8, v: u8) -> RegState {
        RegState { r8: self.r8.update(t.spec_index(), v), ..self }
    }

    /// The value of a pair, high register first; SP is its own field.
    pub open spec fn pair(self, t: R16) -> u16 {
        match t {
            R16::BC => word(self.reg(R8::B), self.reg(R8::C)),
            R16::DE => word(self.reg(R8::D), self.reg(R8::E)),
            R16::HL => word(self.reg(R8::H), self.reg(R8::L)),
            R16::SP => self.sp,
        }
    }

    pub open spec fn set_pair(self, t: R16, v: u16) -> RegState {
        match t {
            R16::BC => self.set_reg(R8::B, hi_byte(v)).set_reg(R8::C, lo_byte(v)),
            R16::DE => self.set_reg(R8::D, hi_byte(v)).set_reg(R8::E, lo_byte(v)),
            R16::HL => self.set_reg(R8::H, hi_byte(v)).set_reg(R8::L, lo_byte(v)),
            R16::SP => RegState { sp: v, ..self },
        }
    }

    pub open spec fn set_f(self, f: FlagsRegister) -> RegState {
        RegState { f: f, ..self }
    }

    pub open spec fn set_sp(self, sp: u16) -> RegState {
        RegState { sp: sp, ..self }
    }

    /// AF: A high, the F byte low.
    pub open spec fn af(self) -> u16 {
        word(self.reg(R8::A), flags_byte(self.f))
    }
}

/// The flags after `target + value (+ carry)`.
pub open spec fn add_flags(t: u8, v: u8, c: int) -> FlagsRegister {
    FlagsRegister { zero: add8(t + v, c) == 0, subtract: false, half_carry: t % 16 + v % 16 + c > 15, carry: t + v + c > 255 }
}

/// The flags after `target - value (- carry)`.
pub open spec fn sub_flags(t: u8, v: u8, c: int) -> FlagsRegister {
    FlagsRegister { zero: sub8(t - v, c) == 0, subtract: true, half_carry: t % 16 < v % 16 + c, carry: t < v + c }
}

/// The flags after a rotation or shift: Z from the result unless forced clear, N and H
/// cleared, C the bit shifted out.
pub open spec fn shift_flags(result: u8, z_always_zero: bool, carry: bool) -> FlagsRegister {
    FlagsRegister { zero: !z_always_zero && result == 0, subtract: false, half_carry: false, carry }
}

/// The signed value of an `i8` as a 16-bit two's complement word.
pub open spec fn i8_as_u16(offset: i8) -> u16 {
    if offset < 0 { (offset + 65536) as u16 } else { offset as u16 }
}

impl Registers {
    pub open spec fn carry_bit(self) -> int {
        if self.f.carry { 1 } else { 0 }
    }

    pub fn get_flags(&self) -> (r: FlagsRegister)
        ensures
            r == self.f,
    {
        self.f
    }

    /// The F byte.
    pub fn get_flags_u8(&self) -> (r: u8)
        ensures
            r == flags_byte(self.f),
    {
        self.f.to_byte()
    }

    pub fn set_r8_value(&mut self, target: R8, value: u8)
        ensures
            final(self)@ == old(self)@.set_reg(target, value),
    {
        self.r8[target.index()] = value;
    }

    pub fn get_r8_value(&self, target: R8) -> (r: u8)
        ensures
            r == self@.reg(target),
    {
        self.r8[target.index()]
    }

    /// `target += value`, plus the carry when `with_carry`; all flags from the addition.
    pub fn add_to_r8(&mut self, target: R8, value: u8, with_carry: bool)
        ensures
            ({
                let c = if with_carry && old(self).f.carry { 1int } else { 0 };
                let t = old(self)@.reg(target);
                final(self)@ == old(self)@.set_reg(target, add8(t + value, c)).set_f(add_flags(t, value, c))
            }),
    {
        let target_value = self.r8[target.index()];
        let carry_in: u8 = if with_carry && self.get_carry_flag() { 1 } else { 0 };
        let intermediate = target_value.wrapping_add(value);
        let carry1 = (target_value as u16) + (value as u16) > 0xFF;
        let result = intermediate.wrapping_add(carry_in);
        let carry2 = (intermediate as u16) + (carry_in as u16) > 0xFF;
        self.r8[target.index()] = result;
        proof {
            crate::bits::lemma_low_nibble(target_value);
            crate::bits::lemma_low_nibble(value);
        }
        let half_carry = ((target_value & 0x0F) + (value & 0x0F) + carry_in) > 0x0F;
        let carry = carry1 || carry2;
        self.f.set_all(result == 0, false, half_carry, carry);
    }

    /// `target -= value`, minus the carry when `with_carry`; all flags from the subtraction.
    pub fn sub_to_r8(&mut self, target: R8, value: u8, with_carry: bool)
        ensures
            ({
                let c = if with_carry && old(self).f.carry { 1int } else { 0 };
                let t = old(self)@.reg(target);
                final(self)@ == old(self)@.set_reg(target, sub8(t - value, c)).set_f(sub_flags(t, value, c))
            }),
    {
        let original = self.r8[target.index()];
        let carry: u8 = if with_carry && self.get_carry_flag() { 1 } else { 0 };
        let intermediate = original.wrapping_sub(value);
        let carry1 = original < value;
        let result = intermediate.wrapping_sub(carry);
        let carry2 = intermediate < carry;
        self.r8[target.index()] = result;
        let zero = result == 0;
        let subtract = true;
        let half_carry = ((original & 0x0F).wrapping_sub(value & 0x0F).wrapping_sub(carry)) & 0x10 != 0;
        proof {
            crate::bits::lemma_nibble_borrow(original, value, carry);
        }
        let carry = carry1 || carry2;
        self.f.set_all(zero, subtract, half_carry, carry);
    }

    /// The pair `target`.
    pub fn get_r16_value(&self, target: R16) -> (r: u16)
        ensures
            r == self@.pair(target),
    {
        match target {
            R16::BC => self.get_bc(),
            R16::DE => self.get_de(),
            R16::HL => self.get_hl(),
            R16::SP => self.sp,
        }
    }

    /// Stores `value` in the pair `target`.
    pub fn set_r16_value(&mut self, target: R16, value: u16)
        ensures
            final(self)@ == old(self)@.set_pair(target, value),
    {
        match target {
            R16::BC => self.set_bc(value),
            R16::DE => self.set_de(value),
            R16::HL => self.set_hl(value),
            R16::SP => self.sp = value,
        }
    }

    /// Stores `value` at the address held in BC, DE or HL.
    pub fn set_r16_mem_value(&mut self, memory: &mut Mmu, target: R16, value: u8)
        requires
            target != R16::SP,
        ensures
            final(self)@ == old(self)@,
            final(memory).memory@ == old(memory).memory@.update(old(self)@.pair(target) as int, value),
    {
        let addr = match target {
            R16::BC => self.get_bc(),
            R16::DE => self.get_de(),
            _ => self.get_hl(),
        };
        memory.write_byte(addr, value);
    }

    /// The byte at the address held in BC, DE or HL.
    pub fn get_r16_mem_value(&self, memory: &Mmu, target: R16) -> (r: u8)
        requires
            target != R16::SP,
        ensures
            r == memory.memory@[self@.pair(target) as int],
    {
        let addr = match target {
            R16::BC => self.get_bc(),
            R16::DE => self.get_de(),
            _ => self.get_hl(),
        };
        memory.read_byte(addr)
    }

    /// `target += value` on a pair; Z kept, N cleared, H from bit 11, C from bit 15.
    pub fn add_to_r16(&mut self, target: R16, value: u16)
        ensures
            ({
                let t = old(self)@.pair(target);
                final(self)@ == old(self)@.set_pair(target, add16(t as int, value as int)).set_f(
                    FlagsRegister {
                        zero: old(self).f.zero,
                        subtract: false,
                        half_carry: t % 4096 + value % 4096 > 4095,
                        carry: t + value > 65535,
                    },
                )
            }),
    {
        let r16_value = self.get_r16_value(target);
        let new_value = r16_value.wrapping_add(value);
        let did_overflow = (r16_value as u32) + (value as u32) > 0xFFFF;
        self.set_r16_value(target, new_value);
        let zero = self.get_zero_flag();
        let subtract = false;
        proof {
            crate::bits::lemma_word_parts(r16_value);
            crate::bits::lemma_word_parts(value);
        }
        let half_carry = (r16_value & 0xFFF) + (value & 0xFFF) > 0xFFF;
        let carry = did_overflow;
        self.f.set_all(zero, subtract, half_carry, carry);
    }

    /// `SP += offset` (signed); Z and N cleared, H and C from the low byte addition.
    pub fn add_sp_i8(&mut self, offset: i8)
        ensures
            ({
                let sp = old(self).sp;
                let o = i8_as_u16(offset);
                final(self)@ == old(self)@.set_sp(add16(sp as int, o as int)).set_f(
                    FlagsRegister {
                        zero: false,
                        subtract: false,
                        half_carry: sp % 16 + o % 16 > 15,
                        carry: sp % 256 + o % 256 > 255,
                    },
                )
            }),
    {
        let sp = self.sp;
        let offset_u16: u16 = if offset < 0 { (offset as i32 + 65536) as u16 } else { offset as u16 };
        let result = sp.wrapping_add(offset_u16);
        self.set_zero_flag(false);
        self.set_subtract_flag(false);
        proof {
            crate::bits::lemma_word_parts(sp);
            crate::bits::lemma_word_parts(offset_u16);
        }
        self.set_half_carry_flag(((sp & 0xF) + (offset_u16 & 0xF)) > 0xF);
        self.set_carry_flag(((sp & 0xFF) + (offset_u16 & 0xFF)) > 0xFF);
        self.sp = result;
    }

    /// RLC (or RL when `through_carry`) on a register; Z forced clear when `z_always_zero`.
    pub fn rotate_left(&mut self, target: R8, through_carry: bool, z_always_zero: bool)
        ensures
            ({
                let v = old(self)@.reg(target);
                let result = if through_carry { shl8(v, old(self).carry_bit()) } else { rotl8(v) };
                final(self)@ == old(self)@.set_reg(target, result).set_f(shift_flags(result, z_always_zero, v >= 0x80))
            }),
    {
        let value = self.get_r8_value(target);
        let old_carry: u8 = if self.f.get_carry() { 1 } else { 0 };
        let bit7 = (value & 0x80) >> 7;
        proof {
            crate::bits::lemma_byte_fields(value);
        }
        let result = if through_carry {
            let rotated = value << 1;
            proof {
                crate::bits::lemma_byte_shift_left_in(value, old_carry);
            }
            (rotated & 0b1111_1110) | old_carry
        } else {
            proof {
                crate::bits::lemma_byte_shift_left(value);
            }
            (value << 1) | (value >> 7)
        };
        self.set_r8_value(target, result);
        self.set_carry_flag(bit7 == 1);
        let zero = if z_always_zero { false } else { result == 0 };
        self.set_zero_flag(zero);
        self.set_subtract_flag(false);
        self.set_half_carry_flag(false);
    }

    /// RRC (when `circular`) or RR on a register; Z forced clear when `z_always_zero`.
    pub fn rotate_right(&mut self, target: R8, circular: bool, z_always_zero: bool)
        ensures
            ({
                let v = old(self)@.reg(target);
                let result = if circular { rotr8(v) } else { shr8(v, old(self).carry_bit()) };
                final(self)@ == old(self)@.set_reg(target, result).set_f(shift_flags(result, z_always_zero, v % 2 == 1))
            }),
    {
        let r8 = self.get_r8_value(target);
        let old_carry = self.f.get_carry();
        let outgoing_bit = r8 & 0b00000001 != 0;
        proof {
            crate::bits::lemma_byte_fields(r8);
        }
        let result = if circular {
            proof {
                crate::bits::lemma_byte_shift_right(r8);
            }
            (r8 >> 1) | (r8 << 7)
        } else {
            let high: u8 = if old_carry { 0x80 } else { 0x00 };
            proof {
                crate::bits::lemma_byte_shift_right(r8);
            }
            (r8 >> 1) | high
        };
        self.set_r8_value(target, result);
        self.set_carry_flag(outgoing_bit);
        let zero = if z_always_zero { false } else { result == 0 };
        self.set_zero_flag(zero);
        self.set_subtract_flag(false);
        self.set_half_carry_flag(false);
    }

    /// SLA on a register.
    pub fn shift_left(&mut self, target: R8)
        ensures
            ({
                let v = old(self)@.reg(target);
                final(self)@ == old(self)@.set_reg(target, shl8(v, 0)).set_f(shift_flags(shl8(v, 0), false, v >= 0x80))
            }),
    {
        let r8 = self.get_r8_value(target);
        let outgoing_bit = (r8 & 0b10000000) >> 7;
        proof {
            crate::bits::lemma_byte_fields(r8);
        }
        let result = r8 << 1;
        proof {
            crate::bits::lemma_byte_shift_left(r8);
        }
        self.set_r8_value(target, result);
        self.set_carry_flag(outgoing_bit == 1);
        self.set_zero_flag(result == 0);
        self.set_subtract_flag(false);
        self.set_half_carry_flag(false);
    }

    /// SRA (when `arithmetic`, keeping bit 7) or SRL on a register.
    pub fn shift_right(&mut self, target: R8, arithmetic: bool)
        ensures
            ({
                let v = old(self)@.reg(target);
                let result = if arithmetic { shr8(v, if v >= 0x80 { 1 } else { 0 }) } else { shr8(v, 0) };
                final(self)@ == old(self)@.set_reg(target, result).set_f(shift_flags(result, false, v % 2 == 1))
            }),
    {
        let r8 = self.get_r8_value(target);
        let outgoing_bit = r8 & 0b00000001;
        proof {
            crate::bits::lemma_byte_fields(r8);
        }
        let result = if arithmetic {
            proof {
                crate::bits::lemma_byte_sra(r8);
            }
            (r8 >> 1) | (r8 & 0x80)
        } else {
            proof {
                crate::bits::lemma_byte_shift_right(r8);
            }
            r8 >> 1
        };
        self.set_r8_value(target, result);
        self.set_carry_flag(outgoing_bit == 1);
        self.set_zero_flag(result == 0);
        self.set_subtract_flag(false);
        self.set_half_carry_flag(false);
    }

    /// SWAP on a register: nibbles exchanged, only Z can be raised.
    pub fn swap(&mut self, target: R8)
        ensures
            ({
                let v = old(self)@.reg(target);
                final(self)@ == old(self)@.set_reg(target, swap_nibbles(v)).set_f(
                    FlagsRegister { zero: swap_nibbles(v) == 0, subtract: false, half_carry: false, carry: false },
                )
            }),
    {
        let r8 = self.get_r8_value(target);
        let high_nibble = (r8 & 0xF0) >> 4;
        let low_nibble = (r8 & 0x0F) << 4;
        let result = low_nibble | high_nibble;
        proof {
            crate::bits::lemma_byte_shift_right(r8);
        }
        self.set_r8_value(target, result);
        self.set_zero_flag(result == 0);
        self.set_subtract_flag(false);
        self.set_half_carry_flag(false);
        self.set_carry_flag(false);
    }

    pub fn set_zero_flag(&mut self, value: bool)
        ensures
            final(self)@ == old(self)@.set_f(FlagsRegister { zero: value, ..old(self).f }),
    {
        self.f.set_zero(value);
    }

    pub fn set_subtract_flag(&mut self, value: bool)
        ensures
            final(self)@ == old(self)@.set_f(FlagsRegister { subtract: value, ..old(self).f }),
    {
        self.f.set_subtract(value);
    }

    pub fn set_half_carry_flag(&mut self, value: bool)
        ensures
            final(self)@ == old(self)@.set_f(FlagsRegister { half_carry: value, ..old(self).f }),
    {
        self.f.set_half_carry(value);
    }

    pub fn set_carry_flag(&mut self, value: bool)
        ensures
            final(self)@ == old(self)@.set_f(FlagsRegister { carry: value, ..old(self).f }),
    {
        self.f.set_carry(value);
    }

    pub fn get_zero_flag(&mut self) -> (r: bool)
        ensures
            r == old(self).f.zero,
            final(self)@ == old(self)@,
    {
        self.f.get_zero()
    }

    pub fn get_subtract_flag(&mut self) -> (r: bool)
        ensures
            r == old(self).f.subtract,
            final(self)@ == old(self)@,
    {
        self.f.get_subtract()
    }

    pub fn get_half_carry_flag(&mut self) -> (r: bool)
        ensures
            r == old(self).f.half_carry,
            final(self)@ == old(self)@,
    {
        self.f.get_half_carry()
    }

    pub fn get_carry_flag(&mut self) -> (r: bool)
        ensures
            r == old(self).f.carry,
            final(self)@ == old(self)@,
    {
        self.f.get_carry()
    }

    pub fn get_a(&self) -> (r: u8)
        ensures
            r == self@.reg(R8::A),
    {
        self.r8[7]
    }

    pub fn get_b(&self) -> (r: u8)
        ensures
            r == self@.reg(R8::B),
    {
        self.r8[0]
    }

    pub fn get_c(&self) -> (r: u8)
        ensures
            r == self@.reg(R8::C),
    {
        self.r8[1]
    }

    pub fn get_d(&self) -> (r: u8)
        ensures
            r == self@.reg(R8::D),
    {
        self.r8[2]
    }

    pub fn get_e(&self) -> (r: u8)
        ensures
            r == self@.reg(R8::E),
    {
        self.r8[3]
    }

    pub fn get_h(&self) -> (r: u8)
        ensures
            r == self@.reg(R8::H),
    {
        self.r8[4]
    }

    pub fn get_l(&self) -> (r: u8)
        ensures
            r == self@.reg(R8::L),
    {
        self.r8[5]
    }

    /// AF: A high, the F byte low.
    pub fn get_af(&self) -> (r: u16)
        ensures
            r == self@.af(),
    {
        let byte: u8 = self.f.to_byte();
        let a = self.r8[7];
        proof {
            crate::bits::lemma_word(a, byte);
        }
        ((a as u16) << 8) | (byte as u16)
    }

    /// A takes the high byte; the flags take the upper nibble of the low byte.
    pub fn set_af(&mut self, value: u16)
        ensures
            final(self)@ == old(self)@.set_reg(R8::A, hi_byte(value)).set_f(flags_of_byte(lo_byte(value))),
    {
        proof {
            crate::bits::lemma_word_parts(value);
        }
        self.r8[7] = ((value & 0xFF00) >> 8) as u8;
        self.f = FlagsRegister::from_byte((value & 0xFF) as u8);
    }

    pub fn get_bc(&self) -> (r: u16)
        ensures
            r == self@.pair(R16::BC),
    {
        let (h, l) = (self.r8[0], self.r8[1]);
        proof {
            crate::bits::lemma_word(h, l);
        }
        ((h as u16) << 8) | (l as u16)
    }

    pub fn set_bc(&mut self, value: u16)
        ensures
            final(self)@ == old(self)@.set_pair(R16::BC, value),
    {
        proof {
            crate::bits::lemma_word_parts(value);
        }
        self.r8[0] = ((value & 0xFF00) >> 8) as u8;
        self.r8[1] = (value & 0xFF) as u8;
    }

    pub fn get_de(&self) -> (r: u16)
        ensures
            r == self@.pair(R16::DE),
    {
        let (h, l) = (self.r8[2], self.r8[3]);
        proof {
            crate::bits::lemma_word(h, l);
        }
        ((h as u16) << 8) | (l as u16)
    }

    pub fn set_de(&mut self, value: u16)
        ensures
            final(self)@ == old(self)@.set_pair(R16::DE, value),
    {
        proof {
            crate::bits::lemma_word_parts(value);
        }
        self.r8[2] = ((value & 0xFF00) >> 8) as u8;
        self.r8[3] = (value & 0xFF) as u8;
    }

    pub fn get_hl(&self) -> (r: u16)
        ensures
            r == self@.pair(R16::HL),
    {
        let (h, l) = (self.r8[4], self.r8[5]);
        proof {
            crate::bits::lemma_word(h, l);
        }
        ((h as u16) << 8) | (l as u16)
    }

    pub fn set_hl(&mut self, value: u16)
        ensures
            final(self)@ == old(self)@.set_pair(R16::HL, value),
    {
        proof {
            crate::bits::lemma_word_parts(value);
        }
        self.r8[4] = ((value & 0xFF00) >> 8) as u8;
        self.r8[5] = (value & 0xFF) as u8;
    }

    pub fn get_sp(&self) -> (r: u16)
        ensures
            r == self.sp,
    {
        self.sp
    }

    pub fn set_sp(&mut self, value: u16)
        ensures
            final(self)@ == old(self)@.set_sp(value),
    {
        self.sp = value;
    }

    /// PUSH: the high byte goes to `SP - 1`, the low byte to `SP - 2`, and SP ends two lower.
    pub fn push_sp(&mut self, bus: &mut Mmu, value: u16)
        ensures
            ({
                let sp1 = add16(old(self).sp as int, -1);
                let sp2 = add16(old(self).sp as int, -2);
                &&& final(self)@ == old(self)@.set_sp(sp2)
                &&& final(bus).memory@ == old(bus).memory@.update(sp1 as int, hi_byte(value)).update(sp2 as int, lo_byte(value))
            }),
    {
        proof {
            crate::bits::lemma_word_parts(value);
        }
        let low = (value & 0x00FF) as u8;
        let high = (value >> 8) as u8;
        self.sp = self.sp.wrapping_sub(1);
        bus.write_byte(self.sp, high);
        self.sp = self.sp.wrapping_sub(1);
        bus.write_byte(self.sp, low);
    }

    /// POP: the low byte from SP, the high byte from `SP + 1`, and SP ends two higher.
    pub fn pop_sp(&mut self, bus: &Mmu) -> (r: u16)
        ensures
            r == word(bus.memory@[add16(old(self).sp as int, 1) as int], bus.memory@[old(self).sp as int]),
            final(self)@ == old(self)@.set_sp(add16(old(self).sp as int, 2)),
    {
        let low = bus.read_byte(self.sp) as u16;
        let high = bus.read_byte(self.sp.wrapping_add(1)) as u16;
        self.sp = self.sp.wrapping_add(2);
        proof {
            crate::bits::lemma_word_from_small(high, low);
        }
        (high << 8) | low
    }

    /// Whether `cond` holds for the flags.
    pub fn check_condition(&mut self, cond: Cond) -> (r: bool)
        ensures
            r == cond_holds(cond, old(self).f),
            final(self)@ == old(self)@,
    {
        match cond {
            Cond::NZ => !self.get_zero_flag(),
            Cond::Z => self.get_zero_flag(),
            Cond::NC => !self.get_carry_flag(),
            Cond::C => self.get_carry_flag(),
            Cond::Always => true,
        }
    }
}

impl Default for Registers {
    /// The register values after the boot program: A = 0x01, B = 0x00, C = 0x13,
    /// D = 0x00, E = 0xD8, H = 0x01, L = 0x4D, SP = 0xFFFE, flags cleared.
    fn default() -> (r: Self)
        ensures
            r@.r8 == seq![0x00u8, 0x13, 0x00, 0xD8, 0x01, 0x4D, 0x01, 0x01],
            r.sp == 0xFFFE,
            r.f == (FlagsRegister { zero: false, subtract: false, half_carry: false, carry: false }),
    {
        let r = Registers { r8: [0x00, 0x13, 0x00, 0xD8, 0x01, 0x4D, 0x01, 0x01], sp: 0xFFFE, f: FlagsRegister::new() };
        assert(r@.r8 =~= seq![0x00u8, 0x13, 0x00, 0xD8, 0x01, 0x4D, 0x01, 0x01]);
        r
    }
}

/// A push followed by a pop gives back the value pushed and the stack pointer of before.
pub proof fn lemma_push_pop(regs: RegState, mem: Seq<u8>, value: u16)
    requires
        mem.len() == 65536,
    ensures
        ({
            let sp1 = add16(regs.sp as int, -1);
            let sp2 = add16(regs.sp as int, -2);
            let mem2 = mem.update(sp1 as int, hi_byte(value)).update(sp2 as int, lo_byte(value));
            &&& word(mem2[add16(sp2 as int, 1) as int], mem2[sp2 as int]) == value
            &&& add16(sp2 as int, 2) == regs.sp
        }),
{
}

/// Writing AF keeps the upper nibble of its low byte only: reading it back gives the
/// value with the low four bits cleared.
pub proof fn lemma_set_af_get_af(regs: RegState, value: u16)
    requires
        regs.r8.len() == 8,
    ensures
        regs.set_reg(R8::A, hi_byte(value)).set_f(flags_of_byte(lo_byte(value))).af() == (value as int / 16) * 16,
{
    let lo = lo_byte(value);
    let f = flags_of_byte(lo);
    crate::cpu::flags_registers::lemma_flags_byte_round_trip(f);
    assert(flags_byte(f) == (lo as int / 16) * 16) by {
        let z = lo & 0x80 != 0;
        let n = lo & 0x40 != 0;
        let h = lo & 0x20 != 0;
        let c = lo & 0x10 != 0;
        assert(((if lo & 0x80 != 0 { 0x80int } else { 0 }) + (if lo & 0x40 != 0 { 0x40int } else { 0 }) + (if lo & 0x20
            != 0 { 0x20int } else { 0 }) + (if lo & 0x10 != 0 { 0x10int } else { 0 })) == (lo as int / 16) * 16)
            by (bit_vector);
    }
}

} // verus!
