#![allow(unused_imports)]
use gbmu::cpu2::defines::{r8, Cpu, Flag, MicroOp};
use gbmu::cpu2::flags::FlagsOps;
use gbmu::cpu2::implemenation::{A, AF, B, BC, C, D, DE, E, F, H, HL, L, P, PC, PcC, PcP, S, SP, W, WZ, Z};
use gbmu::cpu2::instructions::and_or_xor::{and_r8_r8, or_r8_r8, xor_r8_r8};

fn cpu() -> Cpu {
    Cpu {
        queue: vec![],
        r8: [0; 14],
        flags: 0,
        instructions_list: vec![],
        op_index: 0,
        bus: [0; 0x10000],
    }
}

#[test]
fn and_basic() {
    let mut c = cpu();
    c.set_r8::<A>(0b1111_0000);
    c.set_r8::<B>(0b1010_1010);
    and_r8_r8::<A, B>(&mut c);
    assert_eq!(c.get_r8::<A>(), 0b1010_0000);
    assert!(!c.flags.get_flag(Flag::Zero));
    assert!(!c.flags.get_flag(Flag::Subtract));
    assert!(c.flags.get_flag(Flag::HalfCarry));
    assert!(!c.flags.get_flag(Flag::Carry));
}

#[test]
fn and_zero_flag() {
    let mut c = cpu();
    c.set_r8::<A>(0b1111_0000);
    c.set_r8::<B>(0b0000_1111);
    and_r8_r8::<A, B>(&mut c);
    assert_eq!(c.get_r8::<A>(), 0);
    assert!(c.flags.get_flag(Flag::Zero));
    assert!(c.flags.get_flag(Flag::HalfCarry));
}

#[test]
fn and_always_sets_half_carry() {
    let mut c = cpu();
    c.set_r8::<A>(0xFF);
    c.set_r8::<B>(0xFF);
    and_r8_r8::<A, B>(&mut c);
    assert!(c.flags.get_flag(Flag::HalfCarry));
    assert!(!c.flags.get_flag(Flag::Carry));
    assert!(!c.flags.get_flag(Flag::Subtract));
}

#[test]
fn or_basic() {
    let mut c = cpu();
    c.set_r8::<A>(0b1111_0000);
    c.set_r8::<B>(0b0000_1111);
    or_r8_r8::<A, B>(&mut c);
    assert_eq!(c.get_r8::<A>(), 0xFF);
    assert!(!c.flags.get_flag(Flag::Zero));
    assert!(!c.flags.get_flag(Flag::Subtract));
    assert!(!c.flags.get_flag(Flag::HalfCarry));
    assert!(!c.flags.get_flag(Flag::Carry));
}

#[test]
fn or_zero_flag() {
    let mut c = cpu();
    or_r8_r8::<A, B>(&mut c);
    assert_eq!(c.get_r8::<A>(), 0);
    assert!(c.flags.get_flag(Flag::Zero));
    assert!(!c.flags.get_flag(Flag::HalfCarry));
}

#[test]
fn xor_basic() {
    let mut c = cpu();
    c.set_r8::<A>(0b1111_0000);
    c.set_r8::<B>(0b1010_1010);
    xor_r8_r8::<A, B>(&mut c);
    assert_eq!(c.get_r8::<A>(), 0b0101_1010);
    assert!(!c.flags.get_flag(Flag::Zero));
    assert!(!c.flags.get_flag(Flag::Subtract));
    assert!(!c.flags.get_flag(Flag::HalfCarry));
    assert!(!c.flags.get_flag(Flag::Carry));
}

#[test]
fn xor_self_zero() {
    let mut c = cpu();
    c.set_r8::<A>(0xFF);
    xor_r8_r8::<A, A>(&mut c);
    assert_eq!(c.get_r8::<A>(), 0);
    assert!(c.flags.get_flag(Flag::Zero));
}
