#![allow(unused_imports)]
use gbmu::cpu2::defines::{r8, Cpu, Flag, MicroOp};
use gbmu::cpu2::flags::FlagsOps;
use gbmu::cpu2::implemenation::{A, AF, B, BC, C, D, DE, E, F, H, HL, L, P, PC, PcC, PcP, S, SP, W, WZ, Z};
use gbmu::cpu2::instructions::cp::{cp_r8_r8};

fn cpu() -> Cpu {
    Cpu {
        queue: vec![],
        r8: [0; 14],
        flags: 0,
        instructions_list: vec![],
        op_index: 0,
        bus: [0; 0x10000],
    }
}

#[test]
fn cp_equal_sets_zero_and_subtract() {
    let mut c = cpu();
    c.set_r8::<A>(5);
    c.set_r8::<B>(5);
    cp_r8_r8::<A, B>(&mut c);
    assert_eq!(c.get_r8::<A>(), 5); // dest unchanged
    assert!(c.flags.get_flag(Flag::Zero));
    assert!(c.flags.get_flag(Flag::Subtract));
}

#[test]
fn cp_dest_larger_no_carry() {
    let mut c = cpu();
    c.set_r8::<A>(10);
    c.set_r8::<B>(3);
    cp_r8_r8::<A, B>(&mut c);
    assert_eq!(c.get_r8::<A>(), 10); // dest unchanged
    assert!(!c.flags.get_flag(Flag::Zero));
    assert!(!c.flags.get_flag(Flag::Carry));
    assert!(c.flags.get_flag(Flag::Subtract));
}

#[test]
fn cp_dest_smaller_sets_carry() {
    // Bug: carry flag uses addition check instead of subtraction borrow
    let mut c = cpu();
    c.set_r8::<A>(3);
    c.set_r8::<B>(5);
    cp_r8_r8::<A, B>(&mut c);
    assert_eq!(c.get_r8::<A>(), 3); // dest unchanged
    assert!(c.flags.get_flag(Flag::Carry));
}

#[test]
fn cp_half_carry_borrow() {
    // Bug: half-carry flag uses addition check instead of subtraction borrow
    let mut c = cpu();
    c.set_r8::<A>(0x10);
    c.set_r8::<B>(0x01);
    cp_r8_r8::<A, B>(&mut c);
    assert_eq!(c.get_r8::<A>(), 0x10); // dest unchanged
    assert!(c.flags.get_flag(Flag::HalfCarry));
}
