#![allow(unused_imports)]
use gbmu::cpu2::defines::{r8, Cpu, Flag, MicroOp};
use gbmu::cpu2::flags::FlagsOps;
use gbmu::cpu2::implemenation::{A, AF, B, BC, C, D, DE, E, F, H, HL, L, P, PC, PcC, PcP, S, SP, W, WZ, Z};
use gbmu::cpu2::instructions::inc_dec::{dec_addr, dec_r16, dec_r8, inc_addr, inc_r16, inc_r8};

fn cpu() -> Cpu {
    Cpu {
        queue: vec![],
        r8: [0; 14],
        flags: 0,
        instructions_list: vec![],
        op_index: 0,
        bus: [0; 0x10000],
    }
}

#[test]
fn inc_r8_basic() {
    let mut c = cpu();
    c.set_r8::<B>(41);
    inc_r8::<B>(&mut c);
    assert_eq!(c.get_r8::<B>(), 42);
}

#[test]
fn inc_r8_wraps() {
    let mut c = cpu();
    c.set_r8::<A>(0xFF);
    inc_r8::<A>(&mut c);
    assert_eq!(c.get_r8::<A>(), 0x00);
}

#[test]
fn dec_r8_basic() {
    let mut c = cpu();
    c.set_r8::<B>(10);
    dec_r8::<B>(&mut c);
    assert_eq!(c.get_r8::<B>(), 9);
}

#[test]
fn dec_r8_wraps() {
    let mut c = cpu();
    c.set_r8::<A>(0x00);
    dec_r8::<A>(&mut c);
    assert_eq!(c.get_r8::<A>(), 0xFF);
}

#[test]
fn inc_r16_basic() {
    let mut c = cpu();
    c.set_r16::<HL>(0x1234);
    inc_r16::<HL>(&mut c);
    assert_eq!(c.get_r16::<HL>(), 0x1235);
}

#[test]
fn inc_r16_wraps() {
    let mut c = cpu();
    c.set_r16::<SP>(0xFFFF);
    inc_r16::<SP>(&mut c);
    assert_eq!(c.get_r16::<SP>(), 0x0000);
}

#[test]
fn dec_r16_basic() {
    let mut c = cpu();
    c.set_r16::<HL>(0x1235);
    dec_r16::<HL>(&mut c);
    assert_eq!(c.get_r16::<HL>(), 0x1234);
}

#[test]
fn dec_r16_wraps() {
    let mut c = cpu();
    c.set_r16::<SP>(0x0000);
    dec_r16::<SP>(&mut c);
    assert_eq!(c.get_r16::<SP>(), 0xFFFF);
}

#[test]
fn inc_addr_increments_memory() {
    let mut c = cpu();
    c.set_r16::<HL>(0x8000);
    c.bus[0x8000] = 41;
    c.set_r8::<Z>(c.bus[0x8000]);
    inc_addr::<HL, Z>(&mut c);
    assert_eq!(c.bus[0x8000], 42);
}

#[test]
fn dec_addr_decrements_memory() {
    let mut c = cpu();
    c.set_r16::<HL>(0x8000);
    c.bus[0x8000] = 10;
    c.set_r8::<Z>(c.bus[0x8000]);
    dec_addr::<HL, Z>(&mut c);
    assert_eq!(c.bus[0x8000], 9);
}
