#![allow(unused_imports)]
use gbmu::cpu2::defines::{r8, Cpu, Flag, MicroOp};
use gbmu::cpu2::flags::FlagsOps;
use gbmu::cpu2::implemenation::{A, AF, B, BC, C, D, DE, E, F, H, HL, L, P, PC, PcC, PcP, S, SP, W, WZ, Z};
use gbmu::cpu2::instructions::cond::{check_cond, relative_jump};
use gbmu::cpu2::instructions::cond::{CondC, CondNC, CondNZ, CondZ};

const QUEUE_LEN: usize = 3;

fn cpu_with_queue() -> Cpu {
    Cpu {
        queue: vec![MicroOp::Noop, MicroOp::Noop, MicroOp::Noop],
        r8: [0; 14],
        flags: 0,
        instructions_list: vec![],
        op_index: 1,
        bus: [0; 0x10000],
    }
}

fn cpu() -> Cpu {
    Cpu {
        queue: vec![],
        r8: [0; 14],
        flags: 0,
        instructions_list: vec![],
        op_index: 0,
        bus: [0; 0x10000],
    }
}

#[test]
fn cond_nz_met_does_not_skip() {
    let mut c = cpu_with_queue();
    c.flags.set_flag(Flag::Zero, false);
    check_cond::<CondNZ>(&mut c);
    assert_ne!(c.op_index, QUEUE_LEN);
}

#[test]
fn cond_nz_not_met_skips() {
    let mut c = cpu_with_queue();
    c.flags.set_flag(Flag::Zero, true);
    check_cond::<CondNZ>(&mut c);
    assert_eq!(c.op_index, QUEUE_LEN);
}

#[test]
fn cond_z_met_does_not_skip() {
    let mut c = cpu_with_queue();
    c.flags.set_flag(Flag::Zero, true);
    check_cond::<CondZ>(&mut c);
    assert_ne!(c.op_index, QUEUE_LEN);
}

#[test]
fn cond_z_not_met_skips() {
    let mut c = cpu_with_queue();
    c.flags.set_flag(Flag::Zero, false);
    check_cond::<CondZ>(&mut c);
    assert_eq!(c.op_index, QUEUE_LEN);
}

#[test]
fn cond_nc_met_does_not_skip() {
    let mut c = cpu_with_queue();
    c.flags.set_flag(Flag::Carry, false);
    check_cond::<CondNC>(&mut c);
    assert_ne!(c.op_index, QUEUE_LEN);
}

#[test]
fn cond_nc_not_met_skips() {
    let mut c = cpu_with_queue();
    c.flags.set_flag(Flag::Carry, true);
    check_cond::<CondNC>(&mut c);
    assert_eq!(c.op_index, QUEUE_LEN);
}

#[test]
fn cond_c_met_does_not_skip() {
    let mut c = cpu_with_queue();
    c.flags.set_flag(Flag::Carry, true);
    check_cond::<CondC>(&mut c);
    assert_ne!(c.op_index, QUEUE_LEN);
}

#[test]
fn cond_c_not_met_skips() {
    let mut c = cpu_with_queue();
    c.flags.set_flag(Flag::Carry, false);
    check_cond::<CondC>(&mut c);
    assert_eq!(c.op_index, QUEUE_LEN);
}

#[test]
fn relative_jump_positive_offset() {
    let mut c = cpu();
    c.set_r16::<PC>(0x0100);
    c.set_r8::<Z>(0x10); // +16
    relative_jump(&mut c);
    assert_eq!(c.get_r16::<PC>(), 0x0110);
}

#[test]
fn relative_jump_negative_offset() {
    let mut c = cpu();
    c.set_r16::<PC>(0x0110);
    c.set_r8::<Z>((-16i8) as u8); // -16
    relative_jump(&mut c);
    assert_eq!(c.get_r16::<PC>(), 0x0100);
}

#[test]
fn relative_jump_zero_offset() {
    let mut c = cpu();
    c.set_r16::<PC>(0x0200);
    c.set_r8::<Z>(0x00);
    relative_jump(&mut c);
    assert_eq!(c.get_r16::<PC>(), 0x0200);
}

#[test]
fn relative_jump_page_boundary_positive() {
    let mut c = cpu();
    c.set_r16::<PC>(0x00F0);
    c.set_r8::<Z>(0x20); // +32, crosses 0x0100
    relative_jump(&mut c);
    assert_eq!(c.get_r16::<PC>(), 0x0110);
}

#[test]
fn relative_jump_page_boundary_negative() {
    let mut c = cpu();
    c.set_r16::<PC>(0x0100);
    c.set_r8::<Z>((-32i8) as u8); // -32, crosses page boundary
    relative_jump(&mut c);
    assert_eq!(c.get_r16::<PC>(), 0x00E0);
}
