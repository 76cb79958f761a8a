#![allow(unused_imports)]
use gbmu::cpu2::defines::{r8, Cpu, Flag, MicroOp};
use gbmu::cpu2::flags::FlagsOps;
use gbmu::cpu2::implemenation::{A, AF, B, BC, C, D, DE, E, F, H, HL, L, P, PC, PcC, PcP, S, SP, W, WZ, Z};
use gbmu::cpu2::instructions::other::{bit, ccf, cpl, daa, decrement_r16, noop, res, rl, rla, rlc, rlca, rr, rra, rrc, rrca, scf, sla, sra, srl, swap, write_res_mem, write_rl_mem, write_rlc_mem, write_rr_mem, write_rrc_mem, write_set_mem, write_sla_mem, write_sra_mem, write_srl_mem, write_swap_mem};

fn cpu() -> Cpu {
    Cpu {
        queue: vec![],
        r8: [0; 14],
        flags: 0,
        instructions_list: vec![],
        op_index: 0,
        bus: [0; 0x10000],
    }
}

// --- noop ---

#[test]
fn noop_does_nothing() {
    let mut c = cpu();
    c.set_r8::<A>(42);
    noop(&mut c);
    assert_eq!(c.get_r8::<A>(), 42);
    assert_eq!(c.flags, 0);
}

// --- cpl ---

#[test]
fn cpl_flips_all_bits() {
    let mut c = cpu();
    c.set_r8::<A>(0b1010_0101);
    cpl(&mut c);
    assert_eq!(c.get_r8::<A>(), 0b0101_1010);
    assert!(c.flags.get_flag(Flag::Subtract));
    assert!(c.flags.get_flag(Flag::HalfCarry));
}

#[test]
fn cpl_zero_becomes_ff() {
    let mut c = cpu();
    c.set_r8::<A>(0x00);
    cpl(&mut c);
    assert_eq!(c.get_r8::<A>(), 0xFF);
}

// --- scf ---

#[test]
fn scf_sets_carry_clears_n_h() {
    let mut c = cpu();
    c.flags.set_flag(Flag::Subtract, true);
    c.flags.set_flag(Flag::HalfCarry, true);
    scf(&mut c);
    assert!(c.flags.get_flag(Flag::Carry));
    assert!(!c.flags.get_flag(Flag::Subtract));
    assert!(!c.flags.get_flag(Flag::HalfCarry));
}

// --- ccf ---

#[test]
fn ccf_toggles_carry() {
    let mut c = cpu();
    c.flags.set_flag(Flag::Carry, true);
    ccf(&mut c);
    assert!(!c.flags.get_flag(Flag::Carry));
    assert!(!c.flags.get_flag(Flag::Subtract));
    assert!(!c.flags.get_flag(Flag::HalfCarry));

    ccf(&mut c);
    assert!(c.flags.get_flag(Flag::Carry));
}

// --- daa ---

#[test]
fn daa_after_bcd_add() {
    let mut c = cpu();
    // 9 + 9 = 18 → 0x12 in BCD → DAA should fix A=0x18 to 0x18 (already valid BCD)
    // Actually 9+9=18 decimal = 0x12 hex but BCD needs it as 0x18
    // Let's use: A=0x15 (9+6 without correction), N=false, H=false, C=false
    // → lower nibble 5 ≤ 9 and upper 1 ≤ 9, no adjust needed
    c.set_r8::<A>(0x15);
    c.flags.set_flag(Flag::Subtract, false);
    daa(&mut c);
    assert_eq!(c.get_r8::<A>(), 0x15);
    assert!(!c.flags.get_flag(Flag::HalfCarry));
}

#[test]
fn daa_after_bcd_add_with_lower_overflow() {
    let mut c = cpu();
    // 8 + 5 = 13 → 0x0D, DAA should add 6 to get 0x13 (BCD for 13)
    c.set_r8::<A>(0x0D);
    c.flags.set_flag(Flag::Subtract, false);
    daa(&mut c);
    assert_eq!(c.get_r8::<A>(), 0x13);
}

// --- rlca ---

#[test]
fn rlca_rotates_left_circular() {
    let mut c = cpu();
    c.set_r8::<A>(0b1000_0001);
    rlca(&mut c);
    assert_eq!(c.get_r8::<A>(), 0b0000_0011);
    assert!(c.flags.get_flag(Flag::Carry));
    assert!(!c.flags.get_flag(Flag::Zero));
    assert!(!c.flags.get_flag(Flag::Subtract));
    assert!(!c.flags.get_flag(Flag::HalfCarry));
}

#[test]
fn rlca_no_carry() {
    let mut c = cpu();
    c.set_r8::<A>(0b0000_0001);
    rlca(&mut c);
    assert_eq!(c.get_r8::<A>(), 0b0000_0010);
    assert!(!c.flags.get_flag(Flag::Carry));
}

// --- rrca ---

#[test]
fn rrca_rotates_right_circular() {
    let mut c = cpu();
    c.set_r8::<A>(0b0000_0001);
    rrca(&mut c);
    assert_eq!(c.get_r8::<A>(), 0b1000_0000);
    assert!(c.flags.get_flag(Flag::Carry));
    assert!(!c.flags.get_flag(Flag::Zero));
}

#[test]
fn rrca_no_carry() {
    let mut c = cpu();
    c.set_r8::<A>(0b1000_0000);
    rrca(&mut c);
    assert_eq!(c.get_r8::<A>(), 0b0100_0000);
    assert!(!c.flags.get_flag(Flag::Carry));
}

// --- rla ---

#[test]
fn rla_rotates_left_through_carry() {
    let mut c = cpu();
    c.set_r8::<A>(0b1000_0000);
    c.flags.set_flag(Flag::Carry, true);
    rla(&mut c);
    assert_eq!(c.get_r8::<A>(), 0b0000_0001);
    assert!(c.flags.get_flag(Flag::Carry));
    assert!(!c.flags.get_flag(Flag::Zero));
}

#[test]
fn rla_no_carry_in() {
    let mut c = cpu();
    c.set_r8::<A>(0b0100_0000);
    c.flags.set_flag(Flag::Carry, false);
    rla(&mut c);
    assert_eq!(c.get_r8::<A>(), 0b1000_0000);
    assert!(!c.flags.get_flag(Flag::Carry));
}

// --- rra ---

#[test]
fn rra_rotates_right_through_carry() {
    let mut c = cpu();
    c.set_r8::<A>(0b0000_0001);
    c.flags.set_flag(Flag::Carry, true);
    rra(&mut c);
    assert_eq!(c.get_r8::<A>(), 0b1000_0000);
    assert!(c.flags.get_flag(Flag::Carry));
}

#[test]
fn rra_no_carry_in() {
    let mut c = cpu();
    c.set_r8::<A>(0b0000_0010);
    c.flags.set_flag(Flag::Carry, false);
    rra(&mut c);
    assert_eq!(c.get_r8::<A>(), 0b0000_0001);
    assert!(!c.flags.get_flag(Flag::Carry));
}

// --- CB: rlc ---

#[test]
fn rlc_rotates_left_circular() {
    let mut c = cpu();
    c.set_r8::<B>(0b1000_0001);
    rlc::<B>(&mut c);
    assert_eq!(c.get_r8::<B>(), 0b0000_0011);
    assert!(c.flags.get_flag(Flag::Carry));
    assert!(!c.flags.get_flag(Flag::Zero));
}

#[test]
fn rlc_zero_flag() {
    let mut c = cpu();
    c.set_r8::<B>(0x00);
    rlc::<B>(&mut c);
    assert_eq!(c.get_r8::<B>(), 0x00);
    assert!(c.flags.get_flag(Flag::Zero));
    assert!(!c.flags.get_flag(Flag::Carry));
}

// --- CB: rrc ---

#[test]
fn rrc_rotates_right_circular() {
    let mut c = cpu();
    c.set_r8::<B>(0b0000_0001);
    rrc::<B>(&mut c);
    assert_eq!(c.get_r8::<B>(), 0b1000_0000);
    assert!(c.flags.get_flag(Flag::Carry));
    assert!(!c.flags.get_flag(Flag::Zero));
}

// --- CB: rl ---

#[test]
fn rl_rotates_left_through_carry() {
    let mut c = cpu();
    c.set_r8::<B>(0b1000_0000);
    c.flags.set_flag(Flag::Carry, true);
    rl::<B>(&mut c);
    assert_eq!(c.get_r8::<B>(), 0b0000_0001);
    assert!(c.flags.get_flag(Flag::Carry));
}

#[test]
fn rl_zero_flag_when_result_zero() {
    let mut c = cpu();
    c.set_r8::<B>(0x00);
    c.flags.set_flag(Flag::Carry, false);
    rl::<B>(&mut c);
    assert_eq!(c.get_r8::<B>(), 0x00);
    assert!(c.flags.get_flag(Flag::Zero));
}

// --- CB: rr ---

#[test]
fn rr_rotates_right_through_carry() {
    let mut c = cpu();
    c.set_r8::<B>(0b0000_0001);
    c.flags.set_flag(Flag::Carry, true);
    rr::<B>(&mut c);
    assert_eq!(c.get_r8::<B>(), 0b1000_0000);
    assert!(c.flags.get_flag(Flag::Carry));
}

// --- CB: sla ---

#[test]
fn sla_shifts_left() {
    let mut c = cpu();
    c.set_r8::<B>(0b1000_0001);
    sla::<B>(&mut c);
    assert_eq!(c.get_r8::<B>(), 0b0000_0010);
    assert!(c.flags.get_flag(Flag::Carry));
    assert!(!c.flags.get_flag(Flag::Zero));
}

#[test]
fn sla_zero_flag() {
    let mut c = cpu();
    c.set_r8::<B>(0b1000_0000);
    sla::<B>(&mut c);
    assert_eq!(c.get_r8::<B>(), 0x00);
    assert!(c.flags.get_flag(Flag::Zero));
    assert!(c.flags.get_flag(Flag::Carry));
}

// --- CB: sra ---

#[test]
fn sra_preserves_sign_bit() {
    let mut c = cpu();
    c.set_r8::<B>(0b1000_0001);
    sra::<B>(&mut c);
    assert_eq!(c.get_r8::<B>(), 0b1100_0000);
    assert!(c.flags.get_flag(Flag::Carry));
}

#[test]
fn sra_positive_value() {
    let mut c = cpu();
    c.set_r8::<B>(0b0100_0010);
    sra::<B>(&mut c);
    assert_eq!(c.get_r8::<B>(), 0b0010_0001);
    assert!(!c.flags.get_flag(Flag::Carry));
}

// --- CB: swap ---

#[test]
fn swap_nibbles() {
    let mut c = cpu();
    c.set_r8::<B>(0xAB);
    swap::<B>(&mut c);
    assert_eq!(c.get_r8::<B>(), 0xBA);
    assert!(!c.flags.get_flag(Flag::Zero));
    assert!(!c.flags.get_flag(Flag::Subtract));
    assert!(!c.flags.get_flag(Flag::HalfCarry));
    assert!(!c.flags.get_flag(Flag::Carry));
}

#[test]
fn swap_zero_flag() {
    let mut c = cpu();
    c.set_r8::<B>(0x00);
    swap::<B>(&mut c);
    assert_eq!(c.get_r8::<B>(), 0x00);
    assert!(c.flags.get_flag(Flag::Zero));
}

// --- CB: srl ---

#[test]
fn srl_shifts_right_logical() {
    let mut c = cpu();
    c.set_r8::<B>(0b1000_0001);
    srl::<B>(&mut c);
    assert_eq!(c.get_r8::<B>(), 0b0100_0000);
    assert!(c.flags.get_flag(Flag::Carry));
    assert!(!c.flags.get_flag(Flag::Zero));
}

#[test]
fn srl_clears_msb() {
    let mut c = cpu();
    c.set_r8::<B>(0b1000_0000);
    srl::<B>(&mut c);
    assert_eq!(c.get_r8::<B>(), 0b0100_0000);
    assert!(!c.flags.get_flag(Flag::Carry));
}

// --- CB: bit ---

#[test]
fn bit_set_clears_zero_flag() {
    let mut c = cpu();
    c.set_r8::<B>(0b0000_1000); // bit 3 is set
    bit::<3, B>(&mut c);
    assert!(!c.flags.get_flag(Flag::Zero));
    assert!(c.flags.get_flag(Flag::HalfCarry));
    assert!(!c.flags.get_flag(Flag::Subtract));
}

#[test]
fn bit_clear_sets_zero_flag() {
    let mut c = cpu();
    c.set_r8::<B>(0b0000_0000); // bit 3 is clear
    bit::<3, B>(&mut c);
    assert!(c.flags.get_flag(Flag::Zero));
    assert!(c.flags.get_flag(Flag::HalfCarry));
}

#[test]
fn bit_does_not_modify_register() {
    let mut c = cpu();
    c.set_r8::<B>(0b1111_1111);
    bit::<7, B>(&mut c);
    assert_eq!(c.get_r8::<B>(), 0b1111_1111);
}

// --- CB: res ---

#[test]
fn res_clears_bit() {
    let mut c = cpu();
    c.set_r8::<B>(0b1111_1111);
    res::<3, B>(&mut c);
    assert_eq!(c.get_r8::<B>(), 0b1111_0111);
}

#[test]
fn res_already_clear() {
    let mut c = cpu();
    c.set_r8::<B>(0b0000_0000);
    res::<0, B>(&mut c);
    assert_eq!(c.get_r8::<B>(), 0b0000_0000);
}

// --- CB: set ---

#[test]
fn set_sets_bit() {
    let mut c = cpu();
    c.set_r8::<B>(0b0000_0000);
    gbmu::cpu2::instructions::other::set::<3, B>(&mut c);
    assert_eq!(c.get_r8::<B>(), 0b0000_1000);
}

#[test]
fn set_already_set() {
    let mut c = cpu();
    c.set_r8::<B>(0b1111_1111);
    gbmu::cpu2::instructions::other::set::<7, B>(&mut c);
    assert_eq!(c.get_r8::<B>(), 0b1111_1111);
}

#[test]
fn set_all_bits() {
    let mut c = cpu();
    c.set_r8::<C>(0x00);
    for b in 0u8..8 {
        match b {
            0 => gbmu::cpu2::instructions::other::set::<0, C>(&mut c),
            1 => gbmu::cpu2::instructions::other::set::<1, C>(&mut c),
            2 => gbmu::cpu2::instructions::other::set::<2, C>(&mut c),
            3 => gbmu::cpu2::instructions::other::set::<3, C>(&mut c),
            4 => gbmu::cpu2::instructions::other::set::<4, C>(&mut c),
            5 => gbmu::cpu2::instructions::other::set::<5, C>(&mut c),
            6 => gbmu::cpu2::instructions::other::set::<6, C>(&mut c),
            7 => gbmu::cpu2::instructions::other::set::<7, C>(&mut c),
            _ => {}
        }
    }
    assert_eq!(c.get_r8::<C>(), 0xFF);
}
