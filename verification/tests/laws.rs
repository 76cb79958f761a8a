use gbmu::cli::{classify_rom, rom_path_verdict, EmulatorArguments, GbType, PathStatus};
use gbmu::cpu::cb_instructions::build_cb_instructions;
use gbmu::cpu::defines::{Cpu, Flag, MicroOp};
use gbmu::cpu::instructions::{build_instructions, get_instruction_length};
use gbmu::cpu::registers::Registers;
use gbmu::cpu2::flags::FlagsOps;
use gbmu::cpu_def::{A, B, BC, PC};
use gbmu::file::{record_launch, PlayedRom};
use gbmu::mmu::Mmu;

/// A machine with `program` at 0x8000 and its first opcode loaded.
fn machine(program: &[u8]) -> (Cpu, Mmu) {
    let mut cpu = Cpu::new();
    let mut bus = Mmu::new();
    for (i, b) in program.iter().enumerate() {
        bus.write_byte(0x8000 + i as u16, *b);
    }
    cpu.set_r16::<PC>(0x8000);
    cpu.first_read(&mut bus);
    (cpu, bus)
}

fn run(cpu: &mut Cpu, bus: &mut Mmu, ticks: usize) {
    for _ in 0..ticks {
        cpu.tick(bus);
    }
}

#[test]
fn daa_after_add_gives_the_decimal_sum() {
    // ADD A,B then DAA: 45 + 38 = 83.
    let (mut cpu, mut bus) = machine(&[0x80, 0x27]);
    cpu.set_r8::<A>(0x45);
    cpu.set_r8::<B>(0x38);
    run(&mut cpu, &mut bus, 2);
    assert_eq!(cpu.get_r8::<A>(), 0x83);
    assert!(!cpu.flags.get_flag(Flag::Carry));
}

#[test]
fn daa_after_add_carries_past_ninety_nine() {
    // 99 + 01 = 100: A reads 00 with the carry raised.
    let (mut cpu, mut bus) = machine(&[0x80, 0x27]);
    cpu.set_r8::<A>(0x99);
    cpu.set_r8::<B>(0x01);
    run(&mut cpu, &mut bus, 2);
    assert_eq!(cpu.get_r8::<A>(), 0x00);
    assert!(cpu.flags.get_flag(Flag::Carry));
    assert!(cpu.flags.get_flag(Flag::Zero));
}

#[test]
fn daa_after_sub_gives_the_decimal_difference() {
    // SUB B then DAA: 45 - 38 = 07; 10 - 20 = 90 with a borrow.
    let (mut cpu, mut bus) = machine(&[0x90, 0x27]);
    cpu.set_r8::<A>(0x45);
    cpu.set_r8::<B>(0x38);
    run(&mut cpu, &mut bus, 2);
    assert_eq!(cpu.get_r8::<A>(), 0x07);
    assert!(!cpu.flags.get_flag(Flag::Carry));

    let (mut cpu, mut bus) = machine(&[0x90, 0x27]);
    cpu.set_r8::<A>(0x10);
    cpu.set_r8::<B>(0x20);
    run(&mut cpu, &mut bus, 2);
    assert_eq!(cpu.get_r8::<A>(), 0x90);
    assert!(cpu.flags.get_flag(Flag::Carry));
}

#[test]
fn rlca_then_rrca_gives_a_back() {
    let (mut cpu, mut bus) = machine(&[0x07, 0x0F]);
    cpu.set_r8::<A>(0x85);
    run(&mut cpu, &mut bus, 1);
    assert_eq!(cpu.get_r8::<A>(), 0x0B);
    run(&mut cpu, &mut bus, 1);
    assert_eq!(cpu.get_r8::<A>(), 0x85);
}

#[test]
fn rla_then_rra_gives_a_and_carry_back() {
    let (mut cpu, mut bus) = machine(&[0x17, 0x1F]);
    cpu.set_r8::<A>(0x81);
    cpu.flags.set_flag(Flag::Carry, false);
    run(&mut cpu, &mut bus, 1);
    assert_eq!(cpu.get_r8::<A>(), 0x02);
    assert!(cpu.flags.get_flag(Flag::Carry));
    run(&mut cpu, &mut bus, 1);
    assert_eq!(cpu.get_r8::<A>(), 0x81);
    assert!(!cpu.flags.get_flag(Flag::Carry));
}

#[test]
fn swap_twice_gives_a_back() {
    // CB 37 is SWAP A; it takes the prefix cycle and its own.
    let (mut cpu, mut bus) = machine(&[0xCB, 0x37, 0xCB, 0x37]);
    cpu.set_r8::<A>(0x3C);
    run(&mut cpu, &mut bus, 2);
    assert_eq!(cpu.get_r8::<A>(), 0xC3);
    run(&mut cpu, &mut bus, 2);
    assert_eq!(cpu.get_r8::<A>(), 0x3C);
}

#[test]
fn jr_not_taken_drops_the_rest_of_the_instruction() {
    // JR NZ,+5 with Z raised: the jump does not happen and the next opcode follows.
    let (mut cpu, mut bus) = machine(&[0x20, 0x05, 0x00]);
    cpu.flags.set_flag(Flag::Zero, true);
    run(&mut cpu, &mut bus, 2);
    assert_eq!(cpu.get_r16::<PC>(), 0x8003);
}

#[test]
fn pop_af_clears_the_low_nibble_of_f() {
    let mut regs = Registers::default();
    regs.set_af(0x12FF);
    assert_eq!(regs.get_af(), 0x12F0);
}

#[test]
fn push_then_pop_gives_the_value_back() {
    let mut regs = Registers::default();
    let mut bus = Mmu::new();
    regs.set_sp(0xC000);
    regs.push_sp(&mut bus, 0xBEEF);
    assert_eq!(regs.get_sp(), 0xBFFE);
    assert_eq!(bus.read_byte(0xBFFF), 0xBE);
    assert_eq!(bus.read_byte(0xBFFE), 0xEF);
    assert_eq!(regs.pop_sp(&bus), 0xBEEF);
    assert_eq!(regs.get_sp(), 0xC000);
}

#[test]
fn opcode_tables_carry_names_and_cycles() {
    let main = build_instructions();
    assert_eq!(main[0x00].name, "NOP");
    assert_eq!(main[0x01].name, "LD BC,d16");
    assert_eq!(main[0x01].micro_ops.len(), 3);
    assert_eq!(main[0xD3].name, "UNUSED");
    assert!(main[0xD3].micro_ops.is_empty());
    let cb = build_cb_instructions();
    assert_eq!(cb[0xFF].name, "SET 7,A");
    assert_eq!(cb[0xFF].micro_ops.len(), 1);
}

#[test]
fn instruction_lengths_follow_the_operands() {
    assert_eq!(get_instruction_length(0x00), 1);
    assert_eq!(get_instruction_length(0x01), 3);
    assert_eq!(get_instruction_length(0xC3), 3);
    assert_eq!(get_instruction_length(0x06), 2);
    assert_eq!(get_instruction_length(0xF0), 2);
    assert_eq!(get_instruction_length(0x80), 1);
}

#[test]
fn rom_path_verdicts_name_the_path_and_reason() {
    assert_eq!(rom_path_verdict("a.gb", PathStatus::ReadableFile), Ok(()));
    assert_eq!(
        rom_path_verdict("a.gb", PathStatus::NotReadable),
        Err(String::from("a.gb : Not allowed to read file"))
    );
    assert_eq!(
        rom_path_verdict("a.gb", PathStatus::NotAFile),
        Err(String::from("a.gb : Path doesn't refer to a file"))
    );
    assert_eq!(rom_path_verdict("a.gb", PathStatus::NotFound), Err(String::from("a.gb : File not found")));
    assert_eq!(rom_path_verdict("a.gb", PathStatus::PermissionDenied), Err(String::from("a.gb : Not allowed")));
    assert_eq!(rom_path_verdict("a.gb", PathStatus::InvalidPath), Err(String::from("a.gb : Invalid path")));
    assert_eq!(
        rom_path_verdict("a.gb", PathStatus::Unsupported),
        Err(String::from("a.gb : Unsuported stats read"))
    );
    assert_eq!(
        rom_path_verdict("a.gb", PathStatus::Unexpected(String::from("Unexpected error: Other"))),
        Err(String::from("Unexpected error: Other"))
    );
}

#[test]
fn check_fields_passes_or_lists_the_failure() {
    let args = EmulatorArguments { rom_path: Some(String::from("a.gb")), boot_rom: true, gb_type: Some(GbType::Dmg) };
    let ok = args.check_fields(Ok(()));
    let ok = ok.ok().unwrap();
    assert_eq!(ok.rom_path, Some(String::from("a.gb")));
    assert!(ok.boot_rom);
    assert_eq!(ok.gb_type, Some(GbType::Dmg));

    let args = EmulatorArguments { rom_path: Some(String::from("a.gb")), boot_rom: false, gb_type: None };
    let err = args.check_fields(Err(String::from("a.gb : File not found")));
    assert_eq!(err.err(), Some(String::from("rom_path : a.gb : File not found\n")));
}

fn entry(time: i64, name: &str, count: u32) -> PlayedRom {
    PlayedRom { last_launched: time, rom_name: String::from(name), rom_path: format!("/roms/{}", name), launch_count: count }
}

#[test]
fn record_launch_adds_a_new_rom_first() {
    let mut history = vec![entry(10, "a.gb", 2), entry(5, "b.gb", 1)];
    record_launch(&mut history, String::from("c.gb"), String::from("/roms/c.gb"), 20);
    let names: Vec<&str> = history.iter().map(|r| r.rom_name.as_str()).collect();
    assert_eq!(names, vec!["c.gb", "a.gb", "b.gb"]);
    assert_eq!(history[0].launch_count, 1);
    assert_eq!(history[0].last_launched, 20);
}

#[test]
fn record_launch_counts_a_known_rom_and_moves_it_first() {
    let mut history = vec![entry(10, "a.gb", 2), entry(5, "b.gb", 1)];
    record_launch(&mut history, String::from("ignored"), String::from("/roms/b.gb"), 30);
    assert_eq!(history.len(), 2);
    assert_eq!(history[0].rom_name, "b.gb");
    assert_eq!(history[0].launch_count, 2);
    assert_eq!(history[0].last_launched, 30);
    assert_eq!(history[1].rom_name, "a.gb");
}

#[test]
fn record_launch_keeps_the_order_of_equal_times() {
    let mut history = vec![entry(7, "a.gb", 1), entry(7, "b.gb", 1), entry(9, "c.gb", 1)];
    record_launch(&mut history, String::from("d.gb"), String::from("/roms/d.gb"), 7);
    let names: Vec<&str> = history.iter().map(|r| r.rom_name.as_str()).collect();
    assert_eq!(names, vec!["c.gb", "a.gb", "b.gb", "d.gb"]);
}

#[test]
fn instruction_length_counts_the_operand_reads() {
    let table = build_instructions();
    for opcode in [0x00u8, 0x01, 0x06, 0x18, 0x20, 0xC2, 0xC3, 0xCD, 0xE0, 0xEA, 0xFE] {
        let reads = table[opcode as usize]
            .micro_ops
            .iter()
            .filter(|op| matches!(op, MicroOp::ReadMemoryIncr(5, _) | MicroOp::ReadMemoryIncrCheck(5, _, _)))
            .count();
        assert_eq!(get_instruction_length(opcode) as usize, 1 + reads, "opcode {:02X}", opcode);
    }
}

#[test]
fn ticks_keep_the_queue_in_bounds() {
    let (mut cpu, mut bus) = machine(&[0x00, 0x01, 0x34, 0x12, 0x3E, 0x07, 0x87, 0x27]);
    for _ in 0..12 {
        cpu.tick(&mut bus);
        assert!(cpu.queue_len <= 8);
        assert!(cpu.op_index < cpu.queue_len);
    }
}

#[test]
fn setting_a_flag_reads_back_and_keeps_the_others() {
    let mut flags: u8 = 0b1010_0101;
    flags.set_flag(Flag::Subtract, true);
    assert!(flags.get_flag(Flag::Subtract));
    assert!(flags.get_flag(Flag::Zero));
    assert!(flags.get_flag(Flag::HalfCarry));
    assert!(!flags.get_flag(Flag::Carry));
    assert_eq!(flags & 0x0F, 0x05);
    flags.set_flag(Flag::Zero, false);
    assert!(!flags.get_flag(Flag::Zero));
    assert!(flags.get_flag(Flag::Subtract));
}

#[test]
fn xor_a_with_itself_clears_a() {
    let (mut cpu, mut bus) = machine(&[0xAF]);
    cpu.set_r8::<A>(0x5A);
    run(&mut cpu, &mut bus, 1);
    assert_eq!(cpu.get_r8::<A>(), 0);
    assert!(cpu.flags.get_flag(Flag::Zero));
}

#[test]
fn cp_sets_the_flags_of_sub_and_keeps_a() {
    let (mut cpu, mut bus) = machine(&[0xB8]);
    cpu.set_r8::<A>(0x10);
    cpu.set_r8::<B>(0x21);
    run(&mut cpu, &mut bus, 1);
    let cp_flags = cpu.flags;
    assert_eq!(cpu.get_r8::<A>(), 0x10);

    let (mut cpu, mut bus) = machine(&[0x90]);
    cpu.set_r8::<A>(0x10);
    cpu.set_r8::<B>(0x21);
    run(&mut cpu, &mut bus, 1);
    assert_eq!(cpu.flags, cp_flags);
    assert_eq!(cpu.get_r8::<A>(), 0xEF);
}

#[test]
fn inc_then_dec_of_a_pair_gives_it_back() {
    let (mut cpu, mut bus) = machine(&[0x03, 0x00, 0x0B, 0x00]);
    cpu.set_r16::<BC>(0xFFFF);
    run(&mut cpu, &mut bus, 2);
    assert_eq!(cpu.get_r16::<BC>(), 0x0000);
    run(&mut cpu, &mut bus, 3);
    assert_eq!(cpu.get_r16::<BC>(), 0xFFFF);
}

#[test]
fn step_cycles_are_four_per_micro_op() {
    let table = build_instructions();
    for opcode in [0x00u8, 0x01, 0x02, 0x03, 0x06, 0x08, 0x09, 0x0A, 0x18, 0x41, 0x46, 0x70, 0x76] {
        let mut cpu = gbmu::cpu::Cpu::new(Mmu::new());
        cpu.pc = 0x8000;
        cpu.bus.write_byte(0x8000, opcode);
        let cycles = cpu.step();
        assert_eq!(cycles as usize, 4 * table[opcode as usize].micro_ops.len(), "opcode {:02X}", opcode);
    }
}

#[test]
fn rom_metadata_is_classified_by_the_owner_read_bit_then_the_kind() {
    assert!(matches!(classify_rom(0o644, true), PathStatus::ReadableFile));
    assert!(matches!(classify_rom(0o755, false), PathStatus::NotAFile));
    assert!(matches!(classify_rom(0o044, true), PathStatus::NotReadable));
    assert!(matches!(classify_rom(0o000, false), PathStatus::NotReadable));
}
