use gbmu::cpu::registers::R8;
use gbmu::cpu::Cpu;
use gbmu::mmu::{Interrupt, Mmu};

#[test]
fn test_cpu_services_timer_interrupt() {
    let mut mmu: Mmu = Mmu::default();
    mmu.write_byte(0xFFFF, Interrupt::Timer.mask());
    mmu.write_byte(0xFF0F, Interrupt::Timer.mask());

    let mut cpu: Cpu = Cpu::new(mmu);

    cpu.pc = 0x1234;
    cpu.registers.set_sp(0xFFFE);
    cpu.ime = true;

    cpu.step();

    assert_eq!(cpu.registers.get_sp(), 0xFFFC);

    let mmu = &cpu.bus;
    assert_eq!(mmu.read_byte(0xFFFC), 0x34);
    assert_eq!(mmu.read_byte(0xFFFD), 0x12);

    assert_eq!(cpu.pc, Interrupt::Timer.vector());

    assert!(!cpu.ime);

    assert_eq!(mmu.read_byte(0xFF0F) & (1 << Interrupt::Timer.mask()), 0);
}

#[test]
fn test_halt_opcode_sets_halted_and_advances_pc() {
    let mut cpu = Cpu::default();
    cpu.bus.write_byte(0x8000, 0x76);

    cpu.pc = 0x8000;

    cpu.step();

    assert!(cpu.halted, "CPU should be halted after executing HALT");
    assert_eq!(cpu.pc, 0x8001, "PC must point past the HALT opcode");
}

#[test]
fn test_step_halt_stays_halted_without_interrupt() {
    let mut cpu = Cpu::default();

    cpu.halted = true;
    cpu.pc = 0x123;
    cpu.ime = false;
    cpu.step();
    assert!(cpu.halted, "Still halted if no interrupt pending");
    assert_eq!(cpu.pc, 0x123, "PC must not change when halted and idle");
}

#[test]
fn test_step_halt_wakes_without_servicing_when_ime_false() {
    let mut cpu = Cpu::default();
    {
        let mmu = &mut cpu.bus;
        mmu.write_byte(0xFF0F, Interrupt::Timer.mask());
        mmu.write_byte(0xFFFF, Interrupt::Timer.mask());
        mmu.write_byte(0x300, 0x00);
    }
    cpu.pc = 0x300;
    cpu.registers.set_sp(0xFFFE);
    cpu.halted = true;
    cpu.ime = false;

    cpu.step();

    assert!(!cpu.halted, "CPU must wake up when interrupt pending");
    assert_eq!(cpu.pc, 0x300, "PC should *not* advance thanks to the halt bug");
    let mmu = &cpu.bus;
    assert_ne!(
        mmu.read_byte(0xFF0F) & Interrupt::Timer.mask(),
        0,
        "IF should still contain the pending bit when IME is false"
    );
}

#[test]
fn test_step_halt_wake_and_service_when_ime_true() {
    let mut cpu = Cpu::default();
    {
        let mmu = &mut cpu.bus;
        mmu.write_byte(0xFF0F, Interrupt::Timer.mask());
        mmu.write_byte(0xFFFF, Interrupt::Timer.mask());
    }
    cpu.pc = 0x400;
    cpu.registers.set_sp(0xFFFE);
    cpu.halted = true;
    cpu.ime = true;

    cpu.step();

    assert_eq!(cpu.registers.get_sp(), 0xFFFC);
    let mmu = &cpu.bus;
    assert_eq!(mmu.read_byte(0xFFFC), 0x00, "low byte of 0x0400");
    assert_eq!(mmu.read_byte(0xFFFD), 0x04, "high byte of 0x0400");
    assert_eq!(cpu.pc, Interrupt::Timer.vector());
    assert!(!cpu.ime, "IME must be cleared after servicing");
    assert_eq!(
        mmu.read_byte(0xFF0F) & Interrupt::Timer.mask(),
        0,
        "IF Timer bit must be cleared"
    );
}

#[test]
fn test_halt_bug_repeats_next_byte() {
    let mut cpu = Cpu::default();
    {
        let mmu = &mut cpu.bus;
        mmu.write_byte(0xC000, 0x76);
        mmu.write_byte(0xC001, 0x04);
    }

    cpu.pc = 0xC000;
    cpu.registers.set_r8_value(R8::B, 0);

    {
        let mmu = &mut cpu.bus;
        mmu.write_byte(0xFFFF, Interrupt::Timer.mask());
        mmu.write_byte(0xFF0F, Interrupt::Timer.mask());
    }
    cpu.ime = false;

    cpu.step();
    assert!(cpu.halted, "after HALT, CPU should be halted");
    assert_eq!(cpu.pc, 0xC001, "PC must advance past HALT");

    cpu.step();
    assert_eq!(cpu.registers.get_r8_value(R8::B), 1);

    cpu.step();
    assert_eq!(cpu.registers.get_r8_value(R8::B), 2);
}
