use vstd::prelude::*;

use crate::cpu::defines::{micro, r16, r8, CondKind, Cpu, Instruction, MicroOp, MicroState};
use crate::cpu2::defines::add16;
use crate::cpu_def::{lemma_table_lengths, tables_ok};
use crate::mmu::Mmu;

verus! {

/// The cycles of each opcode of the CB-prefixed table; an opcode the processor does not
/// define has none.
pub open spec fn cb_micro_ops(opcode: u8) -> Seq<MicroOp> {
    match opcode {
        0x00u8 => seq![MicroOp::Rlc(r8::B)],
        0x01u8 => seq![MicroOp::Rlc(r8::C)],
        0x02u8 => seq![MicroOp::Rlc(r8::D)],
        0x03u8 => seq![MicroOp::Rlc(r8::E)],
        0x04u8 => seq![MicroOp::Rlc(r8::H)],
        0x05u8 => seq![MicroOp::Rlc(r8::L)],
        0x06u8 => seq![MicroOp::ReadMemory(r16::HL, r8::Z), MicroOp::WriteRlcMem(r16::HL, r8::Z), MicroOp::Noop],
        0x07u8 => seq![MicroOp::Rlc(r8::A)],
        0x08u8 => seq![MicroOp::Rrc(r8::B)],
        0x09u8 => seq![MicroOp::Rrc(r8::C)],
        0x0Au8 => seq![MicroOp::Rrc(r8::D)],
        0x0Bu8 => seq![MicroOp::Rrc(r8::E)],
        0x0Cu8 => seq![MicroOp::Rrc(r8::H)],
        0x0Du8 => seq![MicroOp::Rrc(r8::L)],
        0x0Eu8 => seq![MicroOp::ReadMemory(r16::HL, r8::Z), MicroOp::WriteRrcMem(r16::HL, r8::Z), MicroOp::Noop],
        0x0Fu8 => seq![MicroOp::Rrc(r8::A)],
        0x10u8 => seq![MicroOp::Rl(r8::B)],
        0x11u8 => seq![MicroOp::Rl(r8::C)],
        0x12u8 => seq![MicroOp::Rl(r8::D)],
        0x13u8 => seq![MicroOp::Rl(r8::E)],
        0x14u8 => seq![MicroOp::Rl(r8::H)],
        0x15u8 => seq![MicroOp::Rl(r8::L)],
        0x16u8 => seq![MicroOp::ReadMemory(r16::HL, r8::Z), MicroOp::WriteRlMem(r16::HL, r8::Z), MicroOp::Noop],
        0x17u8 => seq![MicroOp::Rl(r8::A)],
        0x18u8 => seq![MicroOp::Rr(r8::B)],
        0x19u8 => seq![MicroOp::Rr(r8::C)],
        0x1Au8 => seq![MicroOp::Rr(r8::D)],
        0x1Bu8 => seq![MicroOp::Rr(r8::E)],
        0x1Cu8 => seq![MicroOp::Rr(r8::H)],
        0x1Du8 => seq![MicroOp::Rr(r8::L)],
        0x1Eu8 => seq![MicroOp::ReadMemory(r16::HL, r8::Z), MicroOp::WriteRrMem(r16::HL, r8::Z), MicroOp::Noop],
        0x1Fu8 => seq![MicroOp::Rr(r8::A)],
        0x20u8 => seq![MicroOp::Sla(r8::B)],
        0x21u8 => seq![MicroOp::Sla(r8::C)],
        0x22u8 => seq![MicroOp::Sla(r8::D)],
        0x23u8 => seq![MicroOp::Sla(r8::E)],
        0x24u8 => seq![MicroOp::Sla(r8::H)],
        0x25u8 => seq![MicroOp::Sla(r8::L)],
        0x26u8 => seq![MicroOp::ReadMemory(r16::HL, r8::Z), MicroOp::WriteSlaMem(r16::HL, r8::Z), MicroOp::Noop],
        0x27u8 => seq![MicroOp::Sla(r8::A)],
        0x28u8 => seq![MicroOp::Sra(r8::B)],
        0x29u8 => seq![MicroOp::Sra(r8::C)],
        0x2Au8 => seq![MicroOp::Sra(r8::D)],
        0x2Bu8 => seq![MicroOp::Sra(r8::E)],
        0x2Cu8 => seq![MicroOp::Sra(r8::H)],
        0x2Du8 => seq![MicroOp::Sra(r8::L)],
        0x2Eu8 => seq![MicroOp::ReadMemory(r16::HL, r8::Z), MicroOp::WriteSraMem(r16::HL, r8::Z), MicroOp::Noop],
        0x2Fu8 => seq![MicroOp::Sra(r8::A)],
        0x30u8 => seq![MicroOp::Swap(r8::B)],
        0x31u8 => seq![MicroOp::Swap(r8::C)],
        0x32u8 => seq![MicroOp::Swap(r8::D)],
        0x33u8 => seq![MicroOp::Swap(r8::E)],
        0x34u8 => seq![MicroOp::Swap(r8::H)],
        0x35u8 => seq![MicroOp::Swap(r8::L)],
        0x36u8 => seq![MicroOp::ReadMemory(r16::HL, r8::Z), MicroOp::WriteSwapMem(r16::HL, r8::Z), MicroOp::Noop],
        0x37u8 => seq![MicroOp::Swap(r8::A)],
        0x38u8 => seq![MicroOp::Srl(r8::B)],
        0x39u8 => seq![MicroOp::Srl(r8::C)],
        0x3Au8 => seq![MicroOp::Srl(r8::D)],
        0x3Bu8 => seq![MicroOp::Srl(r8::E)],
        0x3Cu8 => seq![MicroOp::Srl(r8::H)],
        0x3Du8 => seq![MicroOp::Srl(r8::L)],
        0x3Eu8 => seq![MicroOp::ReadMemory(r16::HL, r8::Z), MicroOp::WriteSrlMem(r16::HL, r8::Z), MicroOp::Noop],
        0x3Fu8 => seq![MicroOp::Srl(r8::A)],
        0x40u8 => seq![MicroOp::TestBit(0u8, r8::B)],
        0x41u8 => seq![MicroOp::TestBit(0u8, r8::C)],
        0x42u8 => seq![MicroOp::TestBit(0u8, r8::D)],
        0x43u8 => seq![MicroOp::TestBit(0u8, r8::E)],
        0x44u8 => seq![MicroOp::TestBit(0u8, r8::H)],
        0x45u8 => seq![MicroOp::TestBit(0u8, r8::L)],
        0x46u8 => seq![MicroOp::ReadMemory(r16::HL, r8::Z), MicroOp::TestBit(0u8, r8::Z)],
        0x47u8 => seq![MicroOp::TestBit(0u8, r8::A)],
        0x48u8 => seq![MicroOp::TestBit(1u8, r8::B)],
        0x49u8 => seq![MicroOp::TestBit(1u8, r8::C)],
        0x4Au8 => seq![MicroOp::TestBit(1u8, r8::D)],
        0x4Bu8 => seq![MicroOp::TestBit(1u8, r8::E)],
        0x4Cu8 => seq![MicroOp::TestBit(1u8, r8::H)],
        0x4Du8 => seq![MicroOp::TestBit(1u8, r8::L)],
        0x4Eu8 => seq![MicroOp::ReadMemory(r16::HL, r8::Z), MicroOp::TestBit(1u8, r8::Z)],
        0x4Fu8 => seq![MicroOp::TestBit(1u8, r8::A)],
        0x50u8 => seq![MicroOp::TestBit(2u8, r8::B)],
        0x51u8 => seq![MicroOp::TestBit(2u8, r8::C)],
        0x52u8 => seq![MicroOp::TestBit(2u8, r8::D)],
        0x53u8 => seq![MicroOp::TestBit(2u8, r8::E)],
        0x54u8 => seq![MicroOp::TestBit(2u8, r8::H)],
        0x55u8 => seq![MicroOp::TestBit(2u8, r8::L)],
        0x56u8 => seq![MicroOp::ReadMemory(r16::HL, r8::Z), MicroOp::TestBit(2u8, r8::Z)],
        0x57u8 => seq![MicroOp::TestBit(2u8, r8::A)],
        0x58u8 => seq![MicroOp::TestBit(3u8, r8::B)],
        0x59u8 => seq![MicroOp::TestBit(3u8, r8::C)],
        0x5Au8 => seq![MicroOp::TestBit(3u8, r8::D)],
        0x5Bu8 => seq![MicroOp::TestBit(3u8, r8::E)],
        0x5Cu8 => seq![MicroOp::TestBit(3u8, r8::H)],
        0x5Du8 => seq![MicroOp::TestBit(3u8, r8::L)],
        0x5Eu8 => seq![MicroOp::ReadMemory(r16::HL, r8::Z), MicroOp::TestBit(3u8, r8::Z)],
        0x5Fu8 => seq![MicroOp::TestBit(3u8, r8::A)],
        0x60u8 => seq![MicroOp::TestBit(4u8, r8::B)],
        0x61u8 => seq![MicroOp::TestBit(4u8, r8::C)],
        0x62u8 => seq![MicroOp::TestBit(4u8, r8::D)],
        0x63u8 => seq![MicroOp::TestBit(4u8, r8::E)],
        0x64u8 => seq![MicroOp::TestBit(4u8, r8::H)],
        0x65u8 => seq![MicroOp::TestBit(4u8, r8::L)],
        0x66u8 => seq![MicroOp::ReadMemory(r16::HL, r8::Z), MicroOp::TestBit(4u8, r8::Z)],
        0x67u8 => seq![MicroOp::TestBit(4u8, r8::A)],
        0x68u8 => seq![MicroOp::TestBit(5u8, r8::B)],
        0x69u8 => seq![MicroOp::TestBit(5u8, r8::C)],
        0x6Au8 => seq![MicroOp::TestBit(5u8, r8::D)],
        0x6Bu8 => seq![MicroOp::TestBit(5u8, r8::E)],
        0x6Cu8 => seq![MicroOp::TestBit(5u8, r8::H)],
        0x6Du8 => seq![MicroOp::TestBit(5u8, r8::L)],
        0x6Eu8 => seq![MicroOp::ReadMemory(r16::HL, r8::Z), MicroOp::TestBit(5u8, r8::Z)],
        0x6Fu8 => seq![MicroOp::TestBit(5u8, r8::A)],
        0x70u8 => seq![MicroOp::TestBit(6u8, r8::B)],
        0x71u8 => seq![MicroOp::TestBit(6u8, r8::C)],
        0x72u8 => seq![MicroOp::TestBit(6u8, r8::D)],
        0x73u8 => seq![MicroOp::TestBit(6u8, r8::E)],
        0x74u8 => seq![MicroOp::TestBit(6u8, r8::H)],
        0x75u8 => seq![MicroOp::TestBit(6u8, r8::L)],
        0x76u8 => seq![MicroOp::ReadMemory(r16::HL, r8::Z), MicroOp::TestBit(6u8, r8::Z)],
        0x77u8 => seq![MicroOp::TestBit(6u8, r8::A)],
        0x78u8 => seq![MicroOp::TestBit(7u8, r8::B)],
        0x79u8 => seq![MicroOp::TestBit(7u8, r8::C)],
        0x7Au8 => seq![MicroOp::TestBit(7u8, r8::D)],
        0x7Bu8 => seq![MicroOp::TestBit(7u8, r8::E)],
        0x7Cu8 => seq![MicroOp::TestBit(7u8, r8::H)],
        0x7Du8 => seq![MicroOp::TestBit(7u8, r8::L)],
        0x7Eu8 => seq![MicroOp::ReadMemory(r16::HL, r8::Z), MicroOp::TestBit(7u8, r8::Z)],
        0x7Fu8 => seq![MicroOp::TestBit(7u8, r8::A)],
        0x80u8 => seq![MicroOp::ResBit(0u8, r8::B)],
        0x81u8 => seq![MicroOp::ResBit(0u8, r8::C)],
        0x82u8 => seq![MicroOp::ResBit(0u8, r8::D)],
        0x83u8 => seq![MicroOp::ResBit(0u8, r8::E)],
        0x84u8 => seq![MicroOp::ResBit(0u8, r8::H)],
        0x85u8 => seq![MicroOp::ResBit(0u8, r8::L)],
        0x86u8 => seq![MicroOp::ReadMemory(r16::HL, r8::Z), MicroOp::WriteResMem(0u8, r16::HL, r8::Z), MicroOp::Noop],
        0x87u8 => seq![MicroOp::ResBit(0u8, r8::A)],
        0x88u8 => seq![MicroOp::ResBit(1u8, r8::B)],
        0x89u8 => seq![MicroOp::ResBit(1u8, r8::C)],
        0x8Au8 => seq![MicroOp::ResBit(1u8, r8::D)],
        0x8Bu8 => seq![MicroOp::ResBit(1u8, r8::E)],
        0x8Cu8 => seq![MicroOp::ResBit(1u8, r8::H)],
        0x8Du8 => seq![MicroOp::ResBit(1u8, r8::L)],
        0x8Eu8 => seq![MicroOp::ReadMemory(r16::HL, r8::Z), MicroOp::WriteResMem(1u8, r16::HL, r8::Z), MicroOp::Noop],
        0x8Fu8 => seq![MicroOp::ResBit(1u8, r8::A)],
        0x90u8 => seq![MicroOp::ResBit(2u8, r8::B)],
        0x91u8 => seq![MicroOp::ResBit(2u8, r8::C)],
        0x92u8 => seq![MicroOp::ResBit(2u8, r8::D)],
        0x93u8 => seq![MicroOp::ResBit(2u8, r8::E)],
        0x94u8 => seq![MicroOp::ResBit(2u8, r8::H)],
        0x95u8 => seq![MicroOp::ResBit(2u8, r8::L)],
        0x96u8 => seq![MicroOp::ReadMemory(r16::HL, r8::Z), MicroOp::WriteResMem(2u8, r16::HL, r8::Z), MicroOp::Noop],
        0x97u8 => seq![MicroOp::ResBit(2u8, r8::A)],
        0x98u8 => seq![MicroOp::ResBit(3u8, r8::B)],
        0x99u8 => seq![MicroOp::ResBit(3u8, r8::C)],
        0x9Au8 => seq![MicroOp::ResBit(3u8, r8::D)],
        0x9Bu8 => seq![MicroOp::ResBit(3u8, r8::E)],
        0x9Cu8 => seq![MicroOp::ResBit(3u8, r8::H)],
        0x9Du8 => seq![MicroOp::ResBit(3u8, r8::L)],
        0x9Eu8 => seq![MicroOp::ReadMemory(r16::HL, r8::Z), MicroOp::WriteResMem(3u8, r16::HL, r8::Z), MicroOp::Noop],
        0x9Fu8 => seq![MicroOp::ResBit(3u8, r8::A)],
        0xA0u8 => seq![MicroOp::ResBit(4u8, r8::B)],
        0xA1u8 => seq![MicroOp::ResBit(4u8, r8::C)],
        0xA2u8 => seq![MicroOp::ResBit(4u8, r8::D)],
        0xA3u8 => seq![MicroOp::ResBit(4u8, r8::E)],
        0xA4u8 => seq![MicroOp::ResBit(4u8, r8::H)],
        0xA5u8 => seq![MicroOp::ResBit(4u8, r8::L)],
        0xA6u8 => seq![MicroOp::ReadMemory(r16::HL, r8::Z), MicroOp::WriteResMem(4u8, r16::HL, r8::Z), MicroOp::Noop],
        0xA7u8 => seq![MicroOp::ResBit(4u8, r8::A)],
        0xA8u8 => seq![MicroOp::ResBit(5u8, r8::B)],
        0xA9u8 => seq![MicroOp::ResBit(5u8, r8::C)],
        0xAAu8 => seq![MicroOp::ResBit(5u8, r8::D)],
        0xABu8 => seq![MicroOp::ResBit(5u8, r8::E)],
        0xACu8 => seq![MicroOp::ResBit(5u8, r8::H)],
        0xADu8 => seq![MicroOp::ResBit(5u8, r8::L)],
        0xAEu8 => seq![MicroOp::ReadMemory(r16::HL, r8::Z), MicroOp::WriteResMem(5u8, r16::HL, r8::Z), MicroOp::Noop],
        0xAFu8 => seq![MicroOp::ResBit(5u8, r8::A)],
        0xB0u8 => seq![MicroOp::ResBit(6u8, r8::B)],
        0xB1u8 => seq![MicroOp::ResBit(6u8, r8::C)],
        0xB2u8 => seq![MicroOp::ResBit(6u8, r8::D)],
        0xB3u8 => seq![MicroOp::ResBit(6u8, r8::E)],
        0xB4u8 => seq![MicroOp::ResBit(6u8, r8::H)],
        0xB5u8 => seq![MicroOp::ResBit(6u8, r8::L)],
        0xB6u8 => seq![MicroOp::ReadMemory(r16::HL, r8::Z), MicroOp::WriteResMem(6u8, r16::HL, r8::Z), MicroOp::Noop],
        0xB7u8 => seq![MicroOp::ResBit(6u8, r8::A)],
        0xB8u8 => seq![MicroOp::ResBit(7u8, r8::B)],
        0xB9u8 => seq![MicroOp::ResBit(7u8, r8::C)],
        0xBAu8 => seq![MicroOp::ResBit(7u8, r8::D)],
        0xBBu8 => seq![MicroOp::ResBit(7u8, r8::E)],
        0xBCu8 => seq![MicroOp::ResBit(7u8, r8::H)],
        0xBDu8 => seq![MicroOp::ResBit(7u8, r8::L)],
        0xBEu8 => seq![MicroOp::ReadMemory(r16::HL, r8::Z), MicroOp::WriteResMem(7u8, r16::HL, r8::Z), MicroOp::Noop],
        0xBFu8 => seq![MicroOp::ResBit(7u8, r8::A)],
        0xC0u8 => seq![MicroOp::SetBit(0u8, r8::B)],
        0xC1u8 => seq![MicroOp::SetBit(0u8, r8::C)],
        0xC2u8 => seq![MicroOp::SetBit(0u8, r8::D)],
        0xC3u8 => seq![MicroOp::SetBit(0u8, r8::E)],
        0xC4u8 => seq![MicroOp::SetBit(0u8, r8::H)],
        0xC5u8 => seq![MicroOp::SetBit(0u8, r8::L)],
        0xC6u8 => seq![MicroOp::ReadMemory(r16::HL, r8::Z), MicroOp::WriteSetMem(0u8, r16::HL, r8::Z), MicroOp::Noop],
        0xC7u8 => seq![MicroOp::SetBit(0u8, r8::A)],
        0xC8u8 => seq![MicroOp::SetBit(1u8, r8::B)],
        0xC9u8 => seq![MicroOp::SetBit(1u8, r8::C)],
        0xCAu8 => seq![MicroOp::SetBit(1u8, r8::D)],
        0xCBu8 => seq![MicroOp::SetBit(1u8, r8::E)],
        0xCCu8 => seq![MicroOp::SetBit(1u8, r8::H)],
        0xCDu8 => seq![MicroOp::SetBit(1u8, r8::L)],
        0xCEu8 => seq![MicroOp::ReadMemory(r16::HL, r8::Z), MicroOp::WriteSetMem(1u8, r16::HL, r8::Z), MicroOp::Noop],
        0xCFu8 => seq![MicroOp::SetBit(1u8, r8::A)],
        0xD0u8 => seq![MicroOp::SetBit(2u8, r8::B)],
        0xD1u8 => seq![MicroOp::SetBit(2u8, r8::C)],
        0xD2u8 => seq![MicroOp::SetBit(2u8, r8::D)],
        0xD3u8 => seq![MicroOp::SetBit(2u8, r8::E)],
        0xD4u8 => seq![MicroOp::SetBit(2u8, r8::H)],
        0xD5u8 => seq![MicroOp::SetBit(2u8, r8::L)],
        0xD6u8 => seq![MicroOp::ReadMemory(r16::HL, r8::Z), MicroOp::WriteSetMem(2u8, r16::HL, r8::Z), MicroOp::Noop],
        0xD7u8 => seq![MicroOp::SetBit(2u8, r8::A)],
        0xD8u8 => seq![MicroOp::SetBit(3u8, r8::B)],
        0xD9u8 => seq![MicroOp::SetBit(3u8, r8::C)],
        0xDAu8 => seq![MicroOp::SetBit(3u8, r8::D)],
        0xDBu8 => seq![MicroOp::SetBit(3u8, r8::E)],
        0xDCu8 => seq![MicroOp::SetBit(3u8, r8::H)],
        0xDDu8 => seq![MicroOp::SetBit(3u8, r8::L)],
        0xDEu8 => seq![MicroOp::ReadMemory(r16::HL, r8::Z), MicroOp::WriteSetMem(3u8, r16::HL, r8::Z), MicroOp::Noop],
        0xDFu8 => seq![MicroOp::SetBit(3u8, r8::A)],
        0xE0u8 => seq![MicroOp::SetBit(4u8, r8::B)],
        0xE1u8 => seq![MicroOp::SetBit(4u8, r8::C)],
        0xE2u8 => seq![MicroOp::SetBit(4u8, r8::D)],
        0xE3u8 => seq![MicroOp::SetBit(4u8, r8::E)],
        0xE4u8 => seq![MicroOp::SetBit(4u8, r8::H)],
        0xE5u8 => seq![MicroOp::SetBit(4u8, r8::L)],
        0xE6u8 => seq![MicroOp::ReadMemory(r16::HL, r8::Z), MicroOp::WriteSetMem(4u8, r16::HL, r8::Z), MicroOp::Noop],
        0xE7u8 => seq![MicroOp::SetBit(4u8, r8::A)],
        0xE8u8 => seq![MicroOp::SetBit(5u8, r8::B)],
        0xE9u8 => seq![MicroOp::SetBit(5u8, r8::C)],
        0xEAu8 => seq![MicroOp::SetBit(5u8, r8::D)],
        0xEBu8 => seq![MicroOp::SetBit(5u8, r8::E)],
        0xECu8 => seq![MicroOp::SetBit(5u8, r8::H)],
        0xEDu8 => seq![MicroOp::SetBit(5u8, r8::L)],
        0xEEu8 => seq![MicroOp::ReadMemory(r16::HL, r8::Z), MicroOp::WriteSetMem(5u8, r16::HL, r8::Z), MicroOp::Noop],
        0xEFu8 => seq![MicroOp::SetBit(5u8, r8::A)],
        0xF0u8 => seq![MicroOp::SetBit(6u8, r8::B)],
        0xF1u8 => seq![MicroOp::SetBit(6u8, r8::C)],
        0xF2u8 => seq![MicroOp::SetBit(6u8, r8::D)],
        0xF3u8 => seq![MicroOp::SetBit(6u8, r8::E)],
        0xF4u8 => seq![MicroOp::SetBit(6u8, r8::H)],
        0xF5u8 => seq![MicroOp::SetBit(6u8, r8::L)],
        0xF6u8 => seq![MicroOp::ReadMemory(r16::HL, r8::Z), MicroOp::WriteSetMem(6u8, r16::HL, r8::Z), MicroOp::Noop],
        0xF7u8 => seq![MicroOp::SetBit(6u8, r8::A)],
        0xF8u8 => seq![MicroOp::SetBit(7u8, r8::B)],
        0xF9u8 => seq![MicroOp::SetBit(7u8, r8::C)],
        0xFAu8 => seq![MicroOp::SetBit(7u8, r8::D)],
        0xFBu8 => seq![MicroOp::SetBit(7u8, r8::E)],
        0xFCu8 => seq![MicroOp::SetBit(7u8, r8::H)],
        0xFDu8 => seq![MicroOp::SetBit(7u8, r8::L)],
        0xFEu8 => seq![MicroOp::ReadMemory(r16::HL, r8::Z), MicroOp::WriteSetMem(7u8, r16::HL, r8::Z), MicroOp::Noop],
        0xFFu8 => seq![MicroOp::SetBit(7u8, r8::A)],
    }
}

/// The mnemonic of each opcode of the CB-prefixed table.
pub open spec fn cb_name(opcode: u8) -> Seq<char> {
    match opcode {
        0x00u8 => "RLC B"@,
        0x01u8 => "RLC C"@,
        0x02u8 => "RLC D"@,
        0x03u8 => "RLC E"@,
        0x04u8 => "RLC H"@,
        0x05u8 => "RLC L"@,
        0x06u8 => "RLC (HL)"@,
        0x07u8 => "RLC A"@,
        0x08u8 => "RRC B"@,
        0x09u8 => "RRC C"@,
        0x0Au8 => "RRC D"@,
        0x0Bu8 => "RRC E"@,
        0x0Cu8 => "RRC H"@,
        0x0Du8 => "RRC L"@,
        0x0Eu8 => "RRC (HL)"@,
        0x0Fu8 => "RRC A"@,
        0x10u8 => "RL B"@,
        0x11u8 => "RL C"@,
        0x12u8 => "RL D"@,
        0x13u8 => "RL E"@,
        0x14u8 => "RL H"@,
        0x15u8 => "RL L"@,
        0x16u8 => "RL (HL)"@,
        0x17u8 => "RL A"@,
        0x18u8 => "RR B"@,
        0x19u8 => "RR C"@,
        0x1Au8 => "RR D"@,
        0x1Bu8 => "RR E"@,
        0x1Cu8 => "RR H"@,
        0x1Du8 => "RR L"@,
        0x1Eu8 => "RR (HL)"@,
        0x1Fu8 => "RR A"@,
        0x20u8 => "SLA B"@,
        0x21u8 => "SLA C"@,
        0x22u8 => "SLA D"@,
        0x23u8 => "SLA E"@,
        0x24u8 => "SLA H"@,
        0x25u8 => "SLA L"@,
        0x26u8 => "SLA (HL)"@,
        0x27u8 => "SLA A"@,
        0x28u8 => "SRA B"@,
        0x29u8 => "SRA C"@,
        0x2Au8 => "SRA D"@,
        0x2Bu8 => "SRA E"@,
        0x2Cu8 => "SRA H"@,
        0x2Du8 => "SRA L"@,
        0x2Eu8 => "SRA (HL)"@,
        0x2Fu8 => "SRA A"@,
        0x30u8 => "SWAP B"@,
        0x31u8 => "SWAP C"@,
        0x32u8 => "SWAP D"@,
        0x33u8 => "SWAP E"@,
        0x34u8 => "SWAP H"@,
        0x35u8 => "SWAP L"@,
        0x36u8 => "SWAP (HL)"@,
        0x37u8 => "SWAP A"@,
        0x38u8 => "SRL B"@,
        0x39u8 => "SRL C"@,
        0x3Au8 => "SRL D"@,
        0x3Bu8 => "SRL E"@,
        0x3Cu8 => "SRL H"@,
        0x3Du8 => "SRL L"@,
        0x3Eu8 => "SRL (HL)"@,
        0x3Fu8 => "SRL A"@,
        0x40u8 => "BIT 0,B"@,
        0x41u8 => "BIT 0,C"@,
        0x42u8 => "BIT 0,D"@,
        0x43u8 => "BIT 0,E"@,
        0x44u8 => "BIT 0,H"@,
        0x45u8 => "BIT 0,L"@,
        0x46u8 => "BIT 0,(HL)"@,
        0x47u8 => "BIT 0,A"@,
        0x48u8 => "BIT 1,B"@,
        0x49u8 => "BIT 1,C"@,
        0x4Au8 => "BIT 1,D"@,
        0x4Bu8 => "BIT 1,E"@,
        0x4Cu8 => "BIT 1,H"@,
        0x4Du8 => "BIT 1,L"@,
        0x4Eu8 => "BIT 1,(HL)"@,
        0x4Fu8 => "BIT 1,A"@,
        0x50u8 => "BIT 2,B"@,
        0x51u8 => "BIT 2,C"@,
        0x52u8 => "BIT 2,D"@,
        0x53u8 => "BIT 2,E"@,
        0x54u8 => "BIT 2,H"@,
        0x55u8 => "BIT 2,L"@,
        0x56u8 => "BIT 2,(HL)"@,
        0x57u8 => "BIT 2,A"@,
        0x58u8 => "BIT 3,B"@,
        0x59u8 => "BIT 3,C"@,
        0x5Au8 => "BIT 3,D"@,
        0x5Bu8 => "BIT 3,E"@,
        0x5Cu8 => "BIT 3,H"@,
        0x5Du8 => "BIT 3,L"@,
        0x5Eu8 => "BIT 3,(HL)"@,
        0x5Fu8 => "BIT 3,A"@,
        0x60u8 => "BIT 4,B"@,
        0x61u8 => "BIT 4,C"@,
        0x62u8 => "BIT 4,D"@,
        0x63u8 => "BIT 4,E"@,
        0x64u8 => "BIT 4,H"@,
        0x65u8 => "BIT 4,L"@,
        0x66u8 => "BIT 4,(HL)"@,
        0x67u8 => "BIT 4,A"@,
        0x68u8 => "BIT 5,B"@,
        0x69u8 => "BIT 5,C"@,
        0x6Au8 => "BIT 5,D"@,
        0x6Bu8 => "BIT 5,E"@,
        0x6Cu8 => "BIT 5,H"@,
        0x6Du8 => "BIT 5,L"@,
        0x6Eu8 => "BIT 5,(HL)"@,
        0x6Fu8 => "BIT 5,A"@,
        0x70u8 => "BIT 6,B"@,
        0x71u8 => "BIT 6,C"@,
        0x72u8 => "BIT 6,D"@,
        0x73u8 => "BIT 6,E"@,
        0x74u8 => "BIT 6,H"@,
        0x75u8 => "BIT 6,L"@,
        0x76u8 => "BIT 6,(HL)"@,
        0x77u8 => "BIT 6,A"@,
        0x78u8 => "BIT 7,B"@,
        0x79u8 => "BIT 7,C"@,
        0x7Au8 => "BIT 7,D"@,
        0x7Bu8 => "BIT 7,E"@,
        0x7Cu8 => "BIT 7,H"@,
        0x7Du8 => "BIT 7,L"@,
        0x7Eu8 => "BIT 7,(HL)"@,
        0x7Fu8 => "BIT 7,A"@,
        0x80u8 => "RES 0,B"@,
        0x81u8 => "RES 0,C"@,
        0x82u8 => "RES 0,D"@,
        0x83u8 => "RES 0,E"@,
        0x84u8 => "RES 0,H"@,
        0x85u8 => "RES 0,L"@,
        0x86u8 => "RES 0,(HL)"@,
        0x87u8 => "RES 0,A"@,
        0x88u8 => "RES 1,B"@,
        0x89u8 => "RES 1,C"@,
        0x8Au8 => "RES 1,D"@,
        0x8Bu8 => "RES 1,E"@,
        0x8Cu8 => "RES 1,H"@,
        0x8Du8 => "RES 1,L"@,
        0x8Eu8 => "RES 1,(HL)"@,
        0x8Fu8 => "RES 1,A"@,
        0x90u8 => "RES 2,B"@,
        0x91u8 => "RES 2,C"@,
        0x92u8 => "RES 2,D"@,
        0x93u8 => "RES 2,E"@,
        0x94u8 => "RES 2,H"@,
        0x95u8 => "RES 2,L"@,
        0x96u8 => "RES 2,(HL)"@,
        0x97u8 => "RES 2,A"@,
        0x98u8 => "RES 3,B"@,
        0x99u8 => "RES 3,C"@,
        0x9Au8 => "RES 3,D"@,
        0x9Bu8 => "RES 3,E"@,
        0x9Cu8 => "RES 3,H"@,
        0x9Du8 => "RES 3,L"@,
        0x9Eu8 => "RES 3,(HL)"@,
        0x9Fu8 => "RES 3,A"@,
        0xA0u8 => "RES 4,B"@,
        0xA1u8 => "RES 4,C"@,
        0xA2u8 => "RES 4,D"@,
        0xA3u8 => "RES 4,E"@,
        0xA4u8 => "RES 4,H"@,
        0xA5u8 => "RES 4,L"@,
        0xA6u8 => "RES 4,(HL)"@,
        0xA7u8 => "RES 4,A"@,
        0xA8u8 => "RES 5,B"@,
        0xA9u8 => "RES 5,C"@,
        0xAAu8 => "RES 5,D"@,
        0xABu8 => "RES 5,E"@,
        0xACu8 => "RES 5,H"@,
        0xADu8 => "RES 5,L"@,
        0xAEu8 => "RES 5,(HL)"@,
        0xAFu8 => "RES 5,A"@,
        0xB0u8 => "RES 6,B"@,
        0xB1u8 => "RES 6,C"@,
        0xB2u8 => "RES 6,D"@,
        0xB3u8 => "RES 6,E"@,
        0xB4u8 => "RES 6,H"@,
        0xB5u8 => "RES 6,L"@,
        0xB6u8 => "RES 6,(HL)"@,
        0xB7u8 => "RES 6,A"@,
        0xB8u8 => "RES 7,B"@,
        0xB9u8 => "RES 7,C"@,
        0xBAu8 => "RES 7,D"@,
        0xBBu8 => "RES 7,E"@,
        0xBCu8 => "RES 7,H"@,
        0xBDu8 => "RES 7,L"@,
        0xBEu8 => "RES 7,(HL)"@,
        0xBFu8 => "RES 7,A"@,
        0xC0u8 => "SET 0,B"@,
        0xC1u8 => "SET 0,C"@,
        0xC2u8 => "SET 0,D"@,
        0xC3u8 => "SET 0,E"@,
        0xC4u8 => "SET 0,H"@,
        0xC5u8 => "SET 0,L"@,
        0xC6u8 => "SET 0,(HL)"@,
        0xC7u8 => "SET 0,A"@,
        0xC8u8 => "SET 1,B"@,
        0xC9u8 => "SET 1,C"@,
        0xCAu8 => "SET 1,D"@,
        0xCBu8 => "SET 1,E"@,
        0xCCu8 => "SET 1,H"@,
        0xCDu8 => "SET 1,L"@,
        0xCEu8 => "SET 1,(HL)"@,
        0xCFu8 => "SET 1,A"@,
        0xD0u8 => "SET 2,B"@,
        0xD1u8 => "SET 2,C"@,
        0xD2u8 => "SET 2,D"@,
        0xD3u8 => "SET 2,E"@,
        0xD4u8 => "SET 2,H"@,
        0xD5u8 => "SET 2,L"@,
        0xD6u8 => "SET 2,(HL)"@,
        0xD7u8 => "SET 2,A"@,
        0xD8u8 => "SET 3,B"@,
        0xD9u8 => "SET 3,C"@,
        0xDAu8 => "SET 3,D"@,
        0xDBu8 => "SET 3,E"@,
        0xDCu8 => "SET 3,H"@,
        0xDDu8 => "SET 3,L"@,
        0xDEu8 => "SET 3,(HL)"@,
        0xDFu8 => "SET 3,A"@,
        0xE0u8 => "SET 4,B"@,
        0xE1u8 => "SET 4,C"@,
        0xE2u8 => "SET 4,D"@,
        0xE3u8 => "SET 4,E"@,
        0xE4u8 => "SET 4,H"@,
        0xE5u8 => "SET 4,L"@,
        0xE6u8 => "SET 4,(HL)"@,
        0xE7u8 => "SET 4,A"@,
        0xE8u8 => "SET 5,B"@,
        0xE9u8 => "SET 5,C"@,
        0xEAu8 => "SET 5,D"@,
        0xEBu8 => "SET 5,E"@,
        0xECu8 => "SET 5,H"@,
        0xEDu8 => "SET 5,L"@,
        0xEEu8 => "SET 5,(HL)"@,
        0xEFu8 => "SET 5,A"@,
        0xF0u8 => "SET 6,B"@,
        0xF1u8 => "SET 6,C"@,
        0xF2u8 => "SET 6,D"@,
        0xF3u8 => "SET 6,E"@,
        0xF4u8 => "SET 6,H"@,
        0xF5u8 => "SET 6,L"@,
        0xF6u8 => "SET 6,(HL)"@,
        0xF7u8 => "SET 6,A"@,
        0xF8u8 => "SET 7,B"@,
        0xF9u8 => "SET 7,C"@,
        0xFAu8 => "SET 7,D"@,
        0xFBu8 => "SET 7,E"@,
        0xFCu8 => "SET 7,H"@,
        0xFDu8 => "SET 7,L"@,
        0xFEu8 => "SET 7,(HL)"@,
        0xFFu8 => "SET 7,A"@,
    }
}

/// The table entry of `opcode`.
fn cb_instruction(opcode: u8) -> (r: Instruction)
    ensures
        r.opcode == opcode,
        r.micro_ops@ == cb_micro_ops(opcode),
        r.name@ == cb_name(opcode),
{
    match opcode {
        0x00u8 => Instruction { name: "RLC B".to_owned(), opcode: 0x00, micro_ops: vec![MicroOp::Rlc(r8::B)] },
        0x01u8 => Instruction { name: "RLC C".to_owned(), opcode: 0x01, micro_ops: vec![MicroOp::Rlc(r8::C)] },
        0x02u8 => Instruction { name: "RLC D".to_owned(), opcode: 0x02, micro_ops: vec![MicroOp::Rlc(r8::D)] },
        0x03u8 => Instruction { name: "RLC E".to_owned(), opcode: 0x03, micro_ops: vec![MicroOp::Rlc(r8::E)] },
        0x04u8 => Instruction { name: "RLC H".to_owned(), opcode: 0x04, micro_ops: vec![MicroOp::Rlc(r8::H)] },
        0x05u8 => Instruction { name: "RLC L".to_owned(), opcode: 0x05, micro_ops: vec![MicroOp::Rlc(r8::L)] },
        0x06u8 => Instruction { name: "RLC (HL)".to_owned(), opcode: 0x06, micro_ops: vec![MicroOp::ReadMemory(r16::HL, r8::Z), MicroOp::WriteRlcMem(r16::HL, r8::Z), MicroOp::Noop] },
        0x07u8 => Instruction { name: "RLC A".to_owned(), opcode: 0x07, micro_ops: vec![MicroOp::Rlc(r8::A)] },
        0x08u8 => Instruction { name: "RRC B".to_owned(), opcode: 0x08, micro_ops: vec![MicroOp::Rrc(r8::B)] },
        0x09u8 => Instruction { name: "RRC C".to_owned(), opcode: 0x09, micro_ops: vec![MicroOp::Rrc(r8::C)] },
        0x0Au8 => Instruction { name: "RRC D".to_owned(), opcode: 0x0A, micro_ops: vec![MicroOp::Rrc(r8::D)] },
        0x0Bu8 => Instruction { name: "RRC E".to_owned(), opcode: 0x0B, micro_ops: vec![MicroOp::Rrc(r8::E)] },
        0x0Cu8 => Instruction { name: "RRC H".to_owned(), opcode: 0x0C, micro_ops: vec![MicroOp::Rrc(r8::H)] },
        0x0Du8 => Instruction { name: "RRC L".to_owned(), opcode: 0x0D, micro_ops: vec![MicroOp::Rrc(r8::L)] },
        0x0Eu8 => Instruction { name: "RRC (HL)".to_owned(), opcode: 0x0E, micro_ops: vec![MicroOp::ReadMemory(r16::HL, r8::Z), MicroOp::WriteRrcMem(r16::HL, r8::Z), MicroOp::Noop] },
        0x0Fu8 => Instruction { name: "RRC A".to_owned(), opcode: 0x0F, micro_ops: vec![MicroOp::Rrc(r8::A)] },
        0x10u8 => Instruction { name: "RL B".to_owned(), opcode: 0x10, micro_ops: vec![MicroOp::Rl(r8::B)] },
        0x11u8 => Instruction { name: "RL C".to_owned(), opcode: 0x11, micro_ops: vec![MicroOp::Rl(r8::C)] },
        0x12u8 => Instruction { name: "RL D".to_owned(), opcode: 0x12, micro_ops: vec![MicroOp::Rl(r8::D)] },
        0x13u8 => Instruction { name: "RL E".to_owned(), opcode: 0x13, micro_ops: vec![MicroOp::Rl(r8::E)] },
        0x14u8 => Instruction { name: "RL H".to_owned(), opcode: 0x14, micro_ops: vec![MicroOp::Rl(r8::H)] },
        0x15u8 => Instruction { name: "RL L".to_owned(), opcode: 0x15, micro_ops: vec![MicroOp::Rl(r8::L)] },
        0x16u8 => Instruction { name: "RL (HL)".to_owned(), opcode: 0x16, micro_ops: vec![MicroOp::ReadMemory(r16::HL, r8::Z), MicroOp::WriteRlMem(r16::HL, r8::Z), MicroOp::Noop] },
        0x17u8 => Instruction { name: "RL A".to_owned(), opcode: 0x17, micro_ops: vec![MicroOp::Rl(r8::A)] },
        0x18u8 => Instruction { name: "RR B".to_owned(), opcode: 0x18, micro_ops: vec![MicroOp::Rr(r8::B)] },
        0x19u8 => Instruction { name: "RR C".to_owned(), opcode: 0x19, micro_ops: vec![MicroOp::Rr(r8::C)] },
        0x1Au8 => Instruction { name: "RR D".to_owned(), opcode: 0x1A, micro_ops: vec![MicroOp::Rr(r8::D)] },
        0x1Bu8 => Instruction { name: "RR E".to_owned(), opcode: 0x1B, micro_ops: vec![MicroOp::Rr(r8::E)] },
        0x1Cu8 => Instruction { name: "RR H".to_owned(), opcode: 0x1C, micro_ops: vec![MicroOp::Rr(r8::H)] },
        0x1Du8 => Instruction { name: "RR L".to_owned(), opcode: 0x1D, micro_ops: vec![MicroOp::Rr(r8::L)] },
        0x1Eu8 => Instruction { name: "RR (HL)".to_owned(), opcode: 0x1E, micro_ops: vec![MicroOp::ReadMemory(r16::HL, r8::Z), MicroOp::WriteRrMem(r16::HL, r8::Z), MicroOp::Noop] },
        0x1Fu8 => Instruction { name: "RR A".to_owned(), opcode: 0x1F, micro_ops: vec![MicroOp::Rr(r8::A)] },
        0x20u8 => Instruction { name: "SLA B".to_owned(), opcode: 0x20, micro_ops: vec![MicroOp::Sla(r8::B)] },
        0x21u8 => Instruction { name: "SLA C".to_owned(), opcode: 0x21, micro_ops: vec![MicroOp::Sla(r8::C)] },
        0x22u8 => Instruction { name: "SLA D".to_owned(), opcode: 0x22, micro_ops: vec![MicroOp::Sla(r8::D)] },
        0x23u8 => Instruction { name: "SLA E".to_owned(), opcode: 0x23, micro_ops: vec![MicroOp::Sla(r8::E)] },
        0x24u8 => Instruction { name: "SLA H".to_owned(), opcode: 0x24, micro_ops: vec![MicroOp::Sla(r8::H)] },
        0x25u8 => Instruction { name: "SLA L".to_owned(), opcode: 0x25, micro_ops: vec![MicroOp::Sla(r8::L)] },
        0x26u8 => Instruction { name: "SLA (HL)".to_owned(), opcode: 0x26, micro_ops: vec![MicroOp::ReadMemory(r16::HL, r8::Z), MicroOp::WriteSlaMem(r16::HL, r8::Z), MicroOp::Noop] },
        0x27u8 => Instruction { name: "SLA A".to_owned(), opcode: 0x27, micro_ops: vec![MicroOp::Sla(r8::A)] },
        0x28u8 => Instruction { name: "SRA B".to_owned(), opcode: 0x28, micro_ops: vec![MicroOp::Sra(r8::B)] },
        0x29u8 => Instruction { name: "SRA C".to_owned(), opcode: 0x29, micro_ops: vec![MicroOp::Sra(r8::C)] },
        0x2Au8 => Instruction { name: "SRA D".to_owned(), opcode: 0x2A, micro_ops: vec![MicroOp::Sra(r8::D)] },
        0x2Bu8 => Instruction { name: "SRA E".to_owned(), opcode: 0x2B, micro_ops: vec![MicroOp::Sra(r8::E)] },
        0x2Cu8 => Instruction { name: "SRA H".to_owned(), opcode: 0x2C, micro_ops: vec![MicroOp::Sra(r8::H)] },
        0x2Du8 => Instruction { name: "SRA L".to_owned(), opcode: 0x2D, micro_ops: vec![MicroOp::Sra(r8::L)] },
        0x2Eu8 => Instruction { name: "SRA (HL)".to_owned(), opcode: 0x2E, micro_ops: vec![MicroOp::ReadMemory(r16::HL, r8::Z), MicroOp::WriteSraMem(r16::HL, r8::Z), MicroOp::Noop] },
        0x2Fu8 => Instruction { name: "SRA A".to_owned(), opcode: 0x2F, micro_ops: vec![MicroOp::Sra(r8::A)] },
        0x30u8 => Instruction { name: "SWAP B".to_owned(), opcode: 0x30, micro_ops: vec![MicroOp::Swap(r8::B)] },
        0x31u8 => Instruction { name: "SWAP C".to_owned(), opcode: 0x31, micro_ops: vec![MicroOp::Swap(r8::C)] },
        0x32u8 => Instruction { name: "SWAP D".to_owned(), opcode: 0x32, micro_ops: vec![MicroOp::Swap(r8::D)] },
        0x33u8 => Instruction { name: "SWAP E".to_owned(), opcode: 0x33, micro_ops: vec![MicroOp::Swap(r8::E)] },
        0x34u8 => Instruction { name: "SWAP H".to_owned(), opcode: 0x34, micro_ops: vec![MicroOp::Swap(r8::H)] },
        0x35u8 => Instruction { name: "SWAP L".to_owned(), opcode: 0x35, micro_ops: vec![MicroOp::Swap(r8::L)] },
        0x36u8 => Instruction { name: "SWAP (HL)".to_owned(), opcode: 0x36, micro_ops: vec![MicroOp::ReadMemory(r16::HL, r8::Z), MicroOp::WriteSwapMem(r16::HL, r8::Z), MicroOp::Noop] },
        0x37u8 => Instruction { name: "SWAP A".to_owned(), opcode: 0x37, micro_ops: vec![MicroOp::Swap(r8::A)] },
        0x38u8 => Instruction { name: "SRL B".to_owned(), opcode: 0x38, micro_ops: vec![MicroOp::Srl(r8::B)] },
        0x39u8 => Instruction { name: "SRL C".to_owned(), opcode: 0x39, micro_ops: vec![MicroOp::Srl(r8::C)] },
        0x3Au8 => Instruction { name: "SRL D".to_owned(), opcode: 0x3A, micro_ops: vec![MicroOp::Srl(r8::D)] },
        0x3Bu8 => Instruction { name: "SRL E".to_owned(), opcode: 0x3B, micro_ops: vec![MicroOp::Srl(r8::E)] },
        0x3Cu8 => Instruction { name: "SRL H".to_owned(), opcode: 0x3C, micro_ops: vec![MicroOp::Srl(r8::H)] },
        0x3Du8 => Instruction { name: "SRL L".to_owned(), opcode: 0x3D, micro_ops: vec![MicroOp::Srl(r8::L)] },
        0x3Eu8 => Instruction { name: "SRL (HL)".to_owned(), opcode: 0x3E, micro_ops: vec![MicroOp::ReadMemory(r16::HL, r8::Z), MicroOp::WriteSrlMem(r16::HL, r8::Z), MicroOp::Noop] },
        0x3Fu8 => Instruction { name: "SRL A".to_owned(), opcode: 0x3F, micro_ops: vec![MicroOp::Srl(r8::A)] },
        0x40u8 => Instruction { name: "BIT 0,B".to_owned(), opcode: 0x40, micro_ops: vec![MicroOp::TestBit(0u8, r8::B)] },
        0x41u8 => Instruction { name: "BIT 0,C".to_owned(), opcode: 0x41, micro_ops: vec![MicroOp::TestBit(0u8, r8::C)] },
        0x42u8 => Instruction { name: "BIT 0,D".to_owned(), opcode: 0x42, micro_ops: vec![MicroOp::TestBit(0u8, r8::D)] },
        0x43u8 => Instruction { name: "BIT 0,E".to_owned(), opcode: 0x43, micro_ops: vec![MicroOp::TestBit(0u8, r8::E)] },
        0x44u8 => Instruction { name: "BIT 0,H".to_owned(), opcode: 0x44, micro_ops: vec![MicroOp::TestBit(0u8, r8::H)] },
        0x45u8 => Instruction { name: "BIT 0,L".to_owned(), opcode: 0x45, micro_ops: vec![MicroOp::TestBit(0u8, r8::L)] },
        0x46u8 => Instruction { name: "BIT 0,(HL)".to_owned(), opcode: 0x46, micro_ops: vec![MicroOp::ReadMemory(r16::HL, r8::Z), MicroOp::TestBit(0u8, r8::Z)] },
        0x47u8 => Instruction { name: "BIT 0,A".to_owned(), opcode: 0x47, micro_ops: vec![MicroOp::TestBit(0u8, r8::A)] },
        0x48u8 => Instruction { name: "BIT 1,B".to_owned(), opcode: 0x48, micro_ops: vec![MicroOp::TestBit(1u8, r8::B)] },
        0x49u8 => Instruction { name: "BIT 1,C".to_owned(), opcode: 0x49, micro_ops: vec![MicroOp::TestBit(1u8, r8::C)] },
        0x4Au8 => Instruction { name: "BIT 1,D".to_owned(), opcode: 0x4A, micro_ops: vec![MicroOp::TestBit(1u8, r8::D)] },
        0x4Bu8 => Instruction { name: "BIT 1,E".to_owned(), opcode: 0x4B, micro_ops: vec![MicroOp::TestBit(1u8, r8::E)] },
        0x4Cu8 => Instruction { name: "BIT 1,H".to_owned(), opcode: 0x4C, micro_ops: vec![MicroOp::TestBit(1u8, r8::H)] },
        0x4Du8 => Instruction { name: "BIT 1,L".to_owned(), opcode: 0x4D, micro_ops: vec![MicroOp::TestBit(1u8, r8::L)] },
        0x4Eu8 => Instruction { name: "BIT 1,(HL)".to_owned(), opcode: 0x4E, micro_ops: vec![MicroOp::ReadMemory(r16::HL, r8::Z), MicroOp::TestBit(1u8, r8::Z)] },
        0x4Fu8 => Instruction { name: "BIT 1,A".to_owned(), opcode: 0x4F, micro_ops: vec![MicroOp::TestBit(1u8, r8::A)] },
        0x50u8 => Instruction { name: "BIT 2,B".to_owned(), opcode: 0x50, micro_ops: vec![MicroOp::TestBit(2u8, r8::B)] },
        0x51u8 => Instruction { name: "BIT 2,C".to_owned(), opcode: 0x51, micro_ops: vec![MicroOp::TestBit(2u8, r8::C)] },
        0x52u8 => Instruction { name: "BIT 2,D".to_owned(), opcode: 0x52, micro_ops: vec![MicroOp::TestBit(2u8, r8::D)] },
        0x53u8 => Instruction { name: "BIT 2,E".to_owned(), opcode: 0x53, micro_ops: vec![MicroOp::TestBit(2u8, r8::E)] },
        0x54u8 => Instruction { name: "BIT 2,H".to_owned(), opcode: 0x54, micro_ops: vec![MicroOp::TestBit(2u8, r8::H)] },
        0x55u8 => Instruction { name: "BIT 2,L".to_owned(), opcode: 0x55, micro_ops: vec![MicroOp::TestBit(2u8, r8::L)] },
        0x56u8 => Instruction { name: "BIT 2,(HL)".to_owned(), opcode: 0x56, micro_ops: vec![MicroOp::ReadMemory(r16::HL, r8::Z), MicroOp::TestBit(2u8, r8::Z)] },
        0x57u8 => Instruction { name: "BIT 2,A".to_owned(), opcode: 0x57, micro_ops: vec![MicroOp::TestBit(2u8, r8::A)] },
        0x58u8 => Instruction { name: "BIT 3,B".to_owned(), opcode: 0x58, micro_ops: vec![MicroOp::TestBit(3u8, r8::B)] },
        0x59u8 => Instruction { name: "BIT 3,C".to_owned(), opcode: 0x59, micro_ops: vec![MicroOp::TestBit(3u8, r8::C)] },
        0x5Au8 => Instruction { name: "BIT 3,D".to_owned(), opcode: 0x5A, micro_ops: vec![MicroOp::TestBit(3u8, r8::D)] },
        0x5Bu8 => Instruction { name: "BIT 3,E".to_owned(), opcode: 0x5B, micro_ops: vec![MicroOp::TestBit(3u8, r8::E)] },
        0x5Cu8 => Instruction { name: "BIT 3,H".to_owned(), opcode: 0x5C, micro_ops: vec![MicroOp::TestBit(3u8, r8::H)] },
        0x5Du8 => Instruction { name: "BIT 3,L".to_owned(), opcode: 0x5D, micro_ops: vec![MicroOp::TestBit(3u8, r8::L)] },
        0x5Eu8 => Instruction { name: "BIT 3,(HL)".to_owned(), opcode: 0x5E, micro_ops: vec![MicroOp::ReadMemory(r16::HL, r8::Z), MicroOp::TestBit(3u8, r8::Z)] },
        0x5Fu8 => Instruction { name: "BIT 3,A".to_owned(), opcode: 0x5F, micro_ops: vec![MicroOp::TestBit(3u8, r8::A)] },
        0x60u8 => Instruction { name: "BIT 4,B".to_owned(), opcode: 0x60, micro_ops: vec![MicroOp::TestBit(4u8, r8::B)] },
        0x61u8 => Instruction { name: "BIT 4,C".to_owned(), opcode: 0x61, micro_ops: vec![MicroOp::TestBit(4u8, r8::C)] },
        0x62u8 => Instruction { name: "BIT 4,D".to_owned(), opcode: 0x62, micro_ops: vec![MicroOp::TestBit(4u8, r8::D)] },
        0x63u8 => Instruction { name: "BIT 4,E".to_owned(), opcode: 0x63, micro_ops: vec![MicroOp::TestBit(4u8, r8::E)] },
        0x64u8 => Instruction { name: "BIT 4,H".to_owned(), opcode: 0x64, micro_ops: vec![MicroOp::TestBit(4u8, r8::H)] },
        0x65u8 => Instruction { name: "BIT 4,L".to_owned(), opcode: 0x65, micro_ops: vec![MicroOp::TestBit(4u8, r8::L)] },
        0x66u8 => Instruction { name: "BIT 4,(HL)".to_owned(), opcode: 0x66, micro_ops: vec![MicroOp::ReadMemory(r16::HL, r8::Z), MicroOp::TestBit(4u8, r8::Z)] },
        0x67u8 => Instruction { name: "BIT 4,A".to_owned(), opcode: 0x67, micro_ops: vec![MicroOp::TestBit(4u8, r8::A)] },
        0x68u8 => Instruction { name: "BIT 5,B".to_owned(), opcode: 0x68, micro_ops: vec![MicroOp::TestBit(5u8, r8::B)] },
        0x69u8 => Instruction { name: "BIT 5,C".to_owned(), opcode: 0x69, micro_ops: vec![MicroOp::TestBit(5u8, r8::C)] },
        0x6Au8 => Instruction { name: "BIT 5,D".to_owned(), opcode: 0x6A, micro_ops: vec![MicroOp::TestBit(5u8, r8::D)] },
        0x6Bu8 => Instruction { name: "BIT 5,E".to_owned(), opcode: 0x6B, micro_ops: vec![MicroOp::TestBit(5u8, r8::E)] },
        0x6Cu8 => Instruction { name: "BIT 5,H".to_owned(), opcode: 0x6C, micro_ops: vec![MicroOp::TestBit(5u8, r8::H)] },
        0x6Du8 => Instruction { name: "BIT 5,L".to_owned(), opcode: 0x6D, micro_ops: vec![MicroOp::TestBit(5u8, r8::L)] },
        0x6Eu8 => Instruction { name: "BIT 5,(HL)".to_owned(), opcode: 0x6E, micro_ops: vec![MicroOp::ReadMemory(r16::HL, r8::Z), MicroOp::TestBit(5u8, r8::Z)] },
        0x6Fu8 => Instruction { name: "BIT 5,A".to_owned(), opcode: 0x6F, micro_ops: vec![MicroOp::TestBit(5u8, r8::A)] },
        0x70u8 => Instruction { name: "BIT 6,B".to_owned(), opcode: 0x70, micro_ops: vec![MicroOp::TestBit(6u8, r8::B)] },
        0x71u8 => Instruction { name: "BIT 6,C".to_owned(), opcode: 0x71, micro_ops: vec![MicroOp::TestBit(6u8, r8::C)] },
        0x72u8 => Instruction { name: "BIT 6,D".to_owned(), opcode: 0x72, micro_ops: vec![MicroOp::TestBit(6u8, r8::D)] },
        0x73u8 => Instruction { name: "BIT 6,E".to_owned(), opcode: 0x73, micro_ops: vec![MicroOp::TestBit(6u8, r8::E)] },
        0x74u8 => Instruction { name: "BIT 6,H".to_owned(), opcode: 0x74, micro_ops: vec![MicroOp::TestBit(6u8, r8::H)] },
        0x75u8 => Instruction { name: "BIT 6,L".to_owned(), opcode: 0x75, micro_ops: vec![MicroOp::TestBit(6u8, r8::L)] },
        0x76u8 => Instruction { name: "BIT 6,(HL)".to_owned(), opcode: 0x76, micro_ops: vec![MicroOp::ReadMemory(r16::HL, r8::Z), MicroOp::TestBit(6u8, r8::Z)] },
        0x77u8 => Instruction { name: "BIT 6,A".to_owned(), opcode: 0x77, micro_ops: vec![MicroOp::TestBit(6u8, r8::A)] },
        0x78u8 => Instruction { name: "BIT 7,B".to_owned(), opcode: 0x78, micro_ops: vec![MicroOp::TestBit(7u8, r8::B)] },
        0x79u8 => Instruction { name: "BIT 7,C".to_owned(), opcode: 0x79, micro_ops: vec![MicroOp::TestBit(7u8, r8::C)] },
        0x7Au8 => Instruction { name: "BIT 7,D".to_owned(), opcode: 0x7A, micro_ops: vec![MicroOp::TestBit(7u8, r8::D)] },
        0x7Bu8 => Instruction { name: "BIT 7,E".to_owned(), opcode: 0x7B, micro_ops: vec![MicroOp::TestBit(7u8, r8::E)] },
        0x7Cu8 => Instruction { name: "BIT 7,H".to_owned(), opcode: 0x7C, micro_ops: vec![MicroOp::TestBit(7u8, r8::H)] },
        0x7Du8 => Instruction { name: "BIT 7,L".to_owned(), opcode: 0x7D, micro_ops: vec![MicroOp::TestBit(7u8, r8::L)] },
        0x7Eu8 => Instruction { name: "BIT 7,(HL)".to_owned(), opcode: 0x7E, micro_ops: vec![MicroOp::ReadMemory(r16::HL, r8::Z), MicroOp::TestBit(7u8, r8::Z)] },
        0x7Fu8 => Instruction { name: "BIT 7,A".to_owned(), opcode: 0x7F, micro_ops: vec![MicroOp::TestBit(7u8, r8::A)] },
        0x80u8 => Instruction { name: "RES 0,B".to_owned(), opcode: 0x80, micro_ops: vec![MicroOp::ResBit(0u8, r8::B)] },
        0x81u8 => Instruction { name: "RES 0,C".to_owned(), opcode: 0x81, micro_ops: vec![MicroOp::ResBit(0u8, r8::C)] },
        0x82u8 => Instruction { name: "RES 0,D".to_owned(), opcode: 0x82, micro_ops: vec![MicroOp::ResBit(0u8, r8::D)] },
        0x83u8 => Instruction { name: "RES 0,E".to_owned(), opcode: 0x83, micro_ops: vec![MicroOp::ResBit(0u8, r8::E)] },
        0x84u8 => Instruction { name: "RES 0,H".to_owned(), opcode: 0x84, micro_ops: vec![MicroOp::ResBit(0u8, r8::H)] },
        0x85u8 => Instruction { name: "RES 0,L".to_owned(), opcode: 0x85, micro_ops: vec![MicroOp::ResBit(0u8, r8::L)] },
        0x86u8 => Instruction { name: "RES 0,(HL)".to_owned(), opcode: 0x86, micro_ops: vec![MicroOp::ReadMemory(r16::HL, r8::Z), MicroOp::WriteResMem(0u8, r16::HL, r8::Z), MicroOp::Noop] },
        0x87u8 => Instruction { name: "RES 0,A".to_owned(), opcode: 0x87, micro_ops: vec![MicroOp::ResBit(0u8, r8::A)] },
        0x88u8 => Instruction { name: "RES 1,B".to_owned(), opcode: 0x88, micro_ops: vec![MicroOp::ResBit(1u8, r8::B)] },
        0x89u8 => Instruction { name: "RES 1,C".to_owned(), opcode: 0x89, micro_ops: vec![MicroOp::ResBit(1u8, r8::C)] },
        0x8Au8 => Instruction { name: "RES 1,D".to_owned(), opcode: 0x8A, micro_ops: vec![MicroOp::ResBit(1u8, r8::D)] },
        0x8Bu8 => Instruction { name: "RES 1,E".to_owned(), opcode: 0x8B, micro_ops: vec![MicroOp::ResBit(1u8, r8::E)] },
        0x8Cu8 => Instruction { name: "RES 1,H".to_owned(), opcode: 0x8C, micro_ops: vec![MicroOp::ResBit(1u8, r8::H)] },
        0x8Du8 => Instruction { name: "RES 1,L".to_owned(), opcode: 0x8D, micro_ops: vec![MicroOp::ResBit(1u8, r8::L)] },
        0x8Eu8 => Instruction { name: "RES 1,(HL)".to_owned(), opcode: 0x8E, micro_ops: vec![MicroOp::ReadMemory(r16::HL, r8::Z), MicroOp::WriteResMem(1u8, r16::HL, r8::Z), MicroOp::Noop] },
        0x8Fu8 => Instruction { name: "RES 1,A".to_owned(), opcode: 0x8F, micro_ops: vec![MicroOp::ResBit(1u8, r8::A)] },
        0x90u8 => Instruction { name: "RES 2,B".to_owned(), opcode: 0x90, micro_ops: vec![MicroOp::ResBit(2u8, r8::B)] },
        0x91u8 => Instruction { name: "RES 2,C".to_owned(), opcode: 0x91, micro_ops: vec![MicroOp::ResBit(2u8, r8::C)] },
        0x92u8 => Instruction { name: "RES 2,D".to_owned(), opcode: 0x92, micro_ops: vec![MicroOp::ResBit(2u8, r8::D)] },
        0x93u8 => Instruction { name: "RES 2,E".to_owned(), opcode: 0x93, micro_ops: vec![MicroOp::ResBit(2u8, r8::E)] },
        0x94u8 => Instruction { name: "RES 2,H".to_owned(), opcode: 0x94, micro_ops: vec![MicroOp::ResBit(2u8, r8::H)] },
        0x95u8 => Instruction { name: "RES 2,L".to_owned(), opcode: 0x95, micro_ops: vec![MicroOp::ResBit(2u8, r8::L)] },
        0x96u8 => Instruction { name: "RES 2,(HL)".to_owned(), opcode: 0x96, micro_ops: vec![MicroOp::ReadMemory(r16::HL, r8::Z), MicroOp::WriteResMem(2u8, r16::HL, r8::Z), MicroOp::Noop] },
        0x97u8 => Instruction { name: "RES 2,A".to_owned(), opcode: 0x97, micro_ops: vec![MicroOp::ResBit(2u8, r8::A)] },
        0x98u8 => Instruction { name: "RES 3,B".to_owned(), opcode: 0x98, micro_ops: vec![MicroOp::ResBit(3u8, r8::B)] },
        0x99u8 => Instruction { name: "RES 3,C".to_owned(), opcode: 0x99, micro_ops: vec![MicroOp::ResBit(3u8, r8::C)] },
        0x9Au8 => Instruction { name: "RES 3,D".to_owned(), opcode: 0x9A, micro_ops: vec![MicroOp::ResBit(3u8, r8::D)] },
        0x9Bu8 => Instruction { name: "RES 3,E".to_owned(), opcode: 0x9B, micro_ops: vec![MicroOp::ResBit(3u8, r8::E)] },
        0x9Cu8 => Instruction { name: "RES 3,H".to_owned(), opcode: 0x9C, micro_ops: vec![MicroOp::ResBit(3u8, r8::H)] },
        0x9Du8 => Instruction { name: "RES 3,L".to_owned(), opcode: 0x9D, micro_ops: vec![MicroOp::ResBit(3u8, r8::L)] },
        0x9Eu8 => Instruction { name: "RES 3,(HL)".to_owned(), opcode: 0x9E, micro_ops: vec![MicroOp::ReadMemory(r16::HL, r8::Z), MicroOp::WriteResMem(3u8, r16::HL, r8::Z), MicroOp::Noop] },
        0x9Fu8 => Instruction { name: "RES 3,A".to_owned(), opcode: 0x9F, micro_ops: vec![MicroOp::ResBit(3u8, r8::A)] },
        0xA0u8 => Instruction { name: "RES 4,B".to_owned(), opcode: 0xA0, micro_ops: vec![MicroOp::ResBit(4u8, r8::B)] },
        0xA1u8 => Instruction { name: "RES 4,C".to_owned(), opcode: 0xA1, micro_ops: vec![MicroOp::ResBit(4u8, r8::C)] },
        0xA2u8 => Instruction { name: "RES 4,D".to_owned(), opcode: 0xA2, micro_ops: vec![MicroOp::ResBit(4u8, r8::D)] },
        0xA3u8 => Instruction { name: "RES 4,E".to_owned(), opcode: 0xA3, micro_ops: vec![MicroOp::ResBit(4u8, r8::E)] },
        0xA4u8 => Instruction { name: "RES 4,H".to_owned(), opcode: 0xA4, micro_ops: vec![MicroOp::ResBit(4u8, r8::H)] },
        0xA5u8 => Instruction { name: "RES 4,L".to_owned(), opcode: 0xA5, micro_ops: vec![MicroOp::ResBit(4u8, r8::L)] },
        0xA6u8 => Instruction { name: "RES 4,(HL)".to_owned(), opcode: 0xA6, micro_ops: vec![MicroOp::ReadMemory(r16::HL, r8::Z), MicroOp::WriteResMem(4u8, r16::HL, r8::Z), MicroOp::Noop] },
        0xA7u8 => Instruction { name: "RES 4,A".to_owned(), opcode: 0xA7, micro_ops: vec![MicroOp::ResBit(4u8, r8::A)] },
        0xA8u8 => Instruction { name: "RES 5,B".to_owned(), opcode: 0xA8, micro_ops: vec![MicroOp::ResBit(5u8, r8::B)] },
        0xA9u8 => Instruction { name: "RES 5,C".to_owned(), opcode: 0xA9, micro_ops: vec![MicroOp::ResBit(5u8, r8::C)] },
        0xAAu8 => Instruction { name: "RES 5,D".to_owned(), opcode: 0xAA, micro_ops: vec![MicroOp::ResBit(5u8, r8::D)] },
        0xABu8 => Instruction { name: "RES 5,E".to_owned(), opcode: 0xAB, micro_ops: vec![MicroOp::ResBit(5u8, r8::E)] },
        0xACu8 => Instruction { name: "RES 5,H".to_owned(), opcode: 0xAC, micro_ops: vec![MicroOp::ResBit(5u8, r8::H)] },
        0xADu8 => Instruction { name: "RES 5,L".to_owned(), opcode: 0xAD, micro_ops: vec![MicroOp::ResBit(5u8, r8::L)] },
        0xAEu8 => Instruction { name: "RES 5,(HL)".to_owned(), opcode: 0xAE, micro_ops: vec![MicroOp::ReadMemory(r16::HL, r8::Z), MicroOp::WriteResMem(5u8, r16::HL, r8::Z), MicroOp::Noop] },
        0xAFu8 => Instruction { name: "RES 5,A".to_owned(), opcode: 0xAF, micro_ops: vec![MicroOp::ResBit(5u8, r8::A)] },
        0xB0u8 => Instruction { name: "RES 6,B".to_owned(), opcode: 0xB0, micro_ops: vec![MicroOp::ResBit(6u8, r8::B)] },
        0xB1u8 => Instruction { name: "RES 6,C".to_owned(), opcode: 0xB1, micro_ops: vec![MicroOp::ResBit(6u8, r8::C)] },
        0xB2u8 => Instruction { name: "RES 6,D".to_owned(), opcode: 0xB2, micro_ops: vec![MicroOp::ResBit(6u8, r8::D)] },
        0xB3u8 => Instruction { name: "RES 6,E".to_owned(), opcode: 0xB3, micro_ops: vec![MicroOp::ResBit(6u8, r8::E)] },
        0xB4u8 => Instruction { name: "RES 6,H".to_owned(), opcode: 0xB4, micro_ops: vec![MicroOp::ResBit(6u8, r8::H)] },
        0xB5u8 => Instruction { name: "RES 6,L".to_owned(), opcode: 0xB5, micro_ops: vec![MicroOp::ResBit(6u8, r8::L)] },
        0xB6u8 => Instruction { name: "RES 6,(HL)".to_owned(), opcode: 0xB6, micro_ops: vec![MicroOp::ReadMemory(r16::HL, r8::Z), MicroOp::WriteResMem(6u8, r16::HL, r8::Z), MicroOp::Noop] },
        0xB7u8 => Instruction { name: "RES 6,A".to_owned(), opcode: 0xB7, micro_ops: vec![MicroOp::ResBit(6u8, r8::A)] },
        0xB8u8 => Instruction { name: "RES 7,B".to_owned(), opcode: 0xB8, micro_ops: vec![MicroOp::ResBit(7u8, r8::B)] },
        0xB9u8 => Instruction { name: "RES 7,C".to_owned(), opcode: 0xB9, micro_ops: vec![MicroOp::ResBit(7u8, r8::C)] },
        0xBAu8 => Instruction { name: "RES 7,D".to_owned(), opcode: 0xBA, micro_ops: vec![MicroOp::ResBit(7u8, r8::D)] },
        0xBBu8 => Instruction { name: "RES 7,E".to_owned(), opcode: 0xBB, micro_ops: vec![MicroOp::ResBit(7u8, r8::E)] },
        0xBCu8 => Instruction { name: "RES 7,H".to_owned(), opcode: 0xBC, micro_ops: vec![MicroOp::ResBit(7u8, r8::H)] },
        0xBDu8 => Instruction { name: "RES 7,L".to_owned(), opcode: 0xBD, micro_ops: vec![MicroOp::ResBit(7u8, r8::L)] },
        0xBEu8 => Instruction { name: "RES 7,(HL)".to_owned(), opcode: 0xBE, micro_ops: vec![MicroOp::ReadMemory(r16::HL, r8::Z), MicroOp::WriteResMem(7u8, r16::HL, r8::Z), MicroOp::Noop] },
        0xBFu8 => Instruction { name: "RES 7,A".to_owned(), opcode: 0xBF, micro_ops: vec![MicroOp::ResBit(7u8, r8::A)] },
        0xC0u8 => Instruction { name: "SET 0,B".to_owned(), opcode: 0xC0, micro_ops: vec![MicroOp::SetBit(0u8, r8::B)] },
        0xC1u8 => Instruction { name: "SET 0,C".to_owned(), opcode: 0xC1, micro_ops: vec![MicroOp::SetBit(0u8, r8::C)] },
        0xC2u8 => Instruction { name: "SET 0,D".to_owned(), opcode: 0xC2, micro_ops: vec![MicroOp::SetBit(0u8, r8::D)] },
        0xC3u8 => Instruction { name: "SET 0,E".to_owned(), opcode: 0xC3, micro_ops: vec![MicroOp::SetBit(0u8, r8::E)] },
        0xC4u8 => Instruction { name: "SET 0,H".to_owned(), opcode: 0xC4, micro_ops: vec![MicroOp::SetBit(0u8, r8::H)] },
        0xC5u8 => Instruction { name: "SET 0,L".to_owned(), opcode: 0xC5, micro_ops: vec![MicroOp::SetBit(0u8, r8::L)] },
        0xC6u8 => Instruction { name: "SET 0,(HL)".to_owned(), opcode: 0xC6, micro_ops: vec![MicroOp::ReadMemory(r16::HL, r8::Z), MicroOp::WriteSetMem(0u8, r16::HL, r8::Z), MicroOp::Noop] },
        0xC7u8 => Instruction { name: "SET 0,A".to_owned(), opcode: 0xC7, micro_ops: vec![MicroOp::SetBit(0u8, r8::A)] },
        0xC8u8 => Instruction { name: "SET 1,B".to_owned(), opcode: 0xC8, micro_ops: vec![MicroOp::SetBit(1u8, r8::B)] },
        0xC9u8 => Instruction { name: "SET 1,C".to_owned(), opcode: 0xC9, micro_ops: vec![MicroOp::SetBit(1u8, r8::C)] },
        0xCAu8 => Instruction { name: "SET 1,D".to_owned(), opcode: 0xCA, micro_ops: vec![MicroOp::SetBit(1u8, r8::D)] },
        0xCBu8 => Instruction { name: "SET 1,E".to_owned(), opcode: 0xCB, micro_ops: vec![MicroOp::SetBit(1u8, r8::E)] },
        0xCCu8 => Instruction { name: "SET 1,H".to_owned(), opcode: 0xCC, micro_ops: vec![MicroOp::SetBit(1u8, r8::H)] },
        0xCDu8 => Instruction { name: "SET 1,L".to_owned(), opcode: 0xCD, micro_ops: vec![MicroOp::SetBit(1u8, r8::L)] },
        0xCEu8 => Instruction { name: "SET 1,(HL)".to_owned(), opcode: 0xCE, micro_ops: vec![MicroOp::ReadMemory(r16::HL, r8::Z), MicroOp::WriteSetMem(1u8, r16::HL, r8::Z), MicroOp::Noop] },
        0xCFu8 => Instruction { name: "SET 1,A".to_owned(), opcode: 0xCF, micro_ops: vec![MicroOp::SetBit(1u8, r8::A)] },
        0xD0u8 => Instruction { name: "SET 2,B".to_owned(), opcode: 0xD0, micro_ops: vec![MicroOp::SetBit(2u8, r8::B)] },
        0xD1u8 => Instruction { name: "SET 2,C".to_owned(), opcode: 0xD1, micro_ops: vec![MicroOp::SetBit(2u8, r8::C)] },
        0xD2u8 => Instruction { name: "SET 2,D".to_owned(), opcode: 0xD2, micro_ops: vec![MicroOp::SetBit(2u8, r8::D)] },
        0xD3u8 => Instruction { name: "SET 2,E".to_owned(), opcode: 0xD3, micro_ops: vec![MicroOp::SetBit(2u8, r8::E)] },
        0xD4u8 => Instruction { name: "SET 2,H".to_owned(), opcode: 0xD4, micro_ops: vec![MicroOp::SetBit(2u8, r8::H)] },
        0xD5u8 => Instruction { name: "SET 2,L".to_owned(), opcode: 0xD5, micro_ops: vec![MicroOp::SetBit(2u8, r8::L)] },
        0xD6u8 => Instruction { name: "SET 2,(HL)".to_owned(), opcode: 0xD6, micro_ops: vec![MicroOp::ReadMemory(r16::HL, r8::Z), MicroOp::WriteSetMem(2u8, r16::HL, r8::Z), MicroOp::Noop] },
        0xD7u8 => Instruction { name: "SET 2,A".to_owned(), opcode: 0xD7, micro_ops: vec![MicroOp::SetBit(2u8, r8::A)] },
        0xD8u8 => Instruction { name: "SET 3,B".to_owned(), opcode: 0xD8, micro_ops: vec![MicroOp::SetBit(3u8, r8::B)] },
        0xD9u8 => Instruction { name: "SET 3,C".to_owned(), opcode: 0xD9, micro_ops: vec![MicroOp::SetBit(3u8, r8::C)] },
        0xDAu8 => Instruction { name: "SET 3,D".to_owned(), opcode: 0xDA, micro_ops: vec![MicroOp::SetBit(3u8, r8::D)] },
        0xDBu8 => Instruction { name: "SET 3,E".to_owned(), opcode: 0xDB, micro_ops: vec![MicroOp::SetBit(3u8, r8::E)] },
        0xDCu8 => Instruction { name: "SET 3,H".to_owned(), opcode: 0xDC, micro_ops: vec![MicroOp::SetBit(3u8, r8::H)] },
        0xDDu8 => Instruction { name: "SET 3,L".to_owned(), opcode: 0xDD, micro_ops: vec![MicroOp::SetBit(3u8, r8::L)] },
        0xDEu8 => Instruction { name: "SET 3,(HL)".to_owned(), opcode: 0xDE, micro_ops: vec![MicroOp::ReadMemory(r16::HL, r8::Z), MicroOp::WriteSetMem(3u8, r16::HL, r8::Z), MicroOp::Noop] },
        0xDFu8 => Instruction { name: "SET 3,A".to_owned(), opcode: 0xDF, micro_ops: vec![MicroOp::SetBit(3u8, r8::A)] },
        0xE0u8 => Instruction { name: "SET 4,B".to_owned(), opcode: 0xE0, micro_ops: vec![MicroOp::SetBit(4u8, r8::B)] },
        0xE1u8 => Instruction { name: "SET 4,C".to_owned(), opcode: 0xE1, micro_ops: vec![MicroOp::SetBit(4u8, r8::C)] },
        0xE2u8 => Instruction { name: "SET 4,D".to_owned(), opcode: 0xE2, micro_ops: vec![MicroOp::SetBit(4u8, r8::D)] },
        0xE3u8 => Instruction { name: "SET 4,E".to_owned(), opcode: 0xE3, micro_ops: vec![MicroOp::SetBit(4u8, r8::E)] },
        0xE4u8 => Instruction { name: "SET 4,H".to_owned(), opcode: 0xE4, micro_ops: vec![MicroOp::SetBit(4u8, r8::H)] },
        0xE5u8 => Instruction { name: "SET 4,L".to_owned(), opcode: 0xE5, micro_ops: vec![MicroOp::SetBit(4u8, r8::L)] },
        0xE6u8 => Instruction { name: "SET 4,(HL)".to_owned(), opcode: 0xE6, micro_ops: vec![MicroOp::ReadMemory(r16::HL, r8::Z), MicroOp::WriteSetMem(4u8, r16::HL, r8::Z), MicroOp::Noop] },
        0xE7u8 => Instruction { name: "SET 4,A".to_owned(), opcode: 0xE7, micro_ops: vec![MicroOp::SetBit(4u8, r8::A)] },
        0xE8u8 => Instruction { name: "SET 5,B".to_owned(), opcode: 0xE8, micro_ops: vec![MicroOp::SetBit(5u8, r8::B)] },
        0xE9u8 => Instruction { name: "SET 5,C".to_owned(), opcode: 0xE9, micro_ops: vec![MicroOp::SetBit(5u8, r8::C)] },
        0xEAu8 => Instruction { name: "SET 5,D".to_owned(), opcode: 0xEA, micro_ops: vec![MicroOp::SetBit(5u8, r8::D)] },
        0xEBu8 => Instruction { name: "SET 5,E".to_owned(), opcode: 0xEB, micro_ops: vec![MicroOp::SetBit(5u8, r8::E)] },
        0xECu8 => Instruction { name: "SET 5,H".to_owned(), opcode: 0xEC, micro_ops: vec![MicroOp::SetBit(5u8, r8::H)] },
        0xEDu8 => Instruction { name: "SET 5,L".to_owned(), opcode: 0xED, micro_ops: vec![MicroOp::SetBit(5u8, r8::L)] },
        0xEEu8 => Instruction { name: "SET 5,(HL)".to_owned(), opcode: 0xEE, micro_ops: vec![MicroOp::ReadMemory(r16::HL, r8::Z), MicroOp::WriteSetMem(5u8, r16::HL, r8::Z), MicroOp::Noop] },
        0xEFu8 => Instruction { name: "SET 5,A".to_owned(), opcode: 0xEF, micro_ops: vec![MicroOp::SetBit(5u8, r8::A)] },
        0xF0u8 => Instruction { name: "SET 6,B".to_owned(), opcode: 0xF0, micro_ops: vec![MicroOp::SetBit(6u8, r8::B)] },
        0xF1u8 => Instruction { name: "SET 6,C".to_owned(), opcode: 0xF1, micro_ops: vec![MicroOp::SetBit(6u8, r8::C)] },
        0xF2u8 => Instruction { name: "SET 6,D".to_owned(), opcode: 0xF2, micro_ops: vec![MicroOp::SetBit(6u8, r8::D)] },
        0xF3u8 => Instruction { name: "SET 6,E".to_owned(), opcode: 0xF3, micro_ops: vec![MicroOp::SetBit(6u8, r8::E)] },
        0xF4u8 => Instruction { name: "SET 6,H".to_owned(), opcode: 0xF4, micro_ops: vec![MicroOp::SetBit(6u8, r8::H)] },
        0xF5u8 => Instruction { name: "SET 6,L".to_owned(), opcode: 0xF5, micro_ops: vec![MicroOp::SetBit(6u8, r8::L)] },
        0xF6u8 => Instruction { name: "SET 6,(HL)".to_owned(), opcode: 0xF6, micro_ops: vec![MicroOp::ReadMemory(r16::HL, r8::Z), MicroOp::WriteSetMem(6u8, r16::HL, r8::Z), MicroOp::Noop] },
        0xF7u8 => Instruction { name: "SET 6,A".to_owned(), opcode: 0xF7, micro_ops: vec![MicroOp::SetBit(6u8, r8::A)] },
        0xF8u8 => Instruction { name: "SET 7,B".to_owned(), opcode: 0xF8, micro_ops: vec![MicroOp::SetBit(7u8, r8::B)] },
        0xF9u8 => Instruction { name: "SET 7,C".to_owned(), opcode: 0xF9, micro_ops: vec![MicroOp::SetBit(7u8, r8::C)] },
        0xFAu8 => Instruction { name: "SET 7,D".to_owned(), opcode: 0xFA, micro_ops: vec![MicroOp::SetBit(7u8, r8::D)] },
        0xFBu8 => Instruction { name: "SET 7,E".to_owned(), opcode: 0xFB, micro_ops: vec![MicroOp::SetBit(7u8, r8::E)] },
        0xFCu8 => Instruction { name: "SET 7,H".to_owned(), opcode: 0xFC, micro_ops: vec![MicroOp::SetBit(7u8, r8::H)] },
        0xFDu8 => Instruction { name: "SET 7,L".to_owned(), opcode: 0xFD, micro_ops: vec![MicroOp::SetBit(7u8, r8::L)] },
        0xFEu8 => Instruction { name: "SET 7,(HL)".to_owned(), opcode: 0xFE, micro_ops: vec![MicroOp::ReadMemory(r16::HL, r8::Z), MicroOp::WriteSetMem(7u8, r16::HL, r8::Z), MicroOp::Noop] },
        0xFFu8 => Instruction { name: "SET 7,A".to_owned(), opcode: 0xFF, micro_ops: vec![MicroOp::SetBit(7u8, r8::A)] },
    }
}

/// The 256 entries of the CB-prefixed opcode table, entry `i` for opcode `i`.
pub fn build_cb_instructions() -> (r: Vec<Instruction>)
    ensures
        r@.len() == 256,
        forall|i: int|
            #![trigger r@[i]]
            0 <= i < 256 ==> {
                &&& r@[i].opcode == i
                &&& r@[i].micro_ops@ == cb_micro_ops(i as u8)
                &&& r@[i].name@ == cb_name(i as u8)
            },
{
    let mut table: Vec<Instruction> = Vec::new();
    let mut opcode: u16 = 0;
    while opcode < 256
        invariant
            opcode <= 256,
            table@.len() == opcode,
            forall|i: int|
                #![trigger table@[i]]
                0 <= i < opcode ==> {
                    &&& table@[i].opcode == i
                    &&& table@[i].micro_ops@ == cb_micro_ops(i as u8)
                    &&& table@[i].name@ == cb_name(i as u8)
                },
        decreases 256 - opcode,
    {
        table.push(cb_instruction(opcode as u8));
        opcode = opcode + 1;
    }
    table
}

/// Fetches the byte after the 0xCB prefix at PC, steps PC, and starts the cycles of
/// that CB opcode.
pub open spec fn after_decode_cb(s: MicroState) -> MicroState {
    let pc = s.pair(r16::PC as int);
    let cb_opcode = s.mem(pc);
    s.set_pair(r16::PC as int, add16(pc as int, 1)).set_queue(cb_micro_ops(cb_opcode)).set_op_index(0)
}

impl Cpu {
    /// The cycles of entry `opcode` of the main table (`cb` false) or of the CB table
    /// become the queue; the cycle index is left as it is.
    pub fn queue_from_table(&mut self, cb: bool, opcode: u8)
        requires
            tables_ok(old(self).instructions@, old(self).cb_instructions@),
        ensures
            *final(self) == (Cpu { queue: final(self).queue, queue_len: final(self).queue_len, ..*old(self) }),
            final(self).queue_len <= 8,
            final(self).queue@.take(final(self).queue_len as int) == if cb {
                cb_micro_ops(opcode)
            } else {
                crate::cpu::instructions::main_micro_ops(opcode)
            },
    {
        proof {
            lemma_table_lengths(opcode);
        }
        let n = if cb {
            self.cb_instructions[opcode as usize].micro_ops.len()
        } else {
            self.instructions[opcode as usize].micro_ops.len()
        };
        let ghost ops = if cb {
            cb_micro_ops(opcode)
        } else {
            crate::cpu::instructions::main_micro_ops(opcode)
        };
        let mut i: usize = 0;
        while i < n
            invariant
                n == ops.len(),
                n <= 8,
                i <= n,
                *self == (Cpu { queue: self.queue, ..*old(self) }),
                ops == if cb { cb_micro_ops(opcode) } else { crate::cpu::instructions::main_micro_ops(opcode) },
                tables_ok(old(self).instructions@, old(self).cb_instructions@),
                forall|k: int| 0 <= k < i ==> self.queue@[k] == ops[k],
            decreases n - i,
        {
            let op = if cb {
                self.cb_instructions[opcode as usize].micro_ops[i]
            } else {
                self.instructions[opcode as usize].micro_ops[i]
            };
            self.queue[i] = op;
            i = i + 1;
        }
        self.queue_len = n;
        assert(self.queue@.take(n as int) =~= ops);
    }

    /// Reads the CB opcode at PC, steps PC and starts its cycles.
    pub fn decode_cb(&mut self, bus: &mut Mmu)
        requires
            tables_ok(old(self).instructions@, old(self).cb_instructions@),
        ensures
            micro(*final(self), *final(bus)) == after_decode_cb(micro(*old(self), *old(bus))),
    {
        let pc = self.pair(r16::PC);
        let cb_opcode = bus.read_byte(pc);
        self.set_pair(r16::PC, pc.wrapping_add(1));
        self.queue_from_table(true, cb_opcode);
        self.op_index = 0;
    }
}

} // verus!
