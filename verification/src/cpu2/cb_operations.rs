use vstd::prelude::*;

use crate::cpu2::defines::{r16, r8, add16, Cpu, CpuState, MicroOp};

verus! {

/// The cycles of each opcode that follows the 0xCB prefix.
pub open spec fn cb_opcode_micro_ops(opcode: u8) -> Option<Seq<MicroOp>> {
    match opcode {
        0x00u8 => Some(seq![MicroOp::Rlc(r8::B)]),
        0x01u8 => Some(seq![MicroOp::Rlc(r8::C)]),
        0x02u8 => Some(seq![MicroOp::Rlc(r8::D)]),
        0x03u8 => Some(seq![MicroOp::Rlc(r8::E)]),
        0x04u8 => Some(seq![MicroOp::Rlc(r8::H)]),
        0x05u8 => Some(seq![MicroOp::Rlc(r8::L)]),
        0x06u8 => Some(seq![MicroOp::ReadMemory(r16::HL, r8::Z), MicroOp::WriteRlcMem(r16::HL, r8::Z), MicroOp::Noop]),
        0x07u8 => Some(seq![MicroOp::Rlc(r8::A)]),
        0x08u8 => Some(seq![MicroOp::Rrc(r8::B)]),
        0x09u8 => Some(seq![MicroOp::Rrc(r8::C)]),
        0x0Au8 => Some(seq![MicroOp::Rrc(r8::D)]),
        0x0Bu8 => Some(seq![MicroOp::Rrc(r8::E)]),
        0x0Cu8 => Some(seq![MicroOp::Rrc(r8::H)]),
        0x0Du8 => Some(seq![MicroOp::Rrc(r8::L)]),
        0x0Eu8 => Some(seq![MicroOp::ReadMemory(r16::HL, r8::Z), MicroOp::WriteRrcMem(r16::HL, r8::Z), MicroOp::Noop]),
        0x0Fu8 => Some(seq![MicroOp::Rrc(r8::A)]),
        0x10u8 => Some(seq![MicroOp::Rl(r8::B)]),
        0x11u8 => Some(seq![MicroOp::Rl(r8::C)]),
        0x12u8 => Some(seq![MicroOp::Rl(r8::D)]),
        0x13u8 => Some(seq![MicroOp::Rl(r8::E)]),
        0x14u8 => Some(seq![MicroOp::Rl(r8::H)]),
        0x15u8 => Some(seq![MicroOp::Rl(r8::L)]),
        0x16u8 => Some(seq![MicroOp::ReadMemory(r16::HL, r8::Z), MicroOp::WriteRlMem(r16::HL, r8::Z), MicroOp::Noop]),
        0x17u8 => Some(seq![MicroOp::Rl(r8::A)]),
        0x18u8 => Some(seq![MicroOp::Rr(r8::B)]),
        0x19u8 => Some(seq![MicroOp::Rr(r8::C)]),
        0x1Au8 => Some(seq![MicroOp::Rr(r8::D)]),
        0x1Bu8 => Some(seq![MicroOp::Rr(r8::E)]),
        0x1Cu8 => Some(seq![MicroOp::Rr(r8::H)]),
        0x1Du8 => Some(seq![MicroOp::Rr(r8::L)]),
        0x1Eu8 => Some(seq![MicroOp::ReadMemory(r16::HL, r8::Z), MicroOp::WriteRrMem(r16::HL, r8::Z), MicroOp::Noop]),
        0x1Fu8 => Some(seq![MicroOp::Rr(r8::A)]),
        0x20u8 => Some(seq![MicroOp::Sla(r8::B)]),
        0x21u8 => Some(seq![MicroOp::Sla(r8::C)]),
        0x22u8 => Some(seq![MicroOp::Sla(r8::D)]),
        0x23u8 => Some(seq![MicroOp::Sla(r8::E)]),
        0x24u8 => Some(seq![MicroOp::Sla(r8::H)]),
        0x25u8 => Some(seq![MicroOp::Sla(r8::L)]),
        0x26u8 => Some(seq![MicroOp::ReadMemory(r16::HL, r8::Z), MicroOp::WriteSlaMem(r16::HL, r8::Z), MicroOp::Noop]),
        0x27u8 => Some(seq![MicroOp::Sla(r8::A)]),
        0x28u8 => Some(seq![MicroOp::Sra(r8::B)]),
        0x29u8 => Some(seq![MicroOp::Sra(r8::C)]),
        0x2Au8 => Some(seq![MicroOp::Sra(r8::D)]),
        0x2Bu8 => Some(seq![MicroOp::Sra(r8::E)]),
        0x2Cu8 => Some(seq![MicroOp::Sra(r8::H)]),
        0x2Du8 => Some(seq![MicroOp::Sra(r8::L)]),
        0x2Eu8 => Some(seq![MicroOp::ReadMemory(r16::HL, r8::Z), MicroOp::WriteSraMem(r16::HL, r8::Z), MicroOp::Noop]),
        0x2Fu8 => Some(seq![MicroOp::Sra(r8::A)]),
        0x30u8 => Some(seq![MicroOp::Swap(r8::B)]),
        0x31u8 => Some(seq![MicroOp::Swap(r8::C)]),
        0x32u8 => Some(seq![MicroOp::Swap(r8::D)]),
        0x33u8 => Some(seq![MicroOp::Swap(r8::E)]),
        0x34u8 => Some(seq![MicroOp::Swap(r8::H)]),
        0x35u8 => Some(seq![MicroOp::Swap(r8::L)]),
        0x36u8 => Some(seq![MicroOp::ReadMemory(r16::HL, r8::Z), MicroOp::WriteSwapMem(r16::HL, r8::Z), MicroOp::Noop]),
        0x37u8 => Some(seq![MicroOp::Swap(r8::A)]),
        0x38u8 => Some(seq![MicroOp::Srl(r8::B)]),
        0x39u8 => Some(seq![MicroOp::Srl(r8::C)]),
        0x3Au8 => Some(seq![MicroOp::Srl(r8::D)]),
        0x3Bu8 => Some(seq![MicroOp::Srl(r8::E)]),
        0x3Cu8 => Some(seq![MicroOp::Srl(r8::H)]),
        0x3Du8 => Some(seq![MicroOp::Srl(r8::L)]),
        0x3Eu8 => Some(seq![MicroOp::ReadMemory(r16::HL, r8::Z), MicroOp::WriteSrlMem(r16::HL, r8::Z), MicroOp::Noop]),
        0x3Fu8 => Some(seq![MicroOp::Srl(r8::A)]),
        0x40u8 => Some(seq![MicroOp::TestBit(0u8, r8::B)]),
        0x41u8 => Some(seq![MicroOp::TestBit(0u8, r8::C)]),
        0x42u8 => Some(seq![MicroOp::TestBit(0u8, r8::D)]),
        0x43u8 => Some(seq![MicroOp::TestBit(0u8, r8::E)]),
        0x44u8 => Some(seq![MicroOp::TestBit(0u8, r8::H)]),
        0x45u8 => Some(seq![MicroOp::TestBit(0u8, r8::L)]),
        0x46u8 => Some(seq![MicroOp::ReadMemory(r16::HL, r8::Z), MicroOp::TestBit(0u8, r8::Z)]),
        0x47u8 => Some(seq![MicroOp::TestBit(0u8, r8::A)]),
        0x48u8 => Some(seq![MicroOp::TestBit(1u8, r8::B)]),
        0x49u8 => Some(seq![MicroOp::TestBit(1u8, r8::C)]),
        0x4Au8 => Some(seq![MicroOp::TestBit(1u8, r8::D)]),
        0x4Bu8 => Some(seq![MicroOp::TestBit(1u8, r8::E)]),
        0x4Cu8 => Some(seq![MicroOp::TestBit(1u8, r8::H)]),
        0x4Du8 => Some(seq![MicroOp::TestBit(1u8, r8::L)]),
        0x4Eu8 => Some(seq![MicroOp::ReadMemory(r16::HL, r8::Z), MicroOp::TestBit(1u8, r8::Z)]),
        0x4Fu8 => Some(seq![MicroOp::TestBit(1u8, r8::A)]),
        0x50u8 => Some(seq![MicroOp::TestBit(2u8, r8::B)]),
        0x51u8 => Some(seq![MicroOp::TestBit(2u8, r8::C)]),
        0x52u8 => Some(seq![MicroOp::TestBit(2u8, r8::D)]),
        0x53u8 => Some(seq![MicroOp::TestBit(2u8, r8::E)]),
        0x54u8 => Some(seq![MicroOp::TestBit(2u8, r8::H)]),
        0x55u8 => Some(seq![MicroOp::TestBit(2u8, r8::L)]),
        0x56u8 => Some(seq![MicroOp::ReadMemory(r16::HL, r8::Z), MicroOp::TestBit(2u8, r8::Z)]),
        0x57u8 => Some(seq![MicroOp::TestBit(2u8, r8::A)]),
        0x58u8 => Some(seq![MicroOp::TestBit(3u8, r8::B)]),
        0x59u8 => Some(seq![MicroOp::TestBit(3u8, r8::C)]),
        0x5Au8 => Some(seq![MicroOp::TestBit(3u8, r8::D)]),
        0x5Bu8 => Some(seq![MicroOp::TestBit(3u8, r8::E)]),
        0x5Cu8 => Some(seq![MicroOp::TestBit(3u8, r8::H)]),
        0x5Du8 => Some(seq![MicroOp::TestBit(3u8, r8::L)]),
        0x5Eu8 => Some(seq![MicroOp::ReadMemory(r16::HL, r8::Z), MicroOp::TestBit(3u8, r8::Z)]),
        0x5Fu8 => Some(seq![MicroOp::TestBit(3u8, r8::A)]),
        0x60u8 => Some(seq![MicroOp::TestBit(4u8, r8::B)]),
        0x61u8 => Some(seq![MicroOp::TestBit(4u8, r8::C)]),
        0x62u8 => Some(seq![MicroOp::TestBit(4u8, r8::D)]),
        0x63u8 => Some(seq![MicroOp::TestBit(4u8, r8::E)]),
        0x64u8 => Some(seq![MicroOp::TestBit(4u8, r8::H)]),
        0x65u8 => Some(seq![MicroOp::TestBit(4u8, r8::L)]),
        0x66u8 => Some(seq![MicroOp::ReadMemory(r16::HL, r8::Z), MicroOp::TestBit(4u8, r8::Z)]),
        0x67u8 => Some(seq![MicroOp::TestBit(4u8, r8::A)]),
        0x68u8 => Some(seq![MicroOp::TestBit(5u8, r8::B)]),
        0x69u8 => Some(seq![MicroOp::TestBit(5u8, r8::C)]),
        0x6Au8 => Some(seq![MicroOp::TestBit(5u8, r8::D)]),
        0x6Bu8 => Some(seq![MicroOp::TestBit(5u8, r8::E)]),
        0x6Cu8 => Some(seq![MicroOp::TestBit(5u8, r8::H)]),
        0x6Du8 => Some(seq![MicroOp::TestBit(5u8, r8::L)]),
        0x6Eu8 => Some(seq![MicroOp::ReadMemory(r16::HL, r8::Z), MicroOp::TestBit(5u8, r8::Z)]),
        0x6Fu8 => Some(seq![MicroOp::TestBit(5u8, r8::A)]),
        0x70u8 => Some(seq![MicroOp::TestBit(6u8, r8::B)]),
        0x71u8 => Some(seq![MicroOp::TestBit(6u8, r8::C)]),
        0x72u8 => Some(seq![MicroOp::TestBit(6u8, r8::D)]),
        0x73u8 => Some(seq![MicroOp::TestBit(6u8, r8::E)]),
        0x74u8 => Some(seq![MicroOp::TestBit(6u8, r8::H)]),
        0x75u8 => Some(seq![MicroOp::TestBit(6u8, r8::L)]),
        0x76u8 => Some(seq![MicroOp::ReadMemory(r16::HL, r8::Z), MicroOp::TestBit(6u8, r8::Z)]),
        0x77u8 => Some(seq![MicroOp::TestBit(6u8, r8::A)]),
        0x78u8 => Some(seq![MicroOp::TestBit(7u8, r8::B)]),
        0x79u8 => Some(seq![MicroOp::TestBit(7u8, r8::C)]),
        0x7Au8 => Some(seq![MicroOp::TestBit(7u8, r8::D)]),
        0x7Bu8 => Some(seq![MicroOp::TestBit(7u8, r8::E)]),
        0x7Cu8 => Some(seq![MicroOp::TestBit(7u8, r8::H)]),
        0x7Du8 => Some(seq![MicroOp::TestBit(7u8, r8::L)]),
        0x7Eu8 => Some(seq![MicroOp::ReadMemory(r16::HL, r8::Z), MicroOp::TestBit(7u8, r8::Z)]),
        0x7Fu8 => Some(seq![MicroOp::TestBit(7u8, r8::A)]),
        0x80u8 => Some(seq![MicroOp::ResBit(0u8, r8::B)]),
        0x81u8 => Some(seq![MicroOp::ResBit(0u8, r8::C)]),
        0x82u8 => Some(seq![MicroOp::ResBit(0u8, r8::D)]),
        0x83u8 => Some(seq![MicroOp::ResBit(0u8, r8::E)]),
        0x84u8 => Some(seq![MicroOp::ResBit(0u8, r8::H)]),
        0x85u8 => Some(seq![MicroOp::ResBit(0u8, r8::L)]),
        0x86u8 => Some(seq![MicroOp::ReadMemory(r16::HL, r8::Z), MicroOp::WriteResMem(0u8, r16::HL, r8::Z), MicroOp::ResBit(0u8, r8::Z)]),
        0x87u8 => Some(seq![MicroOp::ResBit(0u8, r8::A)]),
        0x88u8 => Some(seq![MicroOp::ResBit(1u8, r8::B)]),
        0x89u8 => Some(seq![MicroOp::ResBit(1u8, r8::C)]),
        0x8Au8 => Some(seq![MicroOp::ResBit(1u8, r8::D)]),
        0x8Bu8 => Some(seq![MicroOp::ResBit(1u8, r8::E)]),
        0x8Cu8 => Some(seq![MicroOp::ResBit(1u8, r8::H)]),
        0x8Du8 => Some(seq![MicroOp::ResBit(1u8, r8::L)]),
        0x8Eu8 => Some(seq![MicroOp::ReadMemory(r16::HL, r8::Z), MicroOp::WriteResMem(1u8, r16::HL, r8::Z), MicroOp::Noop]),
        0x8Fu8 => Some(seq![MicroOp::ResBit(1u8, r8::A)]),
        0x90u8 => Some(seq![MicroOp::ResBit(2u8, r8::B)]),
        0x91u8 => Some(seq![MicroOp::ResBit(2u8, r8::C)]),
        0x92u8 => Some(seq![MicroOp::ResBit(2u8, r8::D)]),
        0x93u8 => Some(seq![MicroOp::ResBit(2u8, r8::E)]),
        0x94u8 => Some(seq![MicroOp::ResBit(2u8, r8::H)]),
        0x95u8 => Some(seq![MicroOp::ResBit(2u8, r8::L)]),
        0x96u8 => Some(seq![MicroOp::ReadMemory(r16::HL, r8::Z), MicroOp::WriteResMem(2u8, r16::HL, r8::Z), MicroOp::Noop]),
        0x97u8 => Some(seq![MicroOp::ResBit(2u8, r8::A)]),
        0x98u8 => Some(seq![MicroOp::ResBit(3u8, r8::B)]),
        0x99u8 => Some(seq![MicroOp::ResBit(3u8, r8::C)]),
        0x9Au8 => Some(seq![MicroOp::ResBit(3u8, r8::D)]),
        0x9Bu8 => Some(seq![MicroOp::ResBit(3u8, r8::E)]),
        0x9Cu8 => Some(seq![MicroOp::ResBit(3u8, r8::H)]),
        0x9Du8 => Some(seq![MicroOp::ResBit(3u8, r8::L)]),
        0x9Eu8 => Some(seq![MicroOp::ReadMemory(r16::HL, r8::Z), MicroOp::WriteResMem(3u8, r16::HL, r8::Z), MicroOp::Noop]),
        0x9Fu8 => Some(seq![MicroOp::ResBit(3u8, r8::A)]),
        0xA0u8 => Some(seq![MicroOp::ResBit(4u8, r8::B)]),
        0xA1u8 => Some(seq![MicroOp::ResBit(4u8, r8::C)]),
        0xA2u8 => Some(seq![MicroOp::ResBit(4u8, r8::D)]),
        0xA3u8 => Some(seq![MicroOp::ResBit(4u8, r8::E)]),
        0xA4u8 => Some(seq![MicroOp::ResBit(4u8, r8::H)]),
        0xA5u8 => Some(seq![MicroOp::ResBit(4u8, r8::L)]),
        0xA6u8 => Some(seq![MicroOp::ReadMemory(r16::HL, r8::Z), MicroOp::WriteResMem(4u8, r16::HL, r8::Z), MicroOp::Noop]),
        0xA7u8 => Some(seq![MicroOp::ResBit(4u8, r8::A)]),
        0xA8u8 => Some(seq![MicroOp::ResBit(5u8, r8::B)]),
        0xA9u8 => Some(seq![MicroOp::ResBit(5u8, r8::C)]),
        0xAAu8 => Some(seq![MicroOp::ResBit(5u8, r8::D)]),
        0xABu8 => Some(seq![MicroOp::ResBit(5u8, r8::E)]),
        0xACu8 => Some(seq![MicroOp::ResBit(5u8, r8::H)]),
        0xADu8 => Some(seq![MicroOp::ResBit(5u8, r8::L)]),
        0xAEu8 => Some(seq![MicroOp::ReadMemory(r16::HL, r8::Z), MicroOp::WriteResMem(5u8, r16::HL, r8::Z), MicroOp::Noop]),
        0xAFu8 => Some(seq![MicroOp::ResBit(5u8, r8::A)]),
        0xB0u8 => Some(seq![MicroOp::ResBit(6u8, r8::B)]),
        0xB1u8 => Some(seq![MicroOp::ResBit(6u8, r8::C)]),
        0xB2u8 => Some(seq![MicroOp::ResBit(6u8, r8::D)]),
        0xB3u8 => Some(seq![MicroOp::ResBit(6u8, r8::E)]),
        0xB4u8 => Some(seq![MicroOp::ResBit(6u8, r8::H)]),
        0xB5u8 => Some(seq![MicroOp::ResBit(6u8, r8::L)]),
        0xB6u8 => Some(seq![MicroOp::ReadMemory(r16::HL, r8::Z), MicroOp::WriteResMem(6u8, r16::HL, r8::Z), MicroOp::Noop]),
        0xB7u8 => Some(seq![MicroOp::ResBit(6u8, r8::A)]),
        0xB8u8 => Some(seq![MicroOp::ResBit(7u8, r8::B)]),
        0xB9u8 => Some(seq![MicroOp::ResBit(7u8, r8::C)]),
        0xBAu8 => Some(seq![MicroOp::ResBit(7u8, r8::D)]),
        0xBBu8 => Some(seq![MicroOp::ResBit(7u8, r8::E)]),
        0xBCu8 => Some(seq![MicroOp::ResBit(7u8, r8::H)]),
        0xBDu8 => Some(seq![MicroOp::ResBit(7u8, r8::L)]),
        0xBEu8 => Some(seq![MicroOp::ReadMemory(r16::HL, r8::Z), MicroOp::WriteResMem(7u8, r16::HL, r8::Z), MicroOp::Noop]),
        0xBFu8 => Some(seq![MicroOp::ResBit(7u8, r8::A)]),
        0xC0u8 => Some(seq![MicroOp::SetBit(0u8, r8::B)]),
        0xC1u8 => Some(seq![MicroOp::SetBit(0u8, r8::C)]),
        0xC2u8 => Some(seq![MicroOp::SetBit(0u8, r8::D)]),
        0xC3u8 => Some(seq![MicroOp::SetBit(0u8, r8::E)]),
        0xC4u8 => Some(seq![MicroOp::SetBit(0u8, r8::H)]),
        0xC5u8 => Some(seq![MicroOp::SetBit(0u8, r8::L)]),
        0xC6u8 => Some(seq![MicroOp::ReadMemory(r16::HL, r8::Z), MicroOp::WriteSetMem(0u8, r16::HL, r8::Z), MicroOp::Noop]),
        0xC7u8 => Some(seq![MicroOp::SetBit(0u8, r8::A)]),
        0xC8u8 => Some(seq![MicroOp::SetBit(1u8, r8::B)]),
        0xC9u8 => Some(seq![MicroOp::SetBit(1u8, r8::C)]),
        0xCAu8 => Some(seq![MicroOp::SetBit(1u8, r8::D)]),
        0xCBu8 => Some(seq![MicroOp::SetBit(1u8, r8::E)]),
        0xCCu8 => Some(seq![MicroOp::SetBit(1u8, r8::H)]),
        0xCDu8 => Some(seq![MicroOp::SetBit(1u8, r8::L)]),
        0xCEu8 => Some(seq![MicroOp::ReadMemory(r16::HL, r8::Z), MicroOp::WriteSetMem(1u8, r16::HL, r8::Z), MicroOp::Noop]),
        0xCFu8 => Some(seq![MicroOp::SetBit(1u8, r8::A)]),
        0xD0u8 => Some(seq![MicroOp::SetBit(2u8, r8::B)]),
        0xD1u8 => Some(seq![MicroOp::SetBit(2u8, r8::C)]),
        0xD2u8 => Some(seq![MicroOp::SetBit(2u8, r8::D)]),
        0xD3u8 => Some(seq![MicroOp::SetBit(2u8, r8::E)]),
        0xD4u8 => Some(seq![MicroOp::SetBit(2u8, r8::H)]),
        0xD5u8 => Some(seq![MicroOp::SetBit(2u8, r8::L)]),
        0xD6u8 => Some(seq![MicroOp::ReadMemory(r16::HL, r8::Z), MicroOp::WriteSetMem(2u8, r16::HL, r8::Z), MicroOp::Noop]),
        0xD7u8 => Some(seq![MicroOp::SetBit(2u8, r8::A)]),
        0xD8u8 => Some(seq![MicroOp::SetBit(3u8, r8::B)]),
        0xD9u8 => Some(seq![MicroOp::SetBit(3u8, r8::C)]),
        0xDAu8 => Some(seq![MicroOp::SetBit(3u8, r8::D)]),
        0xDBu8 => Some(seq![MicroOp::SetBit(3u8, r8::E)]),
        0xDCu8 => Some(seq![MicroOp::SetBit(3u8, r8::H)]),
        0xDDu8 => Some(seq![MicroOp::SetBit(3u8, r8::L)]),
        0xDEu8 => Some(seq![MicroOp::ReadMemory(r16::HL, r8::Z), MicroOp::WriteSetMem(3u8, r16::HL, r8::Z), MicroOp::Noop]),
        0xDFu8 => Some(seq![MicroOp::SetBit(3u8, r8::A)]),
        0xE0u8 => Some(seq![MicroOp::SetBit(4u8, r8::B)]),
        0xE1u8 => Some(seq![MicroOp::SetBit(4u8, r8::C)]),
        0xE2u8 => Some(seq![MicroOp::SetBit(4u8, r8::D)]),
        0xE3u8 => Some(seq![MicroOp::SetBit(4u8, r8::E)]),
        0xE4u8 => Some(seq![MicroOp::SetBit(4u8, r8::H)]),
        0xE5u8 => Some(seq![MicroOp::SetBit(4u8, r8::L)]),
        0xE6u8 => Some(seq![MicroOp::ReadMemory(r16::HL, r8::Z), MicroOp::WriteSetMem(4u8, r16::HL, r8::Z), MicroOp::Noop]),
        0xE7u8 => Some(seq![MicroOp::SetBit(4u8, r8::A)]),
        0xE8u8 => Some(seq![MicroOp::SetBit(5u8, r8::B)]),
        0xE9u8 => Some(seq![MicroOp::SetBit(5u8, r8::C)]),
        0xEAu8 => Some(seq![MicroOp::SetBit(5u8, r8::D)]),
        0xEBu8 => Some(seq![MicroOp::SetBit(5u8, r8::E)]),
        0xECu8 => Some(seq![MicroOp::SetBit(5u8, r8::H)]),
        0xEDu8 => Some(seq![MicroOp::SetBit(5u8, r8::L)]),
        0xEEu8 => Some(seq![MicroOp::ReadMemory(r16::HL, r8::Z), MicroOp::WriteSetMem(5u8, r16::HL, r8::Z), MicroOp::Noop]),
        0xEFu8 => Some(seq![MicroOp::SetBit(5u8, r8::A)]),
        0xF0u8 => Some(seq![MicroOp::SetBit(6u8, r8::B)]),
        0xF1u8 => Some(seq![MicroOp::SetBit(6u8, r8::C)]),
        0xF2u8 => Some(seq![MicroOp::SetBit(6u8, r8::D)]),
        0xF3u8 => Some(seq![MicroOp::SetBit(6u8, r8::E)]),
        0xF4u8 => Some(seq![MicroOp::SetBit(6u8, r8::H)]),
        0xF5u8 => Some(seq![MicroOp::SetBit(6u8, r8::L)]),
        0xF6u8 => Some(seq![MicroOp::ReadMemory(r16::HL, r8::Z), MicroOp::WriteSetMem(6u8, r16::HL, r8::Z), MicroOp::Noop]),
        0xF7u8 => Some(seq![MicroOp::SetBit(6u8, r8::A)]),
        0xF8u8 => Some(seq![MicroOp::SetBit(7u8, r8::B)]),
        0xF9u8 => Some(seq![MicroOp::SetBit(7u8, r8::C)]),
        0xFAu8 => Some(seq![MicroOp::SetBit(7u8, r8::D)]),
        0xFBu8 => Some(seq![MicroOp::SetBit(7u8, r8::E)]),
        0xFCu8 => Some(seq![MicroOp::SetBit(7u8, r8::H)]),
        0xFDu8 => Some(seq![MicroOp::SetBit(7u8, r8::L)]),
        0xFEu8 => Some(seq![MicroOp::ReadMemory(r16::HL, r8::Z), MicroOp::WriteSetMem(7u8, r16::HL, r8::Z), MicroOp::Noop]),
        0xFFu8 => Some(seq![MicroOp::SetBit(7u8, r8::A)]),
    }
}

/// The cycles of the CB-prefixed `opcode`; every opcode has an entry.
pub fn cb_dispatch(opcode: u8) -> (r: Option<Vec<MicroOp>>)
    ensures
        cb_opcode_micro_ops(opcode) is Some,
        r is Some,
        r->0@ == cb_opcode_micro_ops(opcode)->0,
{
    match opcode {
        0x00u8 => Some(vec![MicroOp::Rlc(r8::B)]),
        0x01u8 => Some(vec![MicroOp::Rlc(r8::C)]),
        0x02u8 => Some(vec![MicroOp::Rlc(r8::D)]),
        0x03u8 => Some(vec![MicroOp::Rlc(r8::E)]),
        0x04u8 => Some(vec![MicroOp::Rlc(r8::H)]),
        0x05u8 => Some(vec![MicroOp::Rlc(r8::L)]),
        0x06u8 => Some(vec![MicroOp::ReadMemory(r16::HL, r8::Z), MicroOp::WriteRlcMem(r16::HL, r8::Z), MicroOp::Noop]),
        0x07u8 => Some(vec![MicroOp::Rlc(r8::A)]),
        0x08u8 => Some(vec![MicroOp::Rrc(r8::B)]),
        0x09u8 => Some(vec![MicroOp::Rrc(r8::C)]),
        0x0Au8 => Some(vec![MicroOp::Rrc(r8::D)]),
        0x0Bu8 => Some(vec![MicroOp::Rrc(r8::E)]),
        0x0Cu8 => Some(vec![MicroOp::Rrc(r8::H)]),
        0x0Du8 => Some(vec![MicroOp::Rrc(r8::L)]),
        0x0Eu8 => Some(vec![MicroOp::ReadMemory(r16::HL, r8::Z), MicroOp::WriteRrcMem(r16::HL, r8::Z), MicroOp::Noop]),
        0x0Fu8 => Some(vec![MicroOp::Rrc(r8::A)]),
        0x10u8 => Some(vec![MicroOp::Rl(r8::B)]),
        0x11u8 => Some(vec![MicroOp::Rl(r8::C)]),
        0x12u8 => Some(vec![MicroOp::Rl(r8::D)]),
        0x13u8 => Some(vec![MicroOp::Rl(r8::E)]),
        0x14u8 => Some(vec![MicroOp::Rl(r8::H)]),
        0x15u8 => Some(vec![MicroOp::Rl(r8::L)]),
        0x16u8 => Some(vec![MicroOp::ReadMemory(r16::HL, r8::Z), MicroOp::WriteRlMem(r16::HL, r8::Z), MicroOp::Noop]),
        0x17u8 => Some(vec![MicroOp::Rl(r8::A)]),
        0x18u8 => Some(vec![MicroOp::Rr(r8::B)]),
        0x19u8 => Some(vec![MicroOp::Rr(r8::C)]),
        0x1Au8 => Some(vec![MicroOp::Rr(r8::D)]),
        0x1Bu8 => Some(vec![MicroOp::Rr(r8::E)]),
        0x1Cu8 => Some(vec![MicroOp::Rr(r8::H)]),
        0x1Du8 => Some(vec![MicroOp::Rr(r8::L)]),
        0x1Eu8 => Some(vec![MicroOp::ReadMemory(r16::HL, r8::Z), MicroOp::WriteRrMem(r16::HL, r8::Z), MicroOp::Noop]),
        0x1Fu8 => Some(vec![MicroOp::Rr(r8::A)]),
        0x20u8 => Some(vec![MicroOp::Sla(r8::B)]),
        0x21u8 => Some(vec![MicroOp::Sla(r8::C)]),
        0x22u8 => Some(vec![MicroOp::Sla(r8::D)]),
        0x23u8 => Some(vec![MicroOp::Sla(r8::E)]),
        0x24u8 => Some(vec![MicroOp::Sla(r8::H)]),
        0x25u8 => Some(vec![MicroOp::Sla(r8::L)]),
        0x26u8 => Some(vec![MicroOp::ReadMemory(r16::HL, r8::Z), MicroOp::WriteSlaMem(r16::HL, r8::Z), MicroOp::Noop]),
        0x27u8 => Some(vec![MicroOp::Sla(r8::A)]),
        0x28u8 => Some(vec![MicroOp::Sra(r8::B)]),
        0x29u8 => Some(vec![MicroOp::Sra(r8::C)]),
        0x2Au8 => Some(vec![MicroOp::Sra(r8::D)]),
        0x2Bu8 => Some(vec![MicroOp::Sra(r8::E)]),
        0x2Cu8 => Some(vec![MicroOp::Sra(r8::H)]),
        0x2Du8 => Some(vec![MicroOp::Sra(r8::L)]),
        0x2Eu8 => Some(vec![MicroOp::ReadMemory(r16::HL, r8::Z), MicroOp::WriteSraMem(r16::HL, r8::Z), MicroOp::Noop]),
        0x2Fu8 => Some(vec![MicroOp::Sra(r8::A)]),
        0x30u8 => Some(vec![MicroOp::Swap(r8::B)]),
        0x31u8 => Some(vec![MicroOp::Swap(r8::C)]),
        0x32u8 => Some(vec![MicroOp::Swap(r8::D)]),
        0x33u8 => Some(vec![MicroOp::Swap(r8::E)]),
        0x34u8 => Some(vec![MicroOp::Swap(r8::H)]),
        0x35u8 => Some(vec![MicroOp::Swap(r8::L)]),
        0x36u8 => Some(vec![MicroOp::ReadMemory(r16::HL, r8::Z), MicroOp::WriteSwapMem(r16::HL, r8::Z), MicroOp::Noop]),
        0x37u8 => Some(vec![MicroOp::Swap(r8::A)]),
        0x38u8 => Some(vec![MicroOp::Srl(r8::B)]),
        0x39u8 => Some(vec![MicroOp::Srl(r8::C)]),
        0x3Au8 => Some(vec![MicroOp::Srl(r8::D)]),
        0x3Bu8 => Some(vec![MicroOp::Srl(r8::E)]),
        0x3Cu8 => Some(vec![MicroOp::Srl(r8::H)]),
        0x3Du8 => Some(vec![MicroOp::Srl(r8::L)]),
        0x3Eu8 => Some(vec![MicroOp::ReadMemory(r16::HL, r8::Z), MicroOp::WriteSrlMem(r16::HL, r8::Z), MicroOp::Noop]),
        0x3Fu8 => Some(vec![MicroOp::Srl(r8::A)]),
        0x40u8 => Some(vec![MicroOp::TestBit(0u8, r8::B)]),
        0x41u8 => Some(vec![MicroOp::TestBit(0u8, r8::C)]),
        0x42u8 => Some(vec![MicroOp::TestBit(0u8, r8::D)]),
        0x43u8 => Some(vec![MicroOp::TestBit(0u8, r8::E)]),
        0x44u8 => Some(vec![MicroOp::TestBit(0u8, r8::H)]),
        0x45u8 => Some(vec![MicroOp::TestBit(0u8, r8::L)]),
        0x46u8 => Some(vec![MicroOp::ReadMemory(r16::HL, r8::Z), MicroOp::TestBit(0u8, r8::Z)]),
        0x47u8 => Some(vec![MicroOp::TestBit(0u8, r8::A)]),
        0x48u8 => Some(vec![MicroOp::TestBit(1u8, r8::B)]),
        0x49u8 => Some(vec![MicroOp::TestBit(1u8, r8::C)]),
        0x4Au8 => Some(vec![MicroOp::TestBit(1u8, r8::D)]),
        0x4Bu8 => Some(vec![MicroOp::TestBit(1u8, r8::E)]),
        0x4Cu8 => Some(vec![MicroOp::TestBit(1u8, r8::H)]),
        0x4Du8 => Some(vec![MicroOp::TestBit(1u8, r8::L)]),
        0x4Eu8 => Some(vec![MicroOp::ReadMemory(r16::HL, r8::Z), MicroOp::TestBit(1u8, r8::Z)]),
        0x4Fu8 => Some(vec![MicroOp::TestBit(1u8, r8::A)]),
        0x50u8 => Some(vec![MicroOp::TestBit(2u8, r8::B)]),
        0x51u8 => Some(vec![MicroOp::TestBit(2u8, r8::C)]),
        0x52u8 => Some(vec![MicroOp::TestBit(2u8, r8::D)]),
        0x53u8 => Some(vec![MicroOp::TestBit(2u8, r8::E)]),
        0x54u8 => Some(vec![MicroOp::TestBit(2u8, r8::H)]),
        0x55u8 => Some(vec![MicroOp::TestBit(2u8, r8::L)]),
        0x56u8 => Some(vec![MicroOp::ReadMemory(r16::HL, r8::Z), MicroOp::TestBit(2u8, r8::Z)]),
        0x57u8 => Some(vec![MicroOp::TestBit(2u8, r8::A)]),
        0x58u8 => Some(vec![MicroOp::TestBit(3u8, r8::B)]),
        0x59u8 => Some(vec![MicroOp::TestBit(3u8, r8::C)]),
        0x5Au8 => Some(vec![MicroOp::TestBit(3u8, r8::D)]),
        0x5Bu8 => Some(vec![MicroOp::TestBit(3u8, r8::E)]),
        0x5Cu8 => Some(vec![MicroOp::TestBit(3u8, r8::H)]),
        0x5Du8 => Some(vec![MicroOp::TestBit(3u8, r8::L)]),
        0x5Eu8 => Some(vec![MicroOp::ReadMemory(r16::HL, r8::Z), MicroOp::TestBit(3u8, r8::Z)]),
        0x5Fu8 => Some(vec![MicroOp::TestBit(3u8, r8::A)]),
        0x60u8 => Some(vec![MicroOp::TestBit(4u8, r8::B)]),
        0x61u8 => Some(vec![MicroOp::TestBit(4u8, r8::C)]),
        0x62u8 => Some(vec![MicroOp::TestBit(4u8, r8::D)]),
        0x63u8 => Some(vec![MicroOp::TestBit(4u8, r8::E)]),
        0x64u8 => Some(vec![MicroOp::TestBit(4u8, r8::H)]),
        0x65u8 => Some(vec![MicroOp::TestBit(4u8, r8::L)]),
        0x66u8 => Some(vec![MicroOp::ReadMemory(r16::HL, r8::Z), MicroOp::TestBit(4u8, r8::Z)]),
        0x67u8 => Some(vec![MicroOp::TestBit(4u8, r8::A)]),
        0x68u8 => Some(vec![MicroOp::TestBit(5u8, r8::B)]),
        0x69u8 => Some(vec![MicroOp::TestBit(5u8, r8::C)]),
        0x6Au8 => Some(vec![MicroOp::TestBit(5u8, r8::D)]),
        0x6Bu8 => Some(vec![MicroOp::TestBit(5u8, r8::E)]),
        0x6Cu8 => Some(vec![MicroOp::TestBit(5u8, r8::H)]),
        0x6Du8 => Some(vec![MicroOp::TestBit(5u8, r8::L)]),
        0x6Eu8 => Some(vec![MicroOp::ReadMemory(r16::HL, r8::Z), MicroOp::TestBit(5u8, r8::Z)]),
        0x6Fu8 => Some(vec![MicroOp::TestBit(5u8, r8::A)]),
        0x70u8 => Some(vec![MicroOp::TestBit(6u8, r8::B)]),
        0x71u8 => Some(vec![MicroOp::TestBit(6u8, r8::C)]),
        0x72u8 => Some(vec![MicroOp::TestBit(6u8, r8::D)]),
        0x73u8 => Some(vec![MicroOp::TestBit(6u8, r8::E)]),
        0x74u8 => Some(vec![MicroOp::TestBit(6u8, r8::H)]),
        0x75u8 => Some(vec![MicroOp::TestBit(6u8, r8::L)]),
        0x76u8 => Some(vec![MicroOp::ReadMemory(r16::HL, r8::Z), MicroOp::TestBit(6u8, r8::Z)]),
        0x77u8 => Some(vec![MicroOp::TestBit(6u8, r8::A)]),
        0x78u8 => Some(vec![MicroOp::TestBit(7u8, r8::B)]),
        0x79u8 => Some(vec![MicroOp::TestBit(7u8, r8::C)]),
        0x7Au8 => Some(vec![MicroOp::TestBit(7u8, r8::D)]),
        0x7Bu8 => Some(vec![MicroOp::TestBit(7u8, r8::E)]),
        0x7Cu8 => Some(vec![MicroOp::TestBit(7u8, r8::H)]),
        0x7Du8 => Some(vec![MicroOp::TestBit(7u8, r8::L)]),
        0x7Eu8 => Some(vec![MicroOp::ReadMemory(r16::HL, r8::Z), MicroOp::TestBit(7u8, r8::Z)]),
        0x7Fu8 => Some(vec![MicroOp::TestBit(7u8, r8::A)]),
        0x80u8 => Some(vec![MicroOp::ResBit(0u8, r8::B)]),
        0x81u8 => Some(vec![MicroOp::ResBit(0u8, r8::C)]),
        0x82u8 => Some(vec![MicroOp::ResBit(0u8, r8::D)]),
        0x83u8 => Some(vec![MicroOp::ResBit(0u8, r8::E)]),
        0x84u8 => Some(vec![MicroOp::ResBit(0u8, r8::H)]),
        0x85u8 => Some(vec![MicroOp::ResBit(0u8, r8::L)]),
        0x86u8 => Some(vec![MicroOp::ReadMemory(r16::HL, r8::Z), MicroOp::WriteResMem(0u8, r16::HL, r8::Z), MicroOp::ResBit(0u8, r8::Z)]),
        0x87u8 => Some(vec![MicroOp::ResBit(0u8, r8::A)]),
        0x88u8 => Some(vec![MicroOp::ResBit(1u8, r8::B)]),
        0x89u8 => Some(vec![MicroOp::ResBit(1u8, r8::C)]),
        0x8Au8 => Some(vec![MicroOp::ResBit(1u8, r8::D)]),
        0x8Bu8 => Some(vec![MicroOp::ResBit(1u8, r8::E)]),
        0x8Cu8 => Some(vec![MicroOp::ResBit(1u8, r8::H)]),
        0x8Du8 => Some(vec![MicroOp::ResBit(1u8, r8::L)]),
        0x8Eu8 => Some(vec![MicroOp::ReadMemory(r16::HL, r8::Z), MicroOp::WriteResMem(1u8, r16::HL, r8::Z), MicroOp::Noop]),
        0x8Fu8 => Some(vec![MicroOp::ResBit(1u8, r8::A)]),
        0x90u8 => Some(vec![MicroOp::ResBit(2u8, r8::B)]),
        0x91u8 => Some(vec![MicroOp::ResBit(2u8, r8::C)]),
        0x92u8 => Some(vec![MicroOp::ResBit(2u8, r8::D)]),
        0x93u8 => Some(vec![MicroOp::ResBit(2u8, r8::E)]),
        0x94u8 => Some(vec![MicroOp::ResBit(2u8, r8::H)]),
        0x95u8 => Some(vec![MicroOp::ResBit(2u8, r8::L)]),
        0x96u8 => Some(vec![MicroOp::ReadMemory(r16::HL, r8::Z), MicroOp::WriteResMem(2u8, r16::HL, r8::Z), MicroOp::Noop]),
        0x97u8 => Some(vec![MicroOp::ResBit(2u8, r8::A)]),
        0x98u8 => Some(vec![MicroOp::ResBit(3u8, r8::B)]),
        0x99u8 => Some(vec![MicroOp::ResBit(3u8, r8::C)]),
        0x9Au8 => Some(vec![MicroOp::ResBit(3u8, r8::D)]),
        0x9Bu8 => Some(vec![MicroOp::ResBit(3u8, r8::E)]),
        0x9Cu8 => Some(vec![MicroOp::ResBit(3u8, r8::H)]),
        0x9Du8 => Some(vec![MicroOp::ResBit(3u8, r8::L)]),
        0x9Eu8 => Some(vec![MicroOp::ReadMemory(r16::HL, r8::Z), MicroOp::WriteResMem(3u8, r16::HL, r8::Z), MicroOp::Noop]),
        0x9Fu8 => Some(vec![MicroOp::ResBit(3u8, r8::A)]),
        0xA0u8 => Some(vec![MicroOp::ResBit(4u8, r8::B)]),
        0xA1u8 => Some(vec![MicroOp::ResBit(4u8, r8::C)]),
        0xA2u8 => Some(vec![MicroOp::ResBit(4u8, r8::D)]),
        0xA3u8 => Some(vec![MicroOp::ResBit(4u8, r8::E)]),
        0xA4u8 => Some(vec![MicroOp::ResBit(4u8, r8::H)]),
        0xA5u8 => Some(vec![MicroOp::ResBit(4u8, r8::L)]),
        0xA6u8 => Some(vec![MicroOp::ReadMemory(r16::HL, r8::Z), MicroOp::WriteResMem(4u8, r16::HL, r8::Z), MicroOp::Noop]),
        0xA7u8 => Some(vec![MicroOp::ResBit(4u8, r8::A)]),
        0xA8u8 => Some(vec![MicroOp::ResBit(5u8, r8::B)]),
        0xA9u8 => Some(vec![MicroOp::ResBit(5u8, r8::C)]),
        0xAAu8 => Some(vec![MicroOp::ResBit(5u8, r8::D)]),
        0xABu8 => Some(vec![MicroOp::ResBit(5u8, r8::E)]),
        0xACu8 => Some(vec![MicroOp::ResBit(5u8, r8::H)]),
        0xADu8 => Some(vec![MicroOp::ResBit(5u8, r8::L)]),
        0xAEu8 => Some(vec![MicroOp::ReadMemory(r16::HL, r8::Z), MicroOp::WriteResMem(5u8, r16::HL, r8::Z), MicroOp::Noop]),
        0xAFu8 => Some(vec![MicroOp::ResBit(5u8, r8::A)]),
        0xB0u8 => Some(vec![MicroOp::ResBit(6u8, r8::B)]),
        0xB1u8 => Some(vec![MicroOp::ResBit(6u8, r8::C)]),
        0xB2u8 => Some(vec![MicroOp::ResBit(6u8, r8::D)]),
        0xB3u8 => Some(vec![MicroOp::ResBit(6u8, r8::E)]),
        0xB4u8 => Some(vec![MicroOp::ResBit(6u8, r8::H)]),
        0xB5u8 => Some(vec![MicroOp::ResBit(6u8, r8::L)]),
        0xB6u8 => Some(vec![MicroOp::ReadMemory(r16::HL, r8::Z), MicroOp::WriteResMem(6u8, r16::HL, r8::Z), MicroOp::Noop]),
        0xB7u8 => Some(vec![MicroOp::ResBit(6u8, r8::A)]),
        0xB8u8 => Some(vec![MicroOp::ResBit(7u8, r8::B)]),
        0xB9u8 => Some(vec![MicroOp::ResBit(7u8, r8::C)]),
        0xBAu8 => Some(vec![MicroOp::ResBit(7u8, r8::D)]),
        0xBBu8 => Some(vec![MicroOp::ResBit(7u8, r8::E)]),
        0xBCu8 => Some(vec![MicroOp::ResBit(7u8, r8::H)]),
        0xBDu8 => Some(vec![MicroOp::ResBit(7u8, r8::L)]),
        0xBEu8 => Some(vec![MicroOp::ReadMemory(r16::HL, r8::Z), MicroOp::WriteResMem(7u8, r16::HL, r8::Z), MicroOp::Noop]),
        0xBFu8 => Some(vec![MicroOp::ResBit(7u8, r8::A)]),
        0xC0u8 => Some(vec![MicroOp::SetBit(0u8, r8::B)]),
        0xC1u8 => Some(vec![MicroOp::SetBit(0u8, r8::C)]),
        0xC2u8 => Some(vec![MicroOp::SetBit(0u8, r8::D)]),
        0xC3u8 => Some(vec![MicroOp::SetBit(0u8, r8::E)]),
        0xC4u8 => Some(vec![MicroOp::SetBit(0u8, r8::H)]),
        0xC5u8 => Some(vec![MicroOp::SetBit(0u8, r8::L)]),
        0xC6u8 => Some(vec![MicroOp::ReadMemory(r16::HL, r8::Z), MicroOp::WriteSetMem(0u8, r16::HL, r8::Z), MicroOp::Noop]),
        0xC7u8 => Some(vec![MicroOp::SetBit(0u8, r8::A)]),
        0xC8u8 => Some(vec![MicroOp::SetBit(1u8, r8::B)]),
        0xC9u8 => Some(vec![MicroOp::SetBit(1u8, r8::C)]),
        0xCAu8 => Some(vec![MicroOp::SetBit(1u8, r8::D)]),
        0xCBu8 => Some(vec![MicroOp::SetBit(1u8, r8::E)]),
        0xCCu8 => Some(vec![MicroOp::SetBit(1u8, r8::H)]),
        0xCDu8 => Some(vec![MicroOp::SetBit(1u8, r8::L)]),
        0xCEu8 => Some(vec![MicroOp::ReadMemory(r16::HL, r8::Z), MicroOp::WriteSetMem(1u8, r16::HL, r8::Z), MicroOp::Noop]),
        0xCFu8 => Some(vec![MicroOp::SetBit(1u8, r8::A)]),
        0xD0u8 => Some(vec![MicroOp::SetBit(2u8, r8::B)]),
        0xD1u8 => Some(vec![MicroOp::SetBit(2u8, r8::C)]),
        0xD2u8 => Some(vec![MicroOp::SetBit(2u8, r8::D)]),
        0xD3u8 => Some(vec![MicroOp::SetBit(2u8, r8::E)]),
        0xD4u8 => Some(vec![MicroOp::SetBit(2u8, r8::H)]),
        0xD5u8 => Some(vec![MicroOp::SetBit(2u8, r8::L)]),
        0xD6u8 => Some(vec![MicroOp::ReadMemory(r16::HL, r8::Z), MicroOp::WriteSetMem(2u8, r16::HL, r8::Z), MicroOp::Noop]),
        0xD7u8 => Some(vec![MicroOp::SetBit(2u8, r8::A)]),
        0xD8u8 => Some(vec![MicroOp::SetBit(3u8, r8::B)]),
        0xD9u8 => Some(vec![MicroOp::SetBit(3u8, r8::C)]),
        0xDAu8 => Some(vec![MicroOp::SetBit(3u8, r8::D)]),
        0xDBu8 => Some(vec![MicroOp::SetBit(3u8, r8::E)]),
        0xDCu8 => Some(vec![MicroOp::SetBit(3u8, r8::H)]),
        0xDDu8 => Some(vec![MicroOp::SetBit(3u8, r8::L)]),
        0xDEu8 => Some(vec![MicroOp::ReadMemory(r16::HL, r8::Z), MicroOp::WriteSetMem(3u8, r16::HL, r8::Z), MicroOp::Noop]),
        0xDFu8 => Some(vec![MicroOp::SetBit(3u8, r8::A)]),
        0xE0u8 => Some(vec![MicroOp::SetBit(4u8, r8::B)]),
        0xE1u8 => Some(vec![MicroOp::SetBit(4u8, r8::C)]),
        0xE2u8 => Some(vec![MicroOp::SetBit(4u8, r8::D)]),
        0xE3u8 => Some(vec![MicroOp::SetBit(4u8, r8::E)]),
        0xE4u8 => Some(vec![MicroOp::SetBit(4u8, r8::H)]),
        0xE5u8 => Some(vec![MicroOp::SetBit(4u8, r8::L)]),
        0xE6u8 => Some(vec![MicroOp::ReadMemory(r16::HL, r8::Z), MicroOp::WriteSetMem(4u8, r16::HL, r8::Z), MicroOp::Noop]),
        0xE7u8 => Some(vec![MicroOp::SetBit(4u8, r8::A)]),
        0xE8u8 => Some(vec![MicroOp::SetBit(5u8, r8::B)]),
        0xE9u8 => Some(vec![MicroOp::SetBit(5u8, r8::C)]),
        0xEAu8 => Some(vec![MicroOp::SetBit(5u8, r8::D)]),
        0xEBu8 => Some(vec![MicroOp::SetBit(5u8, r8::E)]),
        0xECu8 => Some(vec![MicroOp::SetBit(5u8, r8::H)]),
        0xEDu8 => Some(vec![MicroOp::SetBit(5u8, r8::L)]),
        0xEEu8 => Some(vec![MicroOp::ReadMemory(r16::HL, r8::Z), MicroOp::WriteSetMem(5u8, r16::HL, r8::Z), MicroOp::Noop]),
        0xEFu8 => Some(vec![MicroOp::SetBit(5u8, r8::A)]),
        0xF0u8 => Some(vec![MicroOp::SetBit(6u8, r8::B)]),
        0xF1u8 => Some(vec![MicroOp::SetBit(6u8, r8::C)]),
        0xF2u8 => Some(vec![MicroOp::SetBit(6u8, r8::D)]),
        0xF3u8 => Some(vec![MicroOp::SetBit(6u8, r8::E)]),
        0xF4u8 => Some(vec![MicroOp::SetBit(6u8, r8::H)]),
        0xF5u8 => Some(vec![MicroOp::SetBit(6u8, r8::L)]),
        0xF6u8 => Some(vec![MicroOp::ReadMemory(r16::HL, r8::Z), MicroOp::WriteSetMem(6u8, r16::HL, r8::Z), MicroOp::Noop]),
        0xF7u8 => Some(vec![MicroOp::SetBit(6u8, r8::A)]),
        0xF8u8 => Some(vec![MicroOp::SetBit(7u8, r8::B)]),
        0xF9u8 => Some(vec![MicroOp::SetBit(7u8, r8::C)]),
        0xFAu8 => Some(vec![MicroOp::SetBit(7u8, r8::D)]),
        0xFBu8 => Some(vec![MicroOp::SetBit(7u8, r8::E)]),
        0xFCu8 => Some(vec![MicroOp::SetBit(7u8, r8::H)]),
        0xFDu8 => Some(vec![MicroOp::SetBit(7u8, r8::L)]),
        0xFEu8 => Some(vec![MicroOp::ReadMemory(r16::HL, r8::Z), MicroOp::WriteSetMem(7u8, r16::HL, r8::Z), MicroOp::Noop]),
        0xFFu8 => Some(vec![MicroOp::SetBit(7u8, r8::A)]),
    }
}

/// Fetches the byte after the 0xCB prefix and loads its cycles.
pub open spec fn after_decode_cb(s: CpuState) -> CpuState {
    let pc = s.pair(r16::PC as int);
    let cb_opcode = s.instructions_list[pc as int];
    s.set_pair(r16::PC as int, add16(pc as int, 1)).set_queue(cb_opcode_micro_ops(cb_opcode)->0).set_op_index(0)
}

/// Reads the CB opcode at PC from the program, steps PC and starts its cycles.
pub fn decode_cb(cpu: &mut Cpu)
    requires
        (old(cpu)@.pair(r16::PC as int) as int) < old(cpu)@.instructions_list.len(),
    ensures
        final(cpu)@ == after_decode_cb(old(cpu)@),
{
    let pc = cpu.pair(r16::PC);
    let cb_opcode = cpu.instructions_list[pc as usize];
    cpu.set_pair(r16::PC, pc.wrapping_add(1));
    cpu.queue = cb_dispatch(cb_opcode).unwrap();
    cpu.op_index = 0;
}

} // verus!
