use vstd::prelude::*;

use crate::cpu2::defines::{r16, r8, CondKind, Instruction, MicroOp};

verus! {

/// The cycles of each opcode of the main table; `None` for the opcodes it leaves out.
pub open spec fn opcode_micro_ops(opcode: u8) -> Option<Seq<MicroOp>> {
    match opcode {
        0x00u8 => Some(seq![MicroOp::Noop]),
        0x01u8 => Some(seq![MicroOp::ReadMemoryIncr(r16::PC, r8::Z), MicroOp::ReadMemoryIncr(r16::PC, r8::W), MicroOp::LoadR16R16(r16::BC, r16::WZ)]),
        0x02u8 => Some(seq![MicroOp::WriteMemory(r16::BC, r8::A), MicroOp::Noop]),
        0x03u8 => Some(seq![MicroOp::IncR16(r16::BC), MicroOp::Noop]),
        0x04u8 => Some(seq![MicroOp::IncR8(r8::B)]),
        0x05u8 => Some(seq![MicroOp::DecR8(r8::B)]),
        0x06u8 => Some(seq![MicroOp::ReadMemoryIncr(r16::PC, r8::Z), MicroOp::LoadR8R8(r8::B, r8::Z)]),
        0x07u8 => Some(seq![MicroOp::Rlca]),
        0x08u8 => Some(seq![MicroOp::ReadMemoryIncr(r16::PC, r8::Z), MicroOp::ReadMemoryIncr(r16::PC, r8::W), MicroOp::WriteMemoryIncr(r16::WZ, r8::P), MicroOp::WriteMemoryIncr(r16::WZ, r8::S), MicroOp::Noop]),
        0x09u8 => Some(seq![MicroOp::AddR8R8NoZeroFlag(r8::C, r8::L), MicroOp::AddR8R8WithCarryAndNoZeroFlag(r8::B, r8::H)]),
        0x0Au8 => Some(seq![MicroOp::ReadMemory(r16::BC, r8::Z), MicroOp::LoadR8R8(r8::A, r8::Z)]),
        0x0Bu8 => Some(seq![MicroOp::DecR16(r16::BC), MicroOp::Noop]),
        0x0Cu8 => Some(seq![MicroOp::IncR8(r8::C)]),
        0x0Du8 => Some(seq![MicroOp::DecR8(r8::C)]),
        0x0Eu8 => Some(seq![MicroOp::ReadMemoryIncr(r16::PC, r8::Z), MicroOp::LoadR8R8(r8::C, r8::Z)]),
        0x0Fu8 => Some(seq![MicroOp::Rrca]),
        0x10u8 => Some(seq![MicroOp::Noop]),
        0x11u8 => Some(seq![MicroOp::ReadMemoryIncr(r16::PC, r8::Z), MicroOp::ReadMemoryIncr(r16::PC, r8::W), MicroOp::LoadR16R16(r16::DE, r16::WZ)]),
        0x12u8 => Some(seq![MicroOp::WriteMemory(r16::DE, r8::A), MicroOp::Noop]),
        0x13u8 => Some(seq![MicroOp::IncR16(r16::DE), MicroOp::Noop]),
        0x14u8 => Some(seq![MicroOp::IncR8(r8::D)]),
        0x15u8 => Some(seq![MicroOp::DecR8(r8::D)]),
        0x16u8 => Some(seq![MicroOp::ReadMemoryIncr(r16::PC, r8::Z), MicroOp::LoadR8R8(r8::D, r8::Z)]),
        0x17u8 => Some(seq![MicroOp::Rla]),
        0x18u8 => Some(seq![MicroOp::ReadMemoryIncr(r16::PC, r8::Z), MicroOp::RelativeJump, MicroOp::Noop]),
        0x19u8 => Some(seq![MicroOp::AddR8R8NoZeroFlag(r8::E, r8::L), MicroOp::AddR8R8WithCarryAndNoZeroFlag(r8::D, r8::H)]),
        0x1Au8 => Some(seq![MicroOp::ReadMemory(r16::DE, r8::Z), MicroOp::LoadR8R8(r8::A, r8::Z)]),
        0x1Bu8 => Some(seq![MicroOp::DecR16(r16::DE), MicroOp::Noop]),
        0x1Cu8 => Some(seq![MicroOp::IncR8(r8::E)]),
        0x1Du8 => Some(seq![MicroOp::DecR8(r8::E)]),
        0x1Eu8 => Some(seq![MicroOp::ReadMemoryIncr(r16::PC, r8::Z), MicroOp::LoadR8R8(r8::E, r8::Z)]),
        0x1Fu8 => Some(seq![MicroOp::Rra]),
        0x20u8 => Some(seq![MicroOp::ReadMemoryIncr(r16::PC, r8::Z), MicroOp::CheckCond(CondKind::NZ), MicroOp::RelativeJump]),
        0x21u8 => Some(seq![MicroOp::ReadMemoryIncr(r16::PC, r8::Z), MicroOp::ReadMemoryIncr(r16::PC, r8::W), MicroOp::LoadR16R16(r16::HL, r16::WZ)]),
        0x22u8 => Some(seq![MicroOp::WriteMemoryIncr(r16::HL, r8::A), MicroOp::Noop]),
        0x23u8 => Some(seq![MicroOp::IncR16(r16::HL), MicroOp::Noop]),
        0x24u8 => Some(seq![MicroOp::IncR8(r8::H)]),
        0x25u8 => Some(seq![MicroOp::DecR8(r8::H)]),
        0x26u8 => Some(seq![MicroOp::ReadMemoryIncr(r16::PC, r8::Z), MicroOp::LoadR8R8(r8::H, r8::Z)]),
        0x27u8 => Some(seq![MicroOp::Daa]),
        0x28u8 => Some(seq![MicroOp::ReadMemoryIncr(r16::PC, r8::Z), MicroOp::CheckCond(CondKind::Z), MicroOp::RelativeJump]),
        0x29u8 => Some(seq![MicroOp::AddR8R8NoZeroFlag(r8::L, r8::L), MicroOp::AddR8R8WithCarryAndNoZeroFlag(r8::H, r8::H)]),
        0x2Au8 => Some(seq![MicroOp::ReadMemoryIncr(r16::HL, r8::Z), MicroOp::LoadR8R8(r8::A, r8::Z)]),
        0x2Bu8 => Some(seq![MicroOp::DecR16(r16::HL), MicroOp::Noop]),
        0x2Cu8 => Some(seq![MicroOp::IncR8(r8::L)]),
        0x2Du8 => Some(seq![MicroOp::DecR8(r8::L)]),
        0x2Eu8 => Some(seq![MicroOp::ReadMemoryIncr(r16::PC, r8::Z), MicroOp::LoadR8R8(r8::L, r8::Z)]),
        0x2Fu8 => Some(seq![MicroOp::Cpl]),
        0x30u8 => Some(seq![MicroOp::ReadMemoryIncr(r16::PC, r8::Z), MicroOp::CheckCond(CondKind::NC), MicroOp::RelativeJump]),
        0x31u8 => Some(seq![MicroOp::ReadMemoryIncr(r16::PC, r8::Z), MicroOp::ReadMemoryIncr(r16::PC, r8::W), MicroOp::LoadR16R16(r16::SP, r16::WZ)]),
        0x32u8 => Some(seq![MicroOp::WriteMemoryDecr(r16::HL, r8::A), MicroOp::Noop]),
        0x33u8 => Some(seq![MicroOp::IncR16(r16::SP), MicroOp::Noop]),
        0x34u8 => Some(seq![MicroOp::ReadMemory(r16::HL, r8::Z), MicroOp::IncAddr(r16::HL, r8::Z), MicroOp::Noop]),
        0x35u8 => Some(seq![MicroOp::ReadMemory(r16::HL, r8::Z), MicroOp::DecAddr(r16::HL, r8::Z), MicroOp::Noop]),
        0x36u8 => Some(seq![MicroOp::ReadMemoryIncr(r16::PC, r8::Z), MicroOp::WriteMemory(r16::HL, r8::Z), MicroOp::Noop]),
        0x37u8 => Some(seq![MicroOp::Scf]),
        0x38u8 => Some(seq![MicroOp::ReadMemoryIncr(r16::PC, r8::Z), MicroOp::CheckCond(CondKind::C), MicroOp::RelativeJump]),
        0x39u8 => Some(seq![MicroOp::AddR8R8NoZeroFlag(r8::P, r8::L), MicroOp::AddR8R8WithCarryAndNoZeroFlag(r8::S, r8::H)]),
        0x3Au8 => Some(seq![MicroOp::ReadMemoryDecr(r16::HL, r8::Z), MicroOp::LoadR8R8(r8::A, r8::Z)]),
        0x3Bu8 => Some(seq![MicroOp::DecR16(r16::SP), MicroOp::Noop]),
        0x3Cu8 => Some(seq![MicroOp::IncR8(r8::A)]),
        0x3Du8 => Some(seq![MicroOp::DecR8(r8::A)]),
        0x3Eu8 => Some(seq![MicroOp::ReadMemoryIncr(r16::PC, r8::Z), MicroOp::LoadR8R8(r8::A, r8::Z)]),
        0x3Fu8 => Some(seq![MicroOp::Ccf]),
        0x40u8 => Some(seq![MicroOp::LoadR8R8(r8::B, r8::B)]),
        0x41u8 => Some(seq![MicroOp::LoadR8R8(r8::B, r8::C)]),
        0x42u8 => Some(seq![MicroOp::LoadR8R8(r8::B, r8::D)]),
        0x43u8 => Some(seq![MicroOp::LoadR8R8(r8::B, r8::E)]),
        0x44u8 => Some(seq![MicroOp::LoadR8R8(r8::B, r8::H)]),
        0x45u8 => Some(seq![MicroOp::LoadR8R8(r8::B, r8::L)]),
        0x46u8 => Some(seq![MicroOp::ReadMemory(r16::HL, r8::Z), MicroOp::LoadR8R8(r8::B, r8::Z)]),
        0x47u8 => Some(seq![MicroOp::LoadR8R8(r8::B, r8::A)]),
        0x48u8 => Some(seq![MicroOp::LoadR8R8(r8::C, r8::B)]),
        0x49u8 => Some(seq![MicroOp::LoadR8R8(r8::C, r8::C)]),
        0x4Au8 => Some(seq![MicroOp::LoadR8R8(r8::C, r8::D)]),
        0x4Bu8 => Some(seq![MicroOp::LoadR8R8(r8::C, r8::E)]),
        0x4Cu8 => Some(seq![MicroOp::LoadR8R8(r8::C, r8::H)]),
        0x4Du8 => Some(seq![MicroOp::LoadR8R8(r8::C, r8::L)]),
        0x4Eu8 => Some(seq![MicroOp::ReadMemory(r16::HL, r8::Z), MicroOp::LoadR8R8(r8::C, r8::Z)]),
        0x4Fu8 => Some(seq![MicroOp::LoadR8R8(r8::C, r8::A)]),
        0x50u8 => Some(seq![MicroOp::LoadR8R8(r8::D, r8::B)]),
        0x51u8 => Some(seq![MicroOp::LoadR8R8(r8::D, r8::C)]),
        0x52u8 => Some(seq![MicroOp::LoadR8R8(r8::D, r8::D)]),
        0x53u8 => Some(seq![MicroOp::LoadR8R8(r8::D, r8::E)]),
        0x54u8 => Some(seq![MicroOp::LoadR8R8(r8::D, r8::H)]),
        0x55u8 => Some(seq![MicroOp::LoadR8R8(r8::D, r8::L)]),
        0x56u8 => Some(seq![MicroOp::ReadMemory(r16::HL, r8::Z), MicroOp::LoadR8R8(r8::D, r8::Z)]),
        0x57u8 => Some(seq![MicroOp::LoadR8R8(r8::D, r8::A)]),
        0x58u8 => Some(seq![MicroOp::LoadR8R8(r8::E, r8::B)]),
        0x59u8 => Some(seq![MicroOp::LoadR8R8(r8::E, r8::C)]),
        0x5Au8 => Some(seq![MicroOp::LoadR8R8(r8::E, r8::D)]),
        0x5Bu8 => Some(seq![MicroOp::LoadR8R8(r8::E, r8::E)]),
        0x5Cu8 => Some(seq![MicroOp::LoadR8R8(r8::E, r8::H)]),
        0x5Du8 => Some(seq![MicroOp::LoadR8R8(r8::E, r8::L)]),
        0x5Eu8 => Some(seq![MicroOp::ReadMemory(r16::HL, r8::Z), MicroOp::LoadR8R8(r8::E, r8::Z)]),
        0x5Fu8 => Some(seq![MicroOp::LoadR8R8(r8::E, r8::A)]),
        0x60u8 => Some(seq![MicroOp::LoadR8R8(r8::H, r8::B)]),
        0x61u8 => Some(seq![MicroOp::LoadR8R8(r8::H, r8::C)]),
        0x62u8 => Some(seq![MicroOp::LoadR8R8(r8::H, r8::D)]),
        0x63u8 => Some(seq![MicroOp::LoadR8R8(r8::H, r8::E)]),
        0x64u8 => Some(seq![MicroOp::LoadR8R8(r8::H, r8::H)]),
        0x65u8 => Some(seq![MicroOp::LoadR8R8(r8::H, r8::L)]),
        0x66u8 => Some(seq![MicroOp::ReadMemory(r16::HL, r8::Z), MicroOp::LoadR8R8(r8::H, r8::Z)]),
        0x67u8 => Some(seq![MicroOp::LoadR8R8(r8::H, r8::A)]),
        0x68u8 => Some(seq![MicroOp::LoadR8R8(r8::L, r8::B)]),
        0x69u8 => Some(seq![MicroOp::LoadR8R8(r8::L, r8::C)]),
        0x6Au8 => Some(seq![MicroOp::LoadR8R8(r8::L, r8::D)]),
        0x6Bu8 => Some(seq![MicroOp::LoadR8R8(r8::L, r8::E)]),
        0x6Cu8 => Some(seq![MicroOp::LoadR8R8(r8::L, r8::H)]),
        0x6Du8 => Some(seq![MicroOp::LoadR8R8(r8::L, r8::L)]),
        0x6Eu8 => Some(seq![MicroOp::ReadMemory(r16::HL, r8::Z), MicroOp::LoadR8R8(r8::L, r8::Z)]),
        0x6Fu8 => Some(seq![MicroOp::LoadR8R8(r8::L, r8::A)]),
        0x70u8 => Some(seq![MicroOp::WriteMemory(r16::HL, r8::B), MicroOp::Noop]),
        0x71u8 => Some(seq![MicroOp::WriteMemory(r16::HL, r8::C), MicroOp::Noop]),
        0x72u8 => Some(seq![MicroOp::WriteMemory(r16::HL, r8::D), MicroOp::Noop]),
        0x73u8 => Some(seq![MicroOp::WriteMemory(r16::HL, r8::E), MicroOp::Noop]),
        0x74u8 => Some(seq![MicroOp::WriteMemory(r16::HL, r8::H), MicroOp::Noop]),
        0x75u8 => Some(seq![MicroOp::WriteMemory(r16::HL, r8::L), MicroOp::Noop]),
        0x76u8 => Some(seq![MicroOp::Halt]),
        0x77u8 => Some(seq![MicroOp::WriteMemory(r16::HL, r8::A), MicroOp::Noop]),
        0x78u8 => Some(seq![MicroOp::LoadR8R8(r8::A, r8::B)]),
        0x79u8 => Some(seq![MicroOp::LoadR8R8(r8::A, r8::C)]),
        0x7Au8 => Some(seq![MicroOp::LoadR8R8(r8::A, r8::D)]),
        0x7Bu8 => Some(seq![MicroOp::LoadR8R8(r8::A, r8::E)]),
        0x7Cu8 => Some(seq![MicroOp::LoadR8R8(r8::A, r8::H)]),
        0x7Du8 => Some(seq![MicroOp::LoadR8R8(r8::A, r8::L)]),
        0x7Eu8 => Some(seq![MicroOp::ReadMemory(r16::HL, r8::Z), MicroOp::LoadR8R8(r8::A, r8::Z)]),
        0x7Fu8 => Some(seq![MicroOp::LoadR8R8(r8::A, r8::A)]),
        0x80u8 => Some(seq![MicroOp::AddR8R8(r8::B, r8::A)]),
        0x81u8 => Some(seq![MicroOp::AddR8R8(r8::C, r8::A)]),
        0x82u8 => Some(seq![MicroOp::AddR8R8(r8::D, r8::A)]),
        0x83u8 => Some(seq![MicroOp::AddR8R8(r8::E, r8::A)]),
        0x84u8 => Some(seq![MicroOp::AddR8R8(r8::H, r8::A)]),
        0x85u8 => Some(seq![MicroOp::AddR8R8(r8::L, r8::A)]),
        0x86u8 => Some(seq![MicroOp::ReadMemory(r16::HL, r8::Z), MicroOp::AddR8R8(r8::Z, r8::A)]),
        0x87u8 => Some(seq![MicroOp::AddR8R8(r8::A, r8::A)]),
        0x88u8 => Some(seq![MicroOp::AddR8R8WithCarry(r8::B, r8::A)]),
        0x89u8 => Some(seq![MicroOp::AddR8R8WithCarry(r8::C, r8::A)]),
        0x8Au8 => Some(seq![MicroOp::AddR8R8WithCarry(r8::D, r8::A)]),
        0x8Bu8 => Some(seq![MicroOp::AddR8R8WithCarry(r8::E, r8::A)]),
        0x8Cu8 => Some(seq![MicroOp::AddR8R8WithCarry(r8::H, r8::A)]),
        0x8Du8 => Some(seq![MicroOp::AddR8R8WithCarry(r8::L, r8::A)]),
        0x8Eu8 => Some(seq![MicroOp::ReadMemory(r16::HL, r8::Z), MicroOp::AddR8R8WithCarry(r8::Z, r8::A)]),
        0x8Fu8 => Some(seq![MicroOp::AddR8R8WithCarry(r8::A, r8::A)]),
        0x90u8 => Some(seq![MicroOp::SubR8R8(r8::A, r8::B)]),
        0x91u8 => Some(seq![MicroOp::SubR8R8(r8::A, r8::C)]),
        0x92u8 => Some(seq![MicroOp::SubR8R8(r8::A, r8::D)]),
        0x93u8 => Some(seq![MicroOp::SubR8R8(r8::A, r8::E)]),
        0x94u8 => Some(seq![MicroOp::SubR8R8(r8::A, r8::H)]),
        0x95u8 => Some(seq![MicroOp::SubR8R8(r8::A, r8::L)]),
        0x96u8 => Some(seq![MicroOp::ReadMemory(r16::HL, r8::Z), MicroOp::SubR8R8(r8::A, r8::Z)]),
        0x97u8 => Some(seq![MicroOp::SubR8R8(r8::A, r8::A)]),
        0x98u8 => Some(seq![MicroOp::SubR8R8WithCarry(r8::B, r8::A)]),
        0x99u8 => Some(seq![MicroOp::SubR8R8WithCarry(r8::C, r8::A)]),
        0x9Au8 => Some(seq![MicroOp::SubR8R8WithCarry(r8::D, r8::A)]),
        0x9Bu8 => Some(seq![MicroOp::SubR8R8WithCarry(r8::E, r8::A)]),
        0x9Cu8 => Some(seq![MicroOp::SubR8R8WithCarry(r8::H, r8::A)]),
        0x9Du8 => Some(seq![MicroOp::SubR8R8WithCarry(r8::L, r8::A)]),
        0x9Eu8 => Some(seq![MicroOp::ReadMemory(r16::HL, r8::Z), MicroOp::SubR8R8WithCarry(r8::Z, r8::A)]),
        0x9Fu8 => Some(seq![MicroOp::SubR8R8(r8::A, r8::A)]),
        0xA0u8 => Some(seq![MicroOp::AndR8R8(r8::A, r8::B)]),
        0xA1u8 => Some(seq![MicroOp::AndR8R8(r8::A, r8::C)]),
        0xA2u8 => Some(seq![MicroOp::AndR8R8(r8::A, r8::D)]),
        0xA3u8 => Some(seq![MicroOp::AndR8R8(r8::A, r8::E)]),
        0xA4u8 => Some(seq![MicroOp::AndR8R8(r8::A, r8::H)]),
        0xA5u8 => Some(seq![MicroOp::AndR8R8(r8::A, r8::L)]),
        0xA6u8 => Some(seq![MicroOp::ReadMemory(r16::HL, r8::Z), MicroOp::AndR8R8(r8::A, r8::Z)]),
        0xA7u8 => Some(seq![MicroOp::AndR8R8(r8::A, r8::A)]),
        0xA8u8 => Some(seq![MicroOp::XorR8R8(r8::A, r8::B)]),
        0xA9u8 => Some(seq![MicroOp::XorR8R8(r8::A, r8::C)]),
        0xAAu8 => Some(seq![MicroOp::XorR8R8(r8::A, r8::D)]),
        0xABu8 => Some(seq![MicroOp::XorR8R8(r8::A, r8::E)]),
        0xACu8 => Some(seq![MicroOp::XorR8R8(r8::A, r8::H)]),
        0xADu8 => Some(seq![MicroOp::XorR8R8(r8::A, r8::L)]),
        0xAEu8 => Some(seq![MicroOp::ReadMemory(r16::HL, r8::Z), MicroOp::XorR8R8(r8::A, r8::Z)]),
        0xAFu8 => Some(seq![MicroOp::XorR8R8(r8::A, r8::A)]),
        0xB0u8 => Some(seq![MicroOp::OrR8R8(r8::A, r8::B)]),
        0xB1u8 => Some(seq![MicroOp::OrR8R8(r8::A, r8::C)]),
        0xB2u8 => Some(seq![MicroOp::OrR8R8(r8::A, r8::D)]),
        0xB3u8 => Some(seq![MicroOp::OrR8R8(r8::A, r8::E)]),
        0xB4u8 => Some(seq![MicroOp::OrR8R8(r8::A, r8::H)]),
        0xB5u8 => Some(seq![MicroOp::OrR8R8(r8::A, r8::L)]),
        0xB6u8 => Some(seq![MicroOp::ReadMemory(r16::HL, r8::Z), MicroOp::OrR8R8(r8::A, r8::Z)]),
        0xB7u8 => Some(seq![MicroOp::OrR8R8(r8::A, r8::A)]),
        0xB8u8 => Some(seq![MicroOp::CpR8R8(r8::A, r8::B)]),
        0xB9u8 => Some(seq![MicroOp::CpR8R8(r8::A, r8::C)]),
        0xBAu8 => Some(seq![MicroOp::CpR8R8(r8::A, r8::D)]),
        0xBBu8 => Some(seq![MicroOp::CpR8R8(r8::A, r8::E)]),
        0xBCu8 => Some(seq![MicroOp::CpR8R8(r8::A, r8::H)]),
        0xBDu8 => Some(seq![MicroOp::CpR8R8(r8::A, r8::L)]),
        0xBEu8 => Some(seq![MicroOp::ReadMemory(r16::HL, r8::Z), MicroOp::CpR8R8(r8::A, r8::Z)]),
        0xBFu8 => Some(seq![MicroOp::CpR8R8(r8::A, r8::A)]),
        0xC0u8 => Some(seq![MicroOp::CheckCond(CondKind::NZ), MicroOp::ReadMemoryIncr(r16::SP, r8::Z), MicroOp::ReadMemoryIncr(r16::SP, r8::W), MicroOp::LoadR16R16(r16::PC, r16::WZ), MicroOp::Noop]),
        0xC1u8 => Some(seq![MicroOp::ReadMemoryIncr(r16::PC, r8::Z), MicroOp::ReadMemoryIncr(r16::PC, r8::W), MicroOp::LoadR16R16(r16::BC, r16::WZ)]),
        0xC2u8 => Some(seq![MicroOp::ReadMemoryIncr(r16::PC, r8::Z), MicroOp::ReadMemoryIncr(r16::PC, r8::W), MicroOp::CheckCond(CondKind::NZ), MicroOp::LoadR16R16(r16::PC, r16::WZ), MicroOp::Noop]),
        0xC3u8 => Some(seq![MicroOp::ReadMemoryIncr(r16::PC, r8::Z), MicroOp::ReadMemoryIncr(r16::PC, r8::W), MicroOp::LoadR16R16(r16::PC, r16::WZ), MicroOp::Noop]),
        0xC4u8 => Some(seq![MicroOp::ReadMemoryIncr(r16::PC, r8::Z), MicroOp::ReadMemoryIncr(r16::PC, r8::W), MicroOp::DecR16(r16::SP), MicroOp::CheckCond(CondKind::NC), MicroOp::WriteMemoryDecr(r16::SP, r8::PcP), MicroOp::WriteMemoryReassignPc(r16::SP, r8::PcC), MicroOp::Noop]),
        0xC5u8 => Some(seq![MicroOp::DecrementR16(r16::PC), MicroOp::WriteMemoryDecr(r16::SP, r8::B), MicroOp::WriteMemory(r16::SP, r8::C), MicroOp::Noop]),
        0xC6u8 => Some(seq![MicroOp::ReadMemoryIncr(r16::PC, r8::Z), MicroOp::AddR8R8(r8::Z, r8::A)]),
        0xC7u8 => Some(seq![MicroOp::WriteMemoryDecr(r16::SP, r8::PcP), MicroOp::WriteMemoryRst(0x00u16, r16::SP, r8::PcC), MicroOp::LoadR16R16(r16::PC, r16::WZ), MicroOp::Noop]),
        0xC8u8 => Some(seq![MicroOp::CheckCond(CondKind::Z), MicroOp::ReadMemoryIncr(r16::SP, r8::Z), MicroOp::ReadMemoryIncr(r16::SP, r8::W), MicroOp::LoadR16R16(r16::PC, r16::WZ), MicroOp::Noop]),
        0xC9u8 => Some(seq![MicroOp::ReadMemoryIncr(r16::SP, r8::Z), MicroOp::ReadMemoryIncr(r16::SP, r8::W), MicroOp::LoadR16R16(r16::PC, r16::WZ), MicroOp::Noop]),
        0xCAu8 => Some(seq![MicroOp::ReadMemoryIncr(r16::PC, r8::Z), MicroOp::ReadMemoryIncr(r16::PC, r8::W), MicroOp::CheckCond(CondKind::Z), MicroOp::LoadR16R16(r16::PC, r16::WZ), MicroOp::Noop]),
        0xCBu8 => Some(seq![MicroOp::DecodeCb]),
        0xCCu8 => Some(seq![MicroOp::ReadMemoryIncr(r16::PC, r8::Z), MicroOp::ReadMemoryIncr(r16::PC, r8::W), MicroOp::DecR16(r16::SP), MicroOp::CheckCond(CondKind::Z), MicroOp::WriteMemoryDecr(r16::SP, r8::PcP), MicroOp::WriteMemoryReassignPc(r16::SP, r8::PcC), MicroOp::Noop]),
        0xCDu8 => Some(seq![MicroOp::ReadMemoryIncr(r16::PC, r8::Z), MicroOp::ReadMemoryIncr(r16::PC, r8::W), MicroOp::DecR16(r16::SP), MicroOp::WriteMemoryDecr(r16::SP, r8::PcP), MicroOp::WriteMemoryReassignPc(r16::SP, r8::PcC), MicroOp::Noop]),
        0xCEu8 => Some(seq![MicroOp::ReadMemoryIncr(r16::PC, r8::Z), MicroOp::AddR8R8WithCarry(r8::Z, r8::A)]),
        0xCFu8 => Some(seq![MicroOp::WriteMemoryDecr(r16::SP, r8::PcP), MicroOp::WriteMemoryRst(0x08u16, r16::SP, r8::PcC), MicroOp::LoadR16R16(r16::PC, r16::WZ), MicroOp::Noop]),
        0xD0u8 => Some(seq![MicroOp::CheckCond(CondKind::NC), MicroOp::ReadMemoryIncr(r16::SP, r8::Z), MicroOp::ReadMemoryIncr(r16::SP, r8::W), MicroOp::LoadR16R16(r16::PC, r16::WZ), MicroOp::Noop]),
        0xD1u8 => Some(seq![MicroOp::ReadMemoryIncr(r16::PC, r8::Z), MicroOp::ReadMemoryIncr(r16::PC, r8::W), MicroOp::LoadR16R16(r16::DE, r16::WZ)]),
        0xD2u8 => Some(seq![MicroOp::ReadMemoryIncr(r16::PC, r8::Z), MicroOp::ReadMemoryIncr(r16::PC, r8::W), MicroOp::CheckCond(CondKind::NC), MicroOp::LoadR16R16(r16::PC, r16::WZ), MicroOp::Noop]),
        0xD4u8 => Some(seq![MicroOp::ReadMemoryIncr(r16::PC, r8::Z), MicroOp::ReadMemoryIncr(r16::PC, r8::W), MicroOp::DecR16(r16::SP), MicroOp::CheckCond(CondKind::NZ), MicroOp::WriteMemoryDecr(r16::SP, r8::PcP), MicroOp::WriteMemoryReassignPc(r16::SP, r8::PcC), MicroOp::Noop]),
        0xD5u8 => Some(seq![MicroOp::DecrementR16(r16::PC), MicroOp::WriteMemoryDecr(r16::SP, r8::D), MicroOp::WriteMemory(r16::SP, r8::E), MicroOp::Noop]),
        0xD6u8 => Some(seq![MicroOp::ReadMemoryIncr(r16::PC, r8::Z), MicroOp::SubR8R8(r8::A, r8::Z)]),
        0xD7u8 => Some(seq![MicroOp::WriteMemoryDecr(r16::SP, r8::PcP), MicroOp::WriteMemoryRst(0x10u16, r16::SP, r8::PcC), MicroOp::LoadR16R16(r16::PC, r16::WZ), MicroOp::Noop]),
        0xD8u8 => Some(seq![MicroOp::CheckCond(CondKind::C), MicroOp::ReadMemoryIncr(r16::SP, r8::Z), MicroOp::ReadMemoryIncr(r16::SP, r8::W), MicroOp::LoadR16R16(r16::PC, r16::WZ), MicroOp::Noop]),
        0xD9u8 => Some(seq![MicroOp::ReadMemoryIncr(r16::SP, r8::Z), MicroOp::ReadMemoryIncr(r16::SP, r8::W), MicroOp::LoadR16R16AndIme(r16::PC, r16::WZ), MicroOp::Noop]),
        0xDAu8 => Some(seq![MicroOp::ReadMemoryIncr(r16::PC, r8::Z), MicroOp::ReadMemoryIncr(r16::PC, r8::W), MicroOp::CheckCond(CondKind::C), MicroOp::LoadR16R16(r16::PC, r16::WZ), MicroOp::Noop]),
        0xDCu8 => Some(seq![MicroOp::ReadMemoryIncr(r16::PC, r8::Z), MicroOp::ReadMemoryIncr(r16::PC, r8::W), MicroOp::DecR16(r16::SP), MicroOp::CheckCond(CondKind::C), MicroOp::WriteMemoryDecr(r16::SP, r8::PcP), MicroOp::WriteMemoryReassignPc(r16::SP, r8::PcC), MicroOp::Noop]),
        0xDEu8 => Some(seq![MicroOp::ReadMemoryIncr(r16::PC, r8::Z), MicroOp::SubR8R8WithCarry(r8::Z, r8::A)]),
        0xDFu8 => Some(seq![MicroOp::WriteMemoryDecr(r16::SP, r8::PcP), MicroOp::WriteMemoryRst(0x18u16, r16::SP, r8::PcC), MicroOp::LoadR16R16(r16::PC, r16::WZ), MicroOp::Noop]),
        0xE0u8 => Some(seq![MicroOp::ReadMemoryIncr(r16::PC, r8::Z), MicroOp::WriteMemory0xff(r8::Z, r8::A), MicroOp::Noop]),
        0xE1u8 => Some(seq![MicroOp::ReadMemoryIncr(r16::PC, r8::Z), MicroOp::ReadMemoryIncr(r16::PC, r8::W), MicroOp::LoadR16R16(r16::HL, r16::WZ)]),
        0xE2u8 => Some(seq![MicroOp::WriteMemory0xff(r8::C, r8::A), MicroOp::Noop]),
        0xE5u8 => Some(seq![MicroOp::DecrementR16(r16::PC), MicroOp::WriteMemoryDecr(r16::SP, r8::H), MicroOp::WriteMemory(r16::SP, r8::L), MicroOp::Noop]),
        0xE6u8 => Some(seq![MicroOp::ReadMemoryIncr(r16::PC, r8::Z), MicroOp::AndR8R8(r8::A, r8::Z)]),
        0xE7u8 => Some(seq![MicroOp::WriteMemoryDecr(r16::SP, r8::PcP), MicroOp::WriteMemoryRst(0x20u16, r16::SP, r8::PcC), MicroOp::LoadR16R16(r16::PC, r16::WZ), MicroOp::Noop]),
        0xE8u8 => Some(seq![MicroOp::ReadMemoryIncr(r16::PC, r8::Z), MicroOp::AddHlSpELow, MicroOp::AddHlSpEHigh, MicroOp::LoadR16R16(r16::SP, r16::WZ)]),
        0xE9u8 => Some(seq![MicroOp::LoadR16R16(r16::PC, r16::HL)]),
        0xEAu8 => Some(seq![MicroOp::ReadMemoryIncr(r16::PC, r8::Z), MicroOp::ReadMemoryIncr(r16::PC, r8::W), MicroOp::WriteMemory(r16::WZ, r8::A), MicroOp::Noop]),
        0xEEu8 => Some(seq![MicroOp::ReadMemoryIncr(r16::PC, r8::Z), MicroOp::XorR8R8(r8::A, r8::Z)]),
        0xEFu8 => Some(seq![MicroOp::WriteMemoryDecr(r16::SP, r8::PcP), MicroOp::WriteMemoryRst(0x28u16, r16::SP, r8::PcC), MicroOp::LoadR16R16(r16::PC, r16::WZ), MicroOp::Noop]),
        0xF0u8 => Some(seq![MicroOp::ReadMemoryIncr(r16::PC, r8::Z), MicroOp::ReadMemory0xff(r8::Z, r8::A)]),
        0xF1u8 => Some(seq![MicroOp::ReadMemoryIncr(r16::PC, r8::Z), MicroOp::ReadMemoryIncr(r16::PC, r8::W), MicroOp::LoadR16R16(r16::AF, r16::WZ)]),
        0xF2u8 => Some(seq![MicroOp::ReadMemory0xff(r8::C, r8::Z), MicroOp::LoadR8R8(r8::A, r8::Z)]),
        0xF3u8 => Some(seq![MicroOp::SetIme0]),
        0xF5u8 => Some(seq![MicroOp::DecrementR16(r16::PC), MicroOp::WriteMemoryDecr(r16::SP, r8::A), MicroOp::WriteMemory(r16::SP, r8::F), MicroOp::Noop]),
        0xF6u8 => Some(seq![MicroOp::ReadMemoryIncr(r16::PC, r8::Z), MicroOp::OrR8R8(r8::A, r8::Z)]),
        0xF7u8 => Some(seq![MicroOp::WriteMemoryDecr(r16::SP, r8::PcP), MicroOp::WriteMemoryRst(0x30u16, r16::SP, r8::PcC), MicroOp::LoadR16R16(r16::PC, r16::WZ), MicroOp::Noop]),
        0xF8u8 => Some(seq![MicroOp::ReadMemoryIncr(r16::PC, r8::Z), MicroOp::LdHlSpELow, MicroOp::LdHlSpEHigh]),
        0xF9u8 => Some(seq![MicroOp::LoadR16R16(r16::SP, r16::HL), MicroOp::Noop]),
        0xFAu8 => Some(seq![MicroOp::ReadMemoryIncr(r16::PC, r8::Z), MicroOp::ReadMemoryIncr(r16::PC, r8::W), MicroOp::ReadMemory(r16::WZ, r8::Z), MicroOp::LoadR8R8(r8::A, r8::Z)]),
        0xFBu8 => Some(seq![MicroOp::SetIme1]),
        0xFEu8 => Some(seq![MicroOp::ReadMemoryIncr(r16::PC, r8::Z), MicroOp::CpR8R8(r8::A, r8::Z)]),
        0xFFu8 => Some(seq![MicroOp::WriteMemoryDecr(r16::SP, r8::PcP), MicroOp::WriteMemoryRst(0x38u16, r16::SP, r8::PcC), MicroOp::LoadR16R16(r16::PC, r16::WZ), MicroOp::Noop]),
        _ => None,
    }
}

/// The cycles of `opcode`, or `None` for an opcode the table leaves out.
pub fn dispatch(opcode: u8) -> (r: Option<Vec<MicroOp>>)
    ensures
        match opcode_micro_ops(opcode) {
            Some(q) => r is Some && r->0@ == q,
            None => r is None,
        },
{
    match opcode {
        0x00u8 => Some(vec![MicroOp::Noop]),
        0x01u8 => Some(vec![MicroOp::ReadMemoryIncr(r16::PC, r8::Z), MicroOp::ReadMemoryIncr(r16::PC, r8::W), MicroOp::LoadR16R16(r16::BC, r16::WZ)]),
        0x02u8 => Some(vec![MicroOp::WriteMemory(r16::BC, r8::A), MicroOp::Noop]),
        0x03u8 => Some(vec![MicroOp::IncR16(r16::BC), MicroOp::Noop]),
        0x04u8 => Some(vec![MicroOp::IncR8(r8::B)]),
        0x05u8 => Some(vec![MicroOp::DecR8(r8::B)]),
        0x06u8 => Some(vec![MicroOp::ReadMemoryIncr(r16::PC, r8::Z), MicroOp::LoadR8R8(r8::B, r8::Z)]),
        0x07u8 => Some(vec![MicroOp::Rlca]),
        0x08u8 => Some(vec![MicroOp::ReadMemoryIncr(r16::PC, r8::Z), MicroOp::ReadMemoryIncr(r16::PC, r8::W), MicroOp::WriteMemoryIncr(r16::WZ, r8::P), MicroOp::WriteMemoryIncr(r16::WZ, r8::S), MicroOp::Noop]),
        0x09u8 => Some(vec![MicroOp::AddR8R8NoZeroFlag(r8::C, r8::L), MicroOp::AddR8R8WithCarryAndNoZeroFlag(r8::B, r8::H)]),
        0x0Au8 => Some(vec![MicroOp::ReadMemory(r16::BC, r8::Z), MicroOp::LoadR8R8(r8::A, r8::Z)]),
        0x0Bu8 => Some(vec![MicroOp::DecR16(r16::BC), MicroOp::Noop]),
        0x0Cu8 => Some(vec![MicroOp::IncR8(r8::C)]),
        0x0Du8 => Some(vec![MicroOp::DecR8(r8::C)]),
        0x0Eu8 => Some(vec![MicroOp::ReadMemoryIncr(r16::PC, r8::Z), MicroOp::LoadR8R8(r8::C, r8::Z)]),
        0x0Fu8 => Some(vec![MicroOp::Rrca]),
        0x10u8 => Some(vec![MicroOp::Noop]),
        0x11u8 => Some(vec![MicroOp::ReadMemoryIncr(r16::PC, r8::Z), MicroOp::ReadMemoryIncr(r16::PC, r8::W), MicroOp::LoadR16R16(r16::DE, r16::WZ)]),
        0x12u8 => Some(vec![MicroOp::WriteMemory(r16::DE, r8::A), MicroOp::Noop]),
        0x13u8 => Some(vec![MicroOp::IncR16(r16::DE), MicroOp::Noop]),
        0x14u8 => Some(vec![MicroOp::IncR8(r8::D)]),
        0x15u8 => Some(vec![MicroOp::DecR8(r8::D)]),
        0x16u8 => Some(vec![MicroOp::ReadMemoryIncr(r16::PC, r8::Z), MicroOp::LoadR8R8(r8::D, r8::Z)]),
        0x17u8 => Some(vec![MicroOp::Rla]),
        0x18u8 => Some(vec![MicroOp::ReadMemoryIncr(r16::PC, r8::Z), MicroOp::RelativeJump, MicroOp::Noop]),
        0x19u8 => Some(vec![MicroOp::AddR8R8NoZeroFlag(r8::E, r8::L), MicroOp::AddR8R8WithCarryAndNoZeroFlag(r8::D, r8::H)]),
        0x1Au8 => Some(vec![MicroOp::ReadMemory(r16::DE, r8::Z), MicroOp::LoadR8R8(r8::A, r8::Z)]),
        0x1Bu8 => Some(vec![MicroOp::DecR16(r16::DE), MicroOp::Noop]),
        0x1Cu8 => Some(vec![MicroOp::IncR8(r8::E)]),
        0x1Du8 => Some(vec![MicroOp::DecR8(r8::E)]),
        0x1Eu8 => Some(vec![MicroOp::ReadMemoryIncr(r16::PC, r8::Z), MicroOp::LoadR8R8(r8::E, r8::Z)]),
        0x1Fu8 => Some(vec![MicroOp::Rra]),
        0x20u8 => Some(vec![MicroOp::ReadMemoryIncr(r16::PC, r8::Z), MicroOp::CheckCond(CondKind::NZ), MicroOp::RelativeJump]),
        0x21u8 => Some(vec![MicroOp::ReadMemoryIncr(r16::PC, r8::Z), MicroOp::ReadMemoryIncr(r16::PC, r8::W), MicroOp::LoadR16R16(r16::HL, r16::WZ)]),
        0x22u8 => Some(vec![MicroOp::WriteMemoryIncr(r16::HL, r8::A), MicroOp::Noop]),
        0x23u8 => Some(vec![MicroOp::IncR16(r16::HL), MicroOp::Noop]),
        0x24u8 => Some(vec![MicroOp::IncR8(r8::H)]),
        0x25u8 => Some(vec![MicroOp::DecR8(r8::H)]),
        0x26u8 => Some(vec![MicroOp::ReadMemoryIncr(r16::PC, r8::Z), MicroOp::LoadR8R8(r8::H, r8::Z)]),
        0x27u8 => Some(vec![MicroOp::Daa]),
        0x28u8 => Some(vec![MicroOp::ReadMemoryIncr(r16::PC, r8::Z), MicroOp::CheckCond(CondKind::Z), MicroOp::RelativeJump]),
        0x29u8 => Some(vec![MicroOp::AddR8R8NoZeroFlag(r8::L, r8::L), MicroOp::AddR8R8WithCarryAndNoZeroFlag(r8::H, r8::H)]),
        0x2Au8 => Some(vec![MicroOp::ReadMemoryIncr(r16::HL, r8::Z), MicroOp::LoadR8R8(r8::A, r8::Z)]),
        0x2Bu8 => Some(vec![MicroOp::DecR16(r16::HL), MicroOp::Noop]),
        0x2Cu8 => Some(vec![MicroOp::IncR8(r8::L)]),
        0x2Du8 => Some(vec![MicroOp::DecR8(r8::L)]),
        0x2Eu8 => Some(vec![MicroOp::ReadMemoryIncr(r16::PC, r8::Z), MicroOp::LoadR8R8(r8::L, r8::Z)]),
        0x2Fu8 => Some(vec![MicroOp::Cpl]),
        0x30u8 => Some(vec![MicroOp::ReadMemoryIncr(r16::PC, r8::Z), MicroOp::CheckCond(CondKind::NC), MicroOp::RelativeJump]),
        0x31u8 => Some(vec![MicroOp::ReadMemoryIncr(r16::PC, r8::Z), MicroOp::ReadMemoryIncr(r16::PC, r8::W), MicroOp::LoadR16R16(r16::SP, r16::WZ)]),
        0x32u8 => Some(vec![MicroOp::WriteMemoryDecr(r16::HL, r8::A), MicroOp::Noop]),
        0x33u8 => Some(vec![MicroOp::IncR16(r16::SP), MicroOp::Noop]),
        0x34u8 => Some(vec![MicroOp::ReadMemory(r16::HL, r8::Z), MicroOp::IncAddr(r16::HL, r8::Z), MicroOp::Noop]),
        0x35u8 => Some(vec![MicroOp::ReadMemory(r16::HL, r8::Z), MicroOp::DecAddr(r16::HL, r8::Z), MicroOp::Noop]),
        0x36u8 => Some(vec![MicroOp::ReadMemoryIncr(r16::PC, r8::Z), MicroOp::WriteMemory(r16::HL, r8::Z), MicroOp::Noop]),
        0x37u8 => Some(vec![MicroOp::Scf]),
        0x38u8 => Some(vec![MicroOp::ReadMemoryIncr(r16::PC, r8::Z), MicroOp::CheckCond(CondKind::C), MicroOp::RelativeJump]),
        0x39u8 => Some(vec![MicroOp::AddR8R8NoZeroFlag(r8::P, r8::L), MicroOp::AddR8R8WithCarryAndNoZeroFlag(r8::S, r8::H)]),
        0x3Au8 => Some(vec![MicroOp::ReadMemoryDecr(r16::HL, r8::Z), MicroOp::LoadR8R8(r8::A, r8::Z)]),
        0x3Bu8 => Some(vec![MicroOp::DecR16(r16::SP), MicroOp::Noop]),
        0x3Cu8 => Some(vec![MicroOp::IncR8(r8::A)]),
        0x3Du8 => Some(vec![MicroOp::DecR8(r8::A)]),
        0x3Eu8 => Some(vec![MicroOp::ReadMemoryIncr(r16::PC, r8::Z), MicroOp::LoadR8R8(r8::A, r8::Z)]),
        0x3Fu8 => Some(vec![MicroOp::Ccf]),
        0x40u8 => Some(vec![MicroOp::LoadR8R8(r8::B, r8::B)]),
        0x41u8 => Some(vec![MicroOp::LoadR8R8(r8::B, r8::C)]),
        0x42u8 => Some(vec![MicroOp::LoadR8R8(r8::B, r8::D)]),
        0x43u8 => Some(vec![MicroOp::LoadR8R8(r8::B, r8::E)]),
        0x44u8 => Some(vec![MicroOp::LoadR8R8(r8::B, r8::H)]),
        0x45u8 => Some(vec![MicroOp::LoadR8R8(r8::B, r8::L)]),
        0x46u8 => Some(vec![MicroOp::ReadMemory(r16::HL, r8::Z), MicroOp::LoadR8R8(r8::B, r8::Z)]),
        0x47u8 => Some(vec![MicroOp::LoadR8R8(r8::B, r8::A)]),
        0x48u8 => Some(vec![MicroOp::LoadR8R8(r8::C, r8::B)]),
        0x49u8 => Some(vec![MicroOp::LoadR8R8(r8::C, r8::C)]),
        0x4Au8 => Some(vec![MicroOp::LoadR8R8(r8::C, r8::D)]),
        0x4Bu8 => Some(vec![MicroOp::LoadR8R8(r8::C, r8::E)]),
        0x4Cu8 => Some(vec![MicroOp::LoadR8R8(r8::C, r8::H)]),
        0x4Du8 => Some(vec![MicroOp::LoadR8R8(r8::C, r8::L)]),
        0x4Eu8 => Some(vec![MicroOp::ReadMemory(r16::HL, r8::Z), MicroOp::LoadR8R8(r8::C, r8::Z)]),
        0x4Fu8 => Some(vec![MicroOp::LoadR8R8(r8::C, r8::A)]),
        0x50u8 => Some(vec![MicroOp::LoadR8R8(r8::D, r8::B)]),
        0x51u8 => Some(vec![MicroOp::LoadR8R8(r8::D, r8::C)]),
        0x52u8 => Some(vec![MicroOp::LoadR8R8(r8::D, r8::D)]),
        0x53u8 => Some(vec![MicroOp::LoadR8R8(r8::D, r8::E)]),
        0x54u8 => Some(vec![MicroOp::LoadR8R8(r8::D, r8::H)]),
        0x55u8 => Some(vec![MicroOp::LoadR8R8(r8::D, r8::L)]),
        0x56u8 => Some(vec![MicroOp::ReadMemory(r16::HL, r8::Z), MicroOp::LoadR8R8(r8::D, r8::Z)]),
        0x57u8 => Some(vec![MicroOp::LoadR8R8(r8::D, r8::A)]),
        0x58u8 => Some(vec![MicroOp::LoadR8R8(r8::E, r8::B)]),
        0x59u8 => Some(vec![MicroOp::LoadR8R8(r8::E, r8::C)]),
        0x5Au8 => Some(vec![MicroOp::LoadR8R8(r8::E, r8::D)]),
        0x5Bu8 => Some(vec![MicroOp::LoadR8R8(r8::E, r8::E)]),
        0x5Cu8 => Some(vec![MicroOp::LoadR8R8(r8::E, r8::H)]),
        0x5Du8 => Some(vec![MicroOp::LoadR8R8(r8::E, r8::L)]),
        0x5Eu8 => Some(vec![MicroOp::ReadMemory(r16::HL, r8::Z), MicroOp::LoadR8R8(r8::E, r8::Z)]),
        0x5Fu8 => Some(vec![MicroOp::LoadR8R8(r8::E, r8::A)]),
        0x60u8 => Some(vec![MicroOp::LoadR8R8(r8::H, r8::B)]),
        0x61u8 => Some(vec![MicroOp::LoadR8R8(r8::H, r8::C)]),
        0x62u8 => Some(vec![MicroOp::LoadR8R8(r8::H, r8::D)]),
        0x63u8 => Some(vec![MicroOp::LoadR8R8(r8::H, r8::E)]),
        0x64u8 => Some(vec![MicroOp::LoadR8R8(r8::H, r8::H)]),
        0x65u8 => Some(vec![MicroOp::LoadR8R8(r8::H, r8::L)]),
        0x66u8 => Some(vec![MicroOp::ReadMemory(r16::HL, r8::Z), MicroOp::LoadR8R8(r8::H, r8::Z)]),
        0x67u8 => Some(vec![MicroOp::LoadR8R8(r8::H, r8::A)]),
        0x68u8 => Some(vec![MicroOp::LoadR8R8(r8::L, r8::B)]),
        0x69u8 => Some(vec![MicroOp::LoadR8R8(r8::L, r8::C)]),
        0x6Au8 => Some(vec![MicroOp::LoadR8R8(r8::L, r8::D)]),
        0x6Bu8 => Some(vec![MicroOp::LoadR8R8(r8::L, r8::E)]),
        0x6Cu8 => Some(vec![MicroOp::LoadR8R8(r8::L, r8::H)]),
        0x6Du8 => Some(vec![MicroOp::LoadR8R8(r8::L, r8::L)]),
        0x6Eu8 => Some(vec![MicroOp::ReadMemory(r16::HL, r8::Z), MicroOp::LoadR8R8(r8::L, r8::Z)]),
        0x6Fu8 => Some(vec![MicroOp::LoadR8R8(r8::L, r8::A)]),
        0x70u8 => Some(vec![MicroOp::WriteMemory(r16::HL, r8::B), MicroOp::Noop]),
        0x71u8 => Some(vec![MicroOp::WriteMemory(r16::HL, r8::C), MicroOp::Noop]),
        0x72u8 => Some(vec![MicroOp::WriteMemory(r16::HL, r8::D), MicroOp::Noop]),
        0x73u8 => Some(vec![MicroOp::WriteMemory(r16::HL, r8::E), MicroOp::Noop]),
        0x74u8 => Some(vec![MicroOp::WriteMemory(r16::HL, r8::H), MicroOp::Noop]),
        0x75u8 => Some(vec![MicroOp::WriteMemory(r16::HL, r8::L), MicroOp::Noop]),
        0x76u8 => Some(vec![MicroOp::Halt]),
        0x77u8 => Some(vec![MicroOp::WriteMemory(r16::HL, r8::A), MicroOp::Noop]),
        0x78u8 => Some(vec![MicroOp::LoadR8R8(r8::A, r8::B)]),
        0x79u8 => Some(vec![MicroOp::LoadR8R8(r8::A, r8::C)]),
        0x7Au8 => Some(vec![MicroOp::LoadR8R8(r8::A, r8::D)]),
        0x7Bu8 => Some(vec![MicroOp::LoadR8R8(r8::A, r8::E)]),
        0x7Cu8 => Some(vec![MicroOp::LoadR8R8(r8::A, r8::H)]),
        0x7Du8 => Some(vec![MicroOp::LoadR8R8(r8::A, r8::L)]),
        0x7Eu8 => Some(vec![MicroOp::ReadMemory(r16::HL, r8::Z), MicroOp::LoadR8R8(r8::A, r8::Z)]),
        0x7Fu8 => Some(vec![MicroOp::LoadR8R8(r8::A, r8::A)]),
        0x80u8 => Some(vec![MicroOp::AddR8R8(r8::B, r8::A)]),
        0x81u8 => Some(vec![MicroOp::AddR8R8(r8::C, r8::A)]),
        0x82u8 => Some(vec![MicroOp::AddR8R8(r8::D, r8::A)]),
        0x83u8 => Some(vec![MicroOp::AddR8R8(r8::E, r8::A)]),
        0x84u8 => Some(vec![MicroOp::AddR8R8(r8::H, r8::A)]),
        0x85u8 => Some(vec![MicroOp::AddR8R8(r8::L, r8::A)]),
        0x86u8 => Some(vec![MicroOp::ReadMemory(r16::HL, r8::Z), MicroOp::AddR8R8(r8::Z, r8::A)]),
        0x87u8 => Some(vec![MicroOp::AddR8R8(r8::A, r8::A)]),
        0x88u8 => Some(vec![MicroOp::AddR8R8WithCarry(r8::B, r8::A)]),
        0x89u8 => Some(vec![MicroOp::AddR8R8WithCarry(r8::C, r8::A)]),
        0x8Au8 => Some(vec![MicroOp::AddR8R8WithCarry(r8::D, r8::A)]),
        0x8Bu8 => Some(vec![MicroOp::AddR8R8WithCarry(r8::E, r8::A)]),
        0x8Cu8 => Some(vec![MicroOp::AddR8R8WithCarry(r8::H, r8::A)]),
        0x8Du8 => Some(vec![MicroOp::AddR8R8WithCarry(r8::L, r8::A)]),
        0x8Eu8 => Some(vec![MicroOp::ReadMemory(r16::HL, r8::Z), MicroOp::AddR8R8WithCarry(r8::Z, r8::A)]),
        0x8Fu8 => Some(vec![MicroOp::AddR8R8WithCarry(r8::A, r8::A)]),
        0x90u8 => Some(vec![MicroOp::SubR8R8(r8::A, r8::B)]),
        0x91u8 => Some(vec![MicroOp::SubR8R8(r8::A, r8::C)]),
        0x92u8 => Some(vec![MicroOp::SubR8R8(r8::A, r8::D)]),
        0x93u8 => Some(vec![MicroOp::SubR8R8(r8::A, r8::E)]),
        0x94u8 => Some(vec![MicroOp::SubR8R8(r8::A, r8::H)]),
        0x95u8 => Some(vec![MicroOp::SubR8R8(r8::A, r8::L)]),
        0x96u8 => Some(vec![MicroOp::ReadMemory(r16::HL, r8::Z), MicroOp::SubR8R8(r8::A, r8::Z)]),
        0x97u8 => Some(vec![MicroOp::SubR8R8(r8::A, r8::A)]),
        0x98u8 => Some(vec![MicroOp::SubR8R8WithCarry(r8::B, r8::A)]),
        0x99u8 => Some(vec![MicroOp::SubR8R8WithCarry(r8::C, r8::A)]),
        0x9Au8 => Some(vec![MicroOp::SubR8R8WithCarry(r8::D, r8::A)]),
        0x9Bu8 => Some(vec![MicroOp::SubR8R8WithCarry(r8::E, r8::A)]),
        0x9Cu8 => Some(vec![MicroOp::SubR8R8WithCarry(r8::H, r8::A)]),
        0x9Du8 => Some(vec![MicroOp::SubR8R8WithCarry(r8::L, r8::A)]),
        0x9Eu8 => Some(vec![MicroOp::ReadMemory(r16::HL, r8::Z), MicroOp::SubR8R8WithCarry(r8::Z, r8::A)]),
        0x9Fu8 => Some(vec![MicroOp::SubR8R8(r8::A, r8::A)]),
        0xA0u8 => Some(vec![MicroOp::AndR8R8(r8::A, r8::B)]),
        0xA1u8 => Some(vec![MicroOp::AndR8R8(r8::A, r8::C)]),
        0xA2u8 => Some(vec![MicroOp::AndR8R8(r8::A, r8::D)]),
        0xA3u8 => Some(vec![MicroOp::AndR8R8(r8::A, r8::E)]),
        0xA4u8 => Some(vec![MicroOp::AndR8R8(r8::A, r8::H)]),
        0xA5u8 => Some(vec![MicroOp::AndR8R8(r8::A, r8::L)]),
        0xA6u8 => Some(vec![MicroOp::ReadMemory(r16::HL, r8::Z), MicroOp::AndR8R8(r8::A, r8::Z)]),
        0xA7u8 => Some(vec![MicroOp::AndR8R8(r8::A, r8::A)]),
        0xA8u8 => Some(vec![MicroOp::XorR8R8(r8::A, r8::B)]),
        0xA9u8 => Some(vec![MicroOp::XorR8R8(r8::A, r8::C)]),
        0xAAu8 => Some(vec![MicroOp::XorR8R8(r8::A, r8::D)]),
        0xABu8 => Some(vec![MicroOp::XorR8R8(r8::A, r8::E)]),
        0xACu8 => Some(vec![MicroOp::XorR8R8(r8::A, r8::H)]),
        0xADu8 => Some(vec![MicroOp::XorR8R8(r8::A, r8::L)]),
        0xAEu8 => Some(vec![MicroOp::ReadMemory(r16::HL, r8::Z), MicroOp::XorR8R8(r8::A, r8::Z)]),
        0xAFu8 => Some(vec![MicroOp::XorR8R8(r8::A, r8::A)]),
        0xB0u8 => Some(vec![MicroOp::OrR8R8(r8::A, r8::B)]),
        0xB1u8 => Some(vec![MicroOp::OrR8R8(r8::A, r8::C)]),
        0xB2u8 => Some(vec![MicroOp::OrR8R8(r8::A, r8::D)]),
        0xB3u8 => Some(vec![MicroOp::OrR8R8(r8::A, r8::E)]),
        0xB4u8 => Some(vec![MicroOp::OrR8R8(r8::A, r8::H)]),
        0xB5u8 => Some(vec![MicroOp::OrR8R8(r8::A, r8::L)]),
        0xB6u8 => Some(vec![MicroOp::ReadMemory(r16::HL, r8::Z), MicroOp::OrR8R8(r8::A, r8::Z)]),
        0xB7u8 => Some(vec![MicroOp::OrR8R8(r8::A, r8::A)]),
        0xB8u8 => Some(vec![MicroOp::CpR8R8(r8::A, r8::B)]),
        0xB9u8 => Some(vec![MicroOp::CpR8R8(r8::A, r8::C)]),
        0xBAu8 => Some(vec![MicroOp::CpR8R8(r8::A, r8::D)]),
        0xBBu8 => Some(vec![MicroOp::CpR8R8(r8::A, r8::E)]),
        0xBCu8 => Some(vec![MicroOp::CpR8R8(r8::A, r8::H)]),
        0xBDu8 => Some(vec![MicroOp::CpR8R8(r8::A, r8::L)]),
        0xBEu8 => Some(vec![MicroOp::ReadMemory(r16::HL, r8::Z), MicroOp::CpR8R8(r8::A, r8::Z)]),
        0xBFu8 => Some(vec![MicroOp::CpR8R8(r8::A, r8::A)]),
        0xC0u8 => Some(vec![MicroOp::CheckCond(CondKind::NZ), MicroOp::ReadMemoryIncr(r16::SP, r8::Z), MicroOp::ReadMemoryIncr(r16::SP, r8::W), MicroOp::LoadR16R16(r16::PC, r16::WZ), MicroOp::Noop]),
        0xC1u8 => Some(vec![MicroOp::ReadMemoryIncr(r16::PC, r8::Z), MicroOp::ReadMemoryIncr(r16::PC, r8::W), MicroOp::LoadR16R16(r16::BC, r16::WZ)]),
        0xC2u8 => Some(vec![MicroOp::ReadMemoryIncr(r16::PC, r8::Z), MicroOp::ReadMemoryIncr(r16::PC, r8::W), MicroOp::CheckCond(CondKind::NZ), MicroOp::LoadR16R16(r16::PC, r16::WZ), MicroOp::Noop]),
        0xC3u8 => Some(vec![MicroOp::ReadMemoryIncr(r16::PC, r8::Z), MicroOp::ReadMemoryIncr(r16::PC, r8::W), MicroOp::LoadR16R16(r16::PC, r16::WZ), MicroOp::Noop]),
        0xC4u8 => Some(vec![MicroOp::ReadMemoryIncr(r16::PC, r8::Z), MicroOp::ReadMemoryIncr(r16::PC, r8::W), MicroOp::DecR16(r16::SP), MicroOp::CheckCond(CondKind::NC), MicroOp::WriteMemoryDecr(r16::SP, r8::PcP), MicroOp::WriteMemoryReassignPc(r16::SP, r8::PcC), MicroOp::Noop]),
        0xC5u8 => Some(vec![MicroOp::DecrementR16(r16::PC), MicroOp::WriteMemoryDecr(r16::SP, r8::B), MicroOp::WriteMemory(r16::SP, r8::C), MicroOp::Noop]),
        0xC6u8 => Some(vec![MicroOp::ReadMemoryIncr(r16::PC, r8::Z), MicroOp::AddR8R8(r8::Z, r8::A)]),
        0xC7u8 => Some(vec![MicroOp::WriteMemoryDecr(r16::SP, r8::PcP), MicroOp::WriteMemoryRst(0x00u16, r16::SP, r8::PcC), MicroOp::LoadR16R16(r16::PC, r16::WZ), MicroOp::Noop]),
        0xC8u8 => Some(vec![MicroOp::CheckCond(CondKind::Z), MicroOp::ReadMemoryIncr(r16::SP, r8::Z), MicroOp::ReadMemoryIncr(r16::SP, r8::W), MicroOp::LoadR16R16(r16::PC, r16::WZ), MicroOp::Noop]),
        0xC9u8 => Some(vec![MicroOp::ReadMemoryIncr(r16::SP, r8::Z), MicroOp::ReadMemoryIncr(r16::SP, r8::W), MicroOp::LoadR16R16(r16::PC, r16::WZ), MicroOp::Noop]),
        0xCAu8 => Some(vec![MicroOp::ReadMemoryIncr(r16::PC, r8::Z), MicroOp::ReadMemoryIncr(r16::PC, r8::W), MicroOp::CheckCond(CondKind::Z), MicroOp::LoadR16R16(r16::PC, r16::WZ), MicroOp::Noop]),
        0xCBu8 => Some(vec![MicroOp::DecodeCb]),
        0xCCu8 => Some(vec![MicroOp::ReadMemoryIncr(r16::PC, r8::Z), MicroOp::ReadMemoryIncr(r16::PC, r8::W), MicroOp::DecR16(r16::SP), MicroOp::CheckCond(CondKind::Z), MicroOp::WriteMemoryDecr(r16::SP, r8::PcP), MicroOp::WriteMemoryReassignPc(r16::SP, r8::PcC), MicroOp::Noop]),
        0xCDu8 => Some(vec![MicroOp::ReadMemoryIncr(r16::PC, r8::Z), MicroOp::ReadMemoryIncr(r16::PC, r8::W), MicroOp::DecR16(r16::SP), MicroOp::WriteMemoryDecr(r16::SP, r8::PcP), MicroOp::WriteMemoryReassignPc(r16::SP, r8::PcC), MicroOp::Noop]),
        0xCEu8 => Some(vec![MicroOp::ReadMemoryIncr(r16::PC, r8::Z), MicroOp::AddR8R8WithCarry(r8::Z, r8::A)]),
        0xCFu8 => Some(vec![MicroOp::WriteMemoryDecr(r16::SP, r8::PcP), MicroOp::WriteMemoryRst(0x08u16, r16::SP, r8::PcC), MicroOp::LoadR16R16(r16::PC, r16::WZ), MicroOp::Noop]),
        0xD0u8 => Some(vec![MicroOp::CheckCond(CondKind::NC), MicroOp::ReadMemoryIncr(r16::SP, r8::Z), MicroOp::ReadMemoryIncr(r16::SP, r8::W), MicroOp::LoadR16R16(r16::PC, r16::WZ), MicroOp::Noop]),
        0xD1u8 => Some(vec![MicroOp::ReadMemoryIncr(r16::PC, r8::Z), MicroOp::ReadMemoryIncr(r16::PC, r8::W), MicroOp::LoadR16R16(r16::DE, r16::WZ)]),
        0xD2u8 => Some(vec![MicroOp::ReadMemoryIncr(r16::PC, r8::Z), MicroOp::ReadMemoryIncr(r16::PC, r8::W), MicroOp::CheckCond(CondKind::NC), MicroOp::LoadR16R16(r16::PC, r16::WZ), MicroOp::Noop]),
        0xD4u8 => Some(vec![MicroOp::ReadMemoryIncr(r16::PC, r8::Z), MicroOp::ReadMemoryIncr(r16::PC, r8::W), MicroOp::DecR16(r16::SP), MicroOp::CheckCond(CondKind::NZ), MicroOp::WriteMemoryDecr(r16::SP, r8::PcP), MicroOp::WriteMemoryReassignPc(r16::SP, r8::PcC), MicroOp::Noop]),
        0xD5u8 => Some(vec![MicroOp::DecrementR16(r16::PC), MicroOp::WriteMemoryDecr(r16::SP, r8::D), MicroOp::WriteMemory(r16::SP, r8::E), MicroOp::Noop]),
        0xD6u8 => Some(vec![MicroOp::ReadMemoryIncr(r16::PC, r8::Z), MicroOp::SubR8R8(r8::A, r8::Z)]),
        0xD7u8 => Some(vec![MicroOp::WriteMemoryDecr(r16::SP, r8::PcP), MicroOp::WriteMemoryRst(0x10u16, r16::SP, r8::PcC), MicroOp::LoadR16R16(r16::PC, r16::WZ), MicroOp::Noop]),
        0xD8u8 => Some(vec![MicroOp::CheckCond(CondKind::C), MicroOp::ReadMemoryIncr(r16::SP, r8::Z), MicroOp::ReadMemoryIncr(r16::SP, r8::W), MicroOp::LoadR16R16(r16::PC, r16::WZ), MicroOp::Noop]),
        0xD9u8 => Some(vec![MicroOp::ReadMemoryIncr(r16::SP, r8::Z), MicroOp::ReadMemoryIncr(r16::SP, r8::W), MicroOp::LoadR16R16AndIme(r16::PC, r16::WZ), MicroOp::Noop]),
        0xDAu8 => Some(vec![MicroOp::ReadMemoryIncr(r16::PC, r8::Z), MicroOp::ReadMemoryIncr(r16::PC, r8::W), MicroOp::CheckCond(CondKind::C), MicroOp::LoadR16R16(r16::PC, r16::WZ), MicroOp::Noop]),
        0xDCu8 => Some(vec![MicroOp::ReadMemoryIncr(r16::PC, r8::Z), MicroOp::ReadMemoryIncr(r16::PC, r8::W), MicroOp::DecR16(r16::SP), MicroOp::CheckCond(CondKind::C), MicroOp::WriteMemoryDecr(r16::SP, r8::PcP), MicroOp::WriteMemoryReassignPc(r16::SP, r8::PcC), MicroOp::Noop]),
        0xDEu8 => Some(vec![MicroOp::ReadMemoryIncr(r16::PC, r8::Z), MicroOp::SubR8R8WithCarry(r8::Z, r8::A)]),
        0xDFu8 => Some(vec![MicroOp::WriteMemoryDecr(r16::SP, r8::PcP), MicroOp::WriteMemoryRst(0x18u16, r16::SP, r8::PcC), MicroOp::LoadR16R16(r16::PC, r16::WZ), MicroOp::Noop]),
        0xE0u8 => Some(vec![MicroOp::ReadMemoryIncr(r16::PC, r8::Z), MicroOp::WriteMemory0xff(r8::Z, r8::A), MicroOp::Noop]),
        0xE1u8 => Some(vec![MicroOp::ReadMemoryIncr(r16::PC, r8::Z), MicroOp::ReadMemoryIncr(r16::PC, r8::W), MicroOp::LoadR16R16(r16::HL, r16::WZ)]),
        0xE2u8 => Some(vec![MicroOp::WriteMemory0xff(r8::C, r8::A), MicroOp::Noop]),
        0xE5u8 => Some(vec![MicroOp::DecrementR16(r16::PC), MicroOp::WriteMemoryDecr(r16::SP, r8::H), MicroOp::WriteMemory(r16::SP, r8::L), MicroOp::Noop]),
        0xE6u8 => Some(vec![MicroOp::ReadMemoryIncr(r16::PC, r8::Z), MicroOp::AndR8R8(r8::A, r8::Z)]),
        0xE7u8 => Some(vec![MicroOp::WriteMemoryDecr(r16::SP, r8::PcP), MicroOp::WriteMemoryRst(0x20u16, r16::SP, r8::PcC), MicroOp::LoadR16R16(r16::PC, r16::WZ), MicroOp::Noop]),
        0xE8u8 => Some(vec![MicroOp::ReadMemoryIncr(r16::PC, r8::Z), MicroOp::AddHlSpELow, MicroOp::AddHlSpEHigh, MicroOp::LoadR16R16(r16::SP, r16::WZ)]),
        0xE9u8 => Some(vec![MicroOp::LoadR16R16(r16::PC, r16::HL)]),
        0xEAu8 => Some(vec![MicroOp::ReadMemoryIncr(r16::PC, r8::Z), MicroOp::ReadMemoryIncr(r16::PC, r8::W), MicroOp::WriteMemory(r16::WZ, r8::A), MicroOp::Noop]),
        0xEEu8 => Some(vec![MicroOp::ReadMemoryIncr(r16::PC, r8::Z), MicroOp::XorR8R8(r8::A, r8::Z)]),
        0xEFu8 => Some(vec![MicroOp::WriteMemoryDecr(r16::SP, r8::PcP), MicroOp::WriteMemoryRst(0x28u16, r16::SP, r8::PcC), MicroOp::LoadR16R16(r16::PC, r16::WZ), MicroOp::Noop]),
        0xF0u8 => Some(vec![MicroOp::ReadMemoryIncr(r16::PC, r8::Z), MicroOp::ReadMemory0xff(r8::Z, r8::A)]),
        0xF1u8 => Some(vec![MicroOp::ReadMemoryIncr(r16::PC, r8::Z), MicroOp::ReadMemoryIncr(r16::PC, r8::W), MicroOp::LoadR16R16(r16::AF, r16::WZ)]),
        0xF2u8 => Some(vec![MicroOp::ReadMemory0xff(r8::C, r8::Z), MicroOp::LoadR8R8(r8::A, r8::Z)]),
        0xF3u8 => Some(vec![MicroOp::SetIme0]),
        0xF5u8 => Some(vec![MicroOp::DecrementR16(r16::PC), MicroOp::WriteMemoryDecr(r16::SP, r8::A), MicroOp::WriteMemory(r16::SP, r8::F), MicroOp::Noop]),
        0xF6u8 => Some(vec![MicroOp::ReadMemoryIncr(r16::PC, r8::Z), MicroOp::OrR8R8(r8::A, r8::Z)]),
        0xF7u8 => Some(vec![MicroOp::WriteMemoryDecr(r16::SP, r8::PcP), MicroOp::WriteMemoryRst(0x30u16, r16::SP, r8::PcC), MicroOp::LoadR16R16(r16::PC, r16::WZ), MicroOp::Noop]),
        0xF8u8 => Some(vec![MicroOp::ReadMemoryIncr(r16::PC, r8::Z), MicroOp::LdHlSpELow, MicroOp::LdHlSpEHigh]),
        0xF9u8 => Some(vec![MicroOp::LoadR16R16(r16::SP, r16::HL), MicroOp::Noop]),
        0xFAu8 => Some(vec![MicroOp::ReadMemoryIncr(r16::PC, r8::Z), MicroOp::ReadMemoryIncr(r16::PC, r8::W), MicroOp::ReadMemory(r16::WZ, r8::Z), MicroOp::LoadR8R8(r8::A, r8::Z)]),
        0xFBu8 => Some(vec![MicroOp::SetIme1]),
        0xFEu8 => Some(vec![MicroOp::ReadMemoryIncr(r16::PC, r8::Z), MicroOp::CpR8R8(r8::A, r8::Z)]),
        0xFFu8 => Some(vec![MicroOp::WriteMemoryDecr(r16::SP, r8::PcP), MicroOp::WriteMemoryRst(0x38u16, r16::SP, r8::PcC), MicroOp::LoadR16R16(r16::PC, r16::WZ), MicroOp::Noop]),
        _ => None,
    }
}

/// The table entry for `opcode`, with its opcode.
pub fn find_instruction(opcode: u8) -> (r: Option<Instruction>)
    ensures
        match opcode_micro_ops(opcode) {
            Some(q) => r is Some && r->0.opcode == opcode as u16 && r->0.micro_ops@ == q,
            None => r is None,
        },
{
    match dispatch(opcode) {
        Some(micro_ops) => Some(Instruction { opcode: opcode as u16, micro_ops }),
        None => None,
    }
}

} // verus!
