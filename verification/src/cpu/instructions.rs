use vstd::prelude::*;

use crate::cpu::defines::{r16, r8, CondKind, Instruction, MicroOp};

verus! {

/// The cycles of each opcode of the main table; an opcode the processor does not
/// define has none.
pub open spec fn main_micro_ops(opcode: u8) -> Seq<MicroOp> {
    match opcode {
        0x00u8 => seq![MicroOp::Noop],
        0x01u8 => seq![MicroOp::ReadMemoryIncr(r16::PC, r8::Z), MicroOp::ReadMemoryIncr(r16::PC, r8::W), MicroOp::LoadR16R16(r16::BC, r16::WZ)],
        0x02u8 => seq![MicroOp::WriteMemory(r16::BC, r8::A), MicroOp::Noop],
        0x03u8 => seq![MicroOp::IncR16(r16::BC), MicroOp::Noop],
        0x04u8 => seq![MicroOp::IncR8(r8::B)],
        0x05u8 => seq![MicroOp::DecR8(r8::B)],
        0x06u8 => seq![MicroOp::ReadMemoryIncr(r16::PC, r8::Z), MicroOp::LoadR8R8(r8::B, r8::Z)],
        0x07u8 => seq![MicroOp::Rlca],
        0x08u8 => seq![MicroOp::ReadMemoryIncr(r16::PC, r8::Z), MicroOp::ReadMemoryIncr(r16::PC, r8::W), MicroOp::WriteMemoryIncr(r16::WZ, r8::P), MicroOp::WriteMemory(r16::WZ, r8::S), MicroOp::Noop],
        0x09u8 => seq![MicroOp::AddR8R8NoZeroFlag(r8::C, r8::L), MicroOp::AddR8R8WithCarryAndNoZeroFlag(r8::B, r8::H)],
        0x0Au8 => seq![MicroOp::ReadMemory(r16::BC, r8::Z), MicroOp::LoadR8R8(r8::A, r8::Z)],
        0x0Bu8 => seq![MicroOp::DecR16(r16::BC), MicroOp::Noop],
        0x0Cu8 => seq![MicroOp::IncR8(r8::C)],
        0x0Du8 => seq![MicroOp::DecR8(r8::C)],
        0x0Eu8 => seq![MicroOp::ReadMemoryIncr(r16::PC, r8::Z), MicroOp::LoadR8R8(r8::C, r8::Z)],
        0x0Fu8 => seq![MicroOp::Rrca],
        0x10u8 => seq![MicroOp::Stop],
        0x11u8 => seq![MicroOp::ReadMemoryIncr(r16::PC, r8::Z), MicroOp::ReadMemoryIncr(r16::PC, r8::W), MicroOp::LoadR16R16(r16::DE, r16::WZ)],
        0x12u8 => seq![MicroOp::WriteMemory(r16::DE, r8::A), MicroOp::Noop],
        0x13u8 => seq![MicroOp::IncR16(r16::DE), MicroOp::Noop],
        0x14u8 => seq![MicroOp::IncR8(r8::D)],
        0x15u8 => seq![MicroOp::DecR8(r8::D)],
        0x16u8 => seq![MicroOp::ReadMemoryIncr(r16::PC, r8::Z), MicroOp::LoadR8R8(r8::D, r8::Z)],
        0x17u8 => seq![MicroOp::Rla],
        0x18u8 => seq![MicroOp::ReadMemoryIncr(r16::PC, r8::Z), MicroOp::RelativeJump, MicroOp::Noop],
        0x19u8 => seq![MicroOp::AddR8R8NoZeroFlag(r8::E, r8::L), MicroOp::AddR8R8WithCarryAndNoZeroFlag(r8::D, r8::H)],
        0x1Au8 => seq![MicroOp::ReadMemory(r16::DE, r8::Z), MicroOp::LoadR8R8(r8::A, r8::Z)],
        0x1Bu8 => seq![MicroOp::DecR16(r16::DE), MicroOp::Noop],
        0x1Cu8 => seq![MicroOp::IncR8(r8::E)],
        0x1Du8 => seq![MicroOp::DecR8(r8::E)],
        0x1Eu8 => seq![MicroOp::ReadMemoryIncr(r16::PC, r8::Z), MicroOp::LoadR8R8(r8::E, r8::Z)],
        0x1Fu8 => seq![MicroOp::Rra],
        0x20u8 => seq![MicroOp::ReadMemoryIncrCheck(r16::PC, r8::Z, CondKind::NZ), MicroOp::RelativeJump, MicroOp::Noop],
        0x21u8 => seq![MicroOp::ReadMemoryIncr(r16::PC, r8::Z), MicroOp::ReadMemoryIncr(r16::PC, r8::W), MicroOp::LoadR16R16(r16::HL, r16::WZ)],
        0x22u8 => seq![MicroOp::WriteMemoryIncr(r16::HL, r8::A), MicroOp::Noop],
        0x23u8 => seq![MicroOp::IncR16(r16::HL), MicroOp::Noop],
        0x24u8 => seq![MicroOp::IncR8(r8::H)],
        0x25u8 => seq![MicroOp::DecR8(r8::H)],
        0x26u8 => seq![MicroOp::ReadMemoryIncr(r16::PC, r8::Z), MicroOp::LoadR8R8(r8::H, r8::Z)],
        0x27u8 => seq![MicroOp::Daa],
        0x28u8 => seq![MicroOp::ReadMemoryIncrCheck(r16::PC, r8::Z, CondKind::Z), MicroOp::RelativeJump, MicroOp::Noop],
        0x29u8 => seq![MicroOp::AddR8R8NoZeroFlag(r8::L, r8::L), MicroOp::AddR8R8WithCarryAndNoZeroFlag(r8::H, r8::H)],
        0x2Au8 => seq![MicroOp::ReadMemoryIncr(r16::HL, r8::Z), MicroOp::LoadR8R8(r8::A, r8::Z)],
        0x2Bu8 => seq![MicroOp::DecR16(r16::HL), MicroOp::Noop],
        0x2Cu8 => seq![MicroOp::IncR8(r8::L)],
        0x2Du8 => seq![MicroOp::DecR8(r8::L)],
        0x2Eu8 => seq![MicroOp::ReadMemoryIncr(r16::PC, r8::Z), MicroOp::LoadR8R8(r8::L, r8::Z)],
        0x2Fu8 => seq![MicroOp::Cpl],
        0x30u8 => seq![MicroOp::ReadMemoryIncrCheck(r16::PC, r8::Z, CondKind::NC), MicroOp::RelativeJump, MicroOp::Noop],
        0x31u8 => seq![MicroOp::ReadMemoryIncr(r16::PC, r8::Z), MicroOp::ReadMemoryIncr(r16::PC, r8::W), MicroOp::LoadR16R16(r16::SP, r16::WZ)],
        0x32u8 => seq![MicroOp::WriteMemoryDecr(r16::HL, r8::A), MicroOp::Noop],
        0x33u8 => seq![MicroOp::IncR16(r16::SP), MicroOp::Noop],
        0x34u8 => seq![MicroOp::ReadMemory(r16::HL, r8::Z), MicroOp::IncAddr(r16::HL, r8::Z), MicroOp::Noop],
        0x35u8 => seq![MicroOp::ReadMemory(r16::HL, r8::Z), MicroOp::DecAddr(r16::HL, r8::Z), MicroOp::Noop],
        0x36u8 => seq![MicroOp::ReadMemoryIncr(r16::PC, r8::Z), MicroOp::WriteMemory(r16::HL, r8::Z), MicroOp::Noop],
        0x37u8 => seq![MicroOp::Scf],
        0x38u8 => seq![MicroOp::ReadMemoryIncrCheck(r16::PC, r8::Z, CondKind::C), MicroOp::RelativeJump, MicroOp::Noop],
        0x39u8 => seq![MicroOp::AddR8R8NoZeroFlag(r8::P, r8::L), MicroOp::AddR8R8WithCarryAndNoZeroFlag(r8::S, r8::H)],
        0x3Au8 => seq![MicroOp::ReadMemoryDecr(r16::HL, r8::Z), MicroOp::LoadR8R8(r8::A, r8::Z)],
        0x3Bu8 => seq![MicroOp::DecR16(r16::SP), MicroOp::Noop],
        0x3Cu8 => seq![MicroOp::IncR8(r8::A)],
        0x3Du8 => seq![MicroOp::DecR8(r8::A)],
        0x3Eu8 => seq![MicroOp::ReadMemoryIncr(r16::PC, r8::Z), MicroOp::LoadR8R8(r8::A, r8::Z)],
        0x3Fu8 => seq![MicroOp::Ccf],
        0x40u8 => seq![MicroOp::LoadR8R8(r8::B, r8::B)],
        0x41u8 => seq![MicroOp::LoadR8R8(r8::B, r8::C)],
        0x42u8 => seq![MicroOp::LoadR8R8(r8::B, r8::D)],
        0x43u8 => seq![MicroOp::LoadR8R8(r8::B, r8::E)],
        0x44u8 => seq![MicroOp::LoadR8R8(r8::B, r8::H)],
        0x45u8 => seq![MicroOp::LoadR8R8(r8::B, r8::L)],
        0x46u8 => seq![MicroOp::ReadMemory(r16::HL, r8::Z), MicroOp::LoadR8R8(r8::B, r8::Z)],
        0x47u8 => seq![MicroOp::LoadR8R8(r8::B, r8::A)],
        0x48u8 => seq![MicroOp::LoadR8R8(r8::C, r8::B)],
        0x49u8 => seq![MicroOp::LoadR8R8(r8::C, r8::C)],
        0x4Au8 => seq![MicroOp::LoadR8R8(r8::C, r8::D)],
        0x4Bu8 => seq![MicroOp::LoadR8R8(r8::C, r8::E)],
        0x4Cu8 => seq![MicroOp::LoadR8R8(r8::C, r8::H)],
        0x4Du8 => seq![MicroOp::LoadR8R8(r8::C, r8::L)],
        0x4Eu8 => seq![MicroOp::ReadMemory(r16::HL, r8::Z), MicroOp::LoadR8R8(r8::C, r8::Z)],
        0x4Fu8 => seq![MicroOp::LoadR8R8(r8::C, r8::A)],
        0x50u8 => seq![MicroOp::LoadR8R8(r8::D, r8::B)],
        0x51u8 => seq![MicroOp::LoadR8R8(r8::D, r8::C)],
        0x52u8 => seq![MicroOp::LoadR8R8(r8::D, r8::D)],
        0x53u8 => seq![MicroOp::LoadR8R8(r8::D, r8::E)],
        0x54u8 => seq![MicroOp::LoadR8R8(r8::D, r8::H)],
        0x55u8 => seq![MicroOp::LoadR8R8(r8::D, r8::L)],
        0x56u8 => seq![MicroOp::ReadMemory(r16::HL, r8::Z), MicroOp::LoadR8R8(r8::D, r8::Z)],
        0x57u8 => seq![MicroOp::LoadR8R8(r8::D, r8::A)],
        0x58u8 => seq![MicroOp::LoadR8R8(r8::E, r8::B)],
        0x59u8 => seq![MicroOp::LoadR8R8(r8::E, r8::C)],
        0x5Au8 => seq![MicroOp::LoadR8R8(r8::E, r8::D)],
        0x5Bu8 => seq![MicroOp::LoadR8R8(r8::E, r8::E)],
        0x5Cu8 => seq![MicroOp::LoadR8R8(r8::E, r8::H)],
        0x5Du8 => seq![MicroOp::LoadR8R8(r8::E, r8::L)],
        0x5Eu8 => seq![MicroOp::ReadMemory(r16::HL, r8::Z), MicroOp::LoadR8R8(r8::E, r8::Z)],
        0x5Fu8 => seq![MicroOp::LoadR8R8(r8::E, r8::A)],
        0x60u8 => seq![MicroOp::LoadR8R8(r8::H, r8::B)],
        0x61u8 => seq![MicroOp::LoadR8R8(r8::H, r8::C)],
        0x62u8 => seq![MicroOp::LoadR8R8(r8::H, r8::D)],
        0x63u8 => seq![MicroOp::LoadR8R8(r8::H, r8::E)],
        0x64u8 => seq![MicroOp::LoadR8R8(r8::H, r8::H)],
        0x65u8 => seq![MicroOp::LoadR8R8(r8::H, r8::L)],
        0x66u8 => seq![MicroOp::ReadMemory(r16::HL, r8::Z), MicroOp::LoadR8R8(r8::H, r8::Z)],
        0x67u8 => seq![MicroOp::LoadR8R8(r8::H, r8::A)],
        0x68u8 => seq![MicroOp::LoadR8R8(r8::L, r8::B)],
        0x69u8 => seq![MicroOp::LoadR8R8(r8::L, r8::C)],
        0x6Au8 => seq![MicroOp::LoadR8R8(r8::L, r8::D)],
        0x6Bu8 => seq![MicroOp::LoadR8R8(r8::L, r8::E)],
        0x6Cu8 => seq![MicroOp::LoadR8R8(r8::L, r8::H)],
        0x6Du8 => seq![MicroOp::LoadR8R8(r8::L, r8::L)],
        0x6Eu8 => seq![MicroOp::ReadMemory(r16::HL, r8::Z), MicroOp::LoadR8R8(r8::L, r8::Z)],
        0x6Fu8 => seq![MicroOp::LoadR8R8(r8::L, r8::A)],
        0x70u8 => seq![MicroOp::WriteMemory(r16::HL, r8::B), MicroOp::Noop],
        0x71u8 => seq![MicroOp::WriteMemory(r16::HL, r8::C), MicroOp::Noop],
        0x72u8 => seq![MicroOp::WriteMemory(r16::HL, r8::D), MicroOp::Noop],
        0x73u8 => seq![MicroOp::WriteMemory(r16::HL, r8::E), MicroOp::Noop],
        0x74u8 => seq![MicroOp::WriteMemory(r16::HL, r8::H), MicroOp::Noop],
        0x75u8 => seq![MicroOp::WriteMemory(r16::HL, r8::L), MicroOp::Noop],
        0x76u8 => seq![MicroOp::Halt],
        0x77u8 => seq![MicroOp::WriteMemory(r16::HL, r8::A), MicroOp::Noop],
        0x78u8 => seq![MicroOp::LoadR8R8(r8::A, r8::B)],
        0x79u8 => seq![MicroOp::LoadR8R8(r8::A, r8::C)],
        0x7Au8 => seq![MicroOp::LoadR8R8(r8::A, r8::D)],
        0x7Bu8 => seq![MicroOp::LoadR8R8(r8::A, r8::E)],
        0x7Cu8 => seq![MicroOp::LoadR8R8(r8::A, r8::H)],
        0x7Du8 => seq![MicroOp::LoadR8R8(r8::A, r8::L)],
        0x7Eu8 => seq![MicroOp::ReadMemory(r16::HL, r8::Z), MicroOp::LoadR8R8(r8::A, r8::Z)],
        0x7Fu8 => seq![MicroOp::LoadR8R8(r8::A, r8::A)],
        0x80u8 => seq![MicroOp::AddR8R8(r8::A, r8::B)],
        0x81u8 => seq![MicroOp::AddR8R8(r8::A, r8::C)],
        0x82u8 => seq![MicroOp::AddR8R8(r8::A, r8::D)],
        0x83u8 => seq![MicroOp::AddR8R8(r8::A, r8::E)],
        0x84u8 => seq![MicroOp::AddR8R8(r8::A, r8::H)],
        0x85u8 => seq![MicroOp::AddR8R8(r8::A, r8::L)],
        0x86u8 => seq![MicroOp::ReadMemory(r16::HL, r8::Z), MicroOp::AddR8R8(r8::A, r8::Z)],
        0x87u8 => seq![MicroOp::AddR8R8(r8::A, r8::A)],
        0x88u8 => seq![MicroOp::AddR8R8WithCarry(r8::A, r8::B)],
        0x89u8 => seq![MicroOp::AddR8R8WithCarry(r8::A, r8::C)],
        0x8Au8 => seq![MicroOp::AddR8R8WithCarry(r8::A, r8::D)],
        0x8Bu8 => seq![MicroOp::AddR8R8WithCarry(r8::A, r8::E)],
        0x8Cu8 => seq![MicroOp::AddR8R8WithCarry(r8::A, r8::H)],
        0x8Du8 => seq![MicroOp::AddR8R8WithCarry(r8::A, r8::L)],
        0x8Eu8 => seq![MicroOp::ReadMemory(r16::HL, r8::Z), MicroOp::AddR8R8WithCarry(r8::A, r8::Z)],
        0x8Fu8 => seq![MicroOp::AddR8R8WithCarry(r8::A, r8::A)],
        0x90u8 => seq![MicroOp::SubR8R8(r8::A, r8::B)],
        0x91u8 => seq![MicroOp::SubR8R8(r8::A, r8::C)],
        0x92u8 => seq![MicroOp::SubR8R8(r8::A, r8::D)],
        0x93u8 => seq![MicroOp::SubR8R8(r8::A, r8::E)],
        0x94u8 => seq![MicroOp::SubR8R8(r8::A, r8::H)],
        0x95u8 => seq![MicroOp::SubR8R8(r8::A, r8::L)],
        0x96u8 => seq![MicroOp::ReadMemory(r16::HL, r8::Z), MicroOp::SubR8R8(r8::A, r8::Z)],
        0x97u8 => seq![MicroOp::SubR8R8(r8::A, r8::A)],
        0x98u8 => seq![MicroOp::SubR8R8WithCarry(r8::A, r8::B)],
        0x99u8 => seq![MicroOp::SubR8R8WithCarry(r8::A, r8::C)],
        0x9Au8 => seq![MicroOp::SubR8R8WithCarry(r8::A, r8::D)],
        0x9Bu8 => seq![MicroOp::SubR8R8WithCarry(r8::A, r8::E)],
        0x9Cu8 => seq![MicroOp::SubR8R8WithCarry(r8::A, r8::H)],
        0x9Du8 => seq![MicroOp::SubR8R8WithCarry(r8::A, r8::L)],
        0x9Eu8 => seq![MicroOp::ReadMemory(r16::HL, r8::Z), MicroOp::SubR8R8WithCarry(r8::A, r8::Z)],
        0x9Fu8 => seq![MicroOp::SubR8R8WithCarry(r8::A, r8::A)],
        0xA0u8 => seq![MicroOp::AndR8R8(r8::A, r8::B)],
        0xA1u8 => seq![MicroOp::AndR8R8(r8::A, r8::C)],
        0xA2u8 => seq![MicroOp::AndR8R8(r8::A, r8::D)],
        0xA3u8 => seq![MicroOp::AndR8R8(r8::A, r8::E)],
        0xA4u8 => seq![MicroOp::AndR8R8(r8::A, r8::H)],
        0xA5u8 => seq![MicroOp::AndR8R8(r8::A, r8::L)],
        0xA6u8 => seq![MicroOp::ReadMemory(r16::HL, r8::Z), MicroOp::AndR8R8(r8::A, r8::Z)],
        0xA7u8 => seq![MicroOp::AndR8R8(r8::A, r8::A)],
        0xA8u8 => seq![MicroOp::XorR8R8(r8::A, r8::B)],
        0xA9u8 => seq![MicroOp::XorR8R8(r8::A, r8::C)],
        0xAAu8 => seq![MicroOp::XorR8R8(r8::A, r8::D)],
        0xABu8 => seq![MicroOp::XorR8R8(r8::A, r8::E)],
        0xACu8 => seq![MicroOp::XorR8R8(r8::A, r8::H)],
        0xADu8 => seq![MicroOp::XorR8R8(r8::A, r8::L)],
        0xAEu8 => seq![MicroOp::ReadMemory(r16::HL, r8::Z), MicroOp::XorR8R8(r8::A, r8::Z)],
        0xAFu8 => seq![MicroOp::XorR8R8(r8::A, r8::A)],
        0xB0u8 => seq![MicroOp::OrR8R8(r8::A, r8::B)],
        0xB1u8 => seq![MicroOp::OrR8R8(r8::A, r8::C)],
        0xB2u8 => seq![MicroOp::OrR8R8(r8::A, r8::D)],
        0xB3u8 => seq![MicroOp::OrR8R8(r8::A, r8::E)],
        0xB4u8 => seq![MicroOp::OrR8R8(r8::A, r8::H)],
        0xB5u8 => seq![MicroOp::OrR8R8(r8::A, r8::L)],
        0xB6u8 => seq![MicroOp::ReadMemory(r16::HL, r8::Z), MicroOp::OrR8R8(r8::A, r8::Z)],
        0xB7u8 => seq![MicroOp::OrR8R8(r8::A, r8::A)],
        0xB8u8 => seq![MicroOp::CpR8R8(r8::A, r8::B)],
        0xB9u8 => seq![MicroOp::CpR8R8(r8::A, r8::C)],
        0xBAu8 => seq![MicroOp::CpR8R8(r8::A, r8::D)],
        0xBBu8 => seq![MicroOp::CpR8R8(r8::A, r8::E)],
        0xBCu8 => seq![MicroOp::CpR8R8(r8::A, r8::H)],
        0xBDu8 => seq![MicroOp::CpR8R8(r8::A, r8::L)],
        0xBEu8 => seq![MicroOp::ReadMemory(r16::HL, r8::Z), MicroOp::CpR8R8(r8::A, r8::Z)],
        0xBFu8 => seq![MicroOp::CpR8R8(r8::A, r8::A)],
        0xC0u8 => seq![MicroOp::CheckCond(CondKind::NZ), MicroOp::ReadMemoryIncr(r16::SP, r8::Z), MicroOp::ReadMemoryIncr(r16::SP, r8::W), MicroOp::LoadR16R16(r16::PC, r16::WZ), MicroOp::Noop],
        0xC1u8 => seq![MicroOp::ReadMemoryIncr(r16::SP, r8::Z), MicroOp::ReadMemoryIncr(r16::SP, r8::W), MicroOp::LoadR16R16(r16::BC, r16::WZ)],
        0xC2u8 => seq![MicroOp::ReadMemoryIncr(r16::PC, r8::Z), MicroOp::ReadMemoryIncrCheck(r16::PC, r8::W, CondKind::NZ), MicroOp::LoadR16R16(r16::PC, r16::WZ), MicroOp::Noop],
        0xC3u8 => seq![MicroOp::ReadMemoryIncr(r16::PC, r8::Z), MicroOp::ReadMemoryIncr(r16::PC, r8::W), MicroOp::LoadR16R16(r16::PC, r16::WZ), MicroOp::Noop],
        0xC4u8 => seq![MicroOp::ReadMemoryIncr(r16::PC, r8::Z), MicroOp::ReadMemoryIncrCheck(r16::PC, r8::W, CondKind::NZ), MicroOp::DecR16(r16::SP), MicroOp::WriteMemoryDecr(r16::SP, r8::PcC), MicroOp::WriteMemoryReassignPc(r16::SP, r8::PcP), MicroOp::Noop],
        0xC5u8 => seq![MicroOp::DecrementR16(r16::SP), MicroOp::WriteMemoryDecr(r16::SP, r8::B), MicroOp::WriteMemory(r16::SP, r8::C), MicroOp::Noop],
        0xC6u8 => seq![MicroOp::ReadMemoryIncr(r16::PC, r8::Z), MicroOp::AddR8R8(r8::A, r8::Z)],
        0xC7u8 => seq![MicroOp::DecR16(r16::SP), MicroOp::WriteMemoryDecr(r16::SP, r8::PcC), MicroOp::WriteMemoryRst(0x00u16, r16::SP, r8::PcP), MicroOp::Noop],
        0xC8u8 => seq![MicroOp::CheckCond(CondKind::Z), MicroOp::ReadMemoryIncr(r16::SP, r8::Z), MicroOp::ReadMemoryIncr(r16::SP, r8::W), MicroOp::LoadR16R16(r16::PC, r16::WZ), MicroOp::Noop],
        0xC9u8 => seq![MicroOp::ReadMemoryIncr(r16::SP, r8::Z), MicroOp::ReadMemoryIncr(r16::SP, r8::W), MicroOp::LoadR16R16(r16::PC, r16::WZ), MicroOp::Noop],
        0xCAu8 => seq![MicroOp::ReadMemoryIncr(r16::PC, r8::Z), MicroOp::ReadMemoryIncrCheck(r16::PC, r8::W, CondKind::Z), MicroOp::LoadR16R16(r16::PC, r16::WZ), MicroOp::Noop],
        0xCBu8 => seq![MicroOp::DecodeCb],
        0xCCu8 => seq![MicroOp::ReadMemoryIncr(r16::PC, r8::Z), MicroOp::ReadMemoryIncrCheck(r16::PC, r8::W, CondKind::Z), MicroOp::DecR16(r16::SP), MicroOp::WriteMemoryDecr(r16::SP, r8::PcC), MicroOp::WriteMemoryReassignPc(r16::SP, r8::PcP), MicroOp::Noop],
        0xCDu8 => seq![MicroOp::ReadMemoryIncr(r16::PC, r8::Z), MicroOp::ReadMemoryIncr(r16::PC, r8::W), MicroOp::DecR16(r16::SP), MicroOp::WriteMemoryDecr(r16::SP, r8::PcC), MicroOp::WriteMemoryReassignPc(r16::SP, r8::PcP), MicroOp::Noop],
        0xCEu8 => seq![MicroOp::ReadMemoryIncr(r16::PC, r8::Z), MicroOp::AddR8R8WithCarry(r8::A, r8::Z)],
        0xCFu8 => seq![MicroOp::DecR16(r16::SP), MicroOp::WriteMemoryDecr(r16::SP, r8::PcC), MicroOp::WriteMemoryRst(0x08u16, r16::SP, r8::PcP), MicroOp::Noop],
        0xD0u8 => seq![MicroOp::CheckCond(CondKind::NC), MicroOp::ReadMemoryIncr(r16::SP, r8::Z), MicroOp::ReadMemoryIncr(r16::SP, r8::W), MicroOp::LoadR16R16(r16::PC, r16::WZ), MicroOp::Noop],
        0xD1u8 => seq![MicroOp::ReadMemoryIncr(r16::SP, r8::Z), MicroOp::ReadMemoryIncr(r16::SP, r8::W), MicroOp::LoadR16R16(r16::DE, r16::WZ)],
        0xD2u8 => seq![MicroOp::ReadMemoryIncr(r16::PC, r8::Z), MicroOp::ReadMemoryIncrCheck(r16::PC, r8::W, CondKind::NC), MicroOp::LoadR16R16(r16::PC, r16::WZ), MicroOp::Noop],
        0xD3u8 => seq![],
        0xD4u8 => seq![MicroOp::ReadMemoryIncr(r16::PC, r8::Z), MicroOp::ReadMemoryIncrCheck(r16::PC, r8::W, CondKind::NC), MicroOp::DecR16(r16::SP), MicroOp::WriteMemoryDecr(r16::SP, r8::PcC), MicroOp::WriteMemoryReassignPc(r16::SP, r8::PcP), MicroOp::Noop],
        0xD5u8 => seq![MicroOp::DecrementR16(r16::SP), MicroOp::WriteMemoryDecr(r16::SP, r8::D), MicroOp::WriteMemory(r16::SP, r8::E)],
        0xD6u8 => seq![MicroOp::ReadMemoryIncr(r16::PC, r8::Z), MicroOp::SubR8R8(r8::A, r8::Z)],
        0xD7u8 => seq![MicroOp::DecR16(r16::SP), MicroOp::WriteMemoryDecr(r16::SP, r8::PcC), MicroOp::WriteMemoryRst(0x0010u16, r16::SP, r8::PcP), MicroOp::Noop],
        0xD8u8 => seq![MicroOp::CheckCond(CondKind::C), MicroOp::ReadMemoryIncr(r16::SP, r8::Z), MicroOp::ReadMemoryIncr(r16::SP, r8::W), MicroOp::LoadR16R16(r16::PC, r16::WZ), MicroOp::Noop],
        0xD9u8 => seq![MicroOp::ReadMemoryIncr(r16::SP, r8::Z), MicroOp::ReadMemoryIncr(r16::SP, r8::W), MicroOp::LoadR16R16AndIme(r16::PC, r16::WZ), MicroOp::Noop],
        0xDAu8 => seq![MicroOp::ReadMemoryIncr(r16::PC, r8::Z), MicroOp::ReadMemoryIncrCheck(r16::PC, r8::W, CondKind::C), MicroOp::LoadR16R16(r16::PC, r16::WZ), MicroOp::Noop],
        0xDBu8 => seq![],
        0xDCu8 => seq![MicroOp::ReadMemoryIncr(r16::PC, r8::Z), MicroOp::ReadMemoryIncrCheck(r16::PC, r8::W, CondKind::C), MicroOp::DecR16(r16::SP), MicroOp::WriteMemoryDecr(r16::SP, r8::PcC), MicroOp::WriteMemoryReassignPc(r16::SP, r8::PcP), MicroOp::Noop],
        0xDDu8 => seq![],
        0xDEu8 => seq![MicroOp::ReadMemoryIncr(r16::PC, r8::Z), MicroOp::SubR8R8WithCarry(r8::A, r8::Z)],
        0xDFu8 => seq![MicroOp::DecR16(r16::SP), MicroOp::WriteMemoryDecr(r16::SP, r8::PcC), MicroOp::WriteMemoryRst(0x0018u16, r16::SP, r8::PcP), MicroOp::Noop],
        0xE0u8 => seq![MicroOp::ReadMemoryIncr(r16::PC, r8::Z), MicroOp::WriteMemory0xff(r8::Z, r8::A), MicroOp::Noop],
        0xE1u8 => seq![MicroOp::ReadMemoryIncr(r16::SP, r8::Z), MicroOp::ReadMemoryIncr(r16::SP, r8::W), MicroOp::LoadR16R16(r16::HL, r16::WZ)],
        0xE2u8 => seq![MicroOp::WriteMemory0xff(r8::C, r8::A), MicroOp::Noop],
        0xE3u8 => seq![],
        0xE4u8 => seq![],
        0xE5u8 => seq![MicroOp::DecrementR16(r16::SP), MicroOp::WriteMemoryDecr(r16::SP, r8::H), MicroOp::WriteMemory(r16::SP, r8::L), MicroOp::Noop],
        0xE6u8 => seq![MicroOp::ReadMemoryIncr(r16::PC, r8::Z), MicroOp::AndR8R8(r8::A, r8::Z)],
        0xE7u8 => seq![MicroOp::DecR16(r16::SP), MicroOp::WriteMemoryDecr(r16::SP, r8::PcC), MicroOp::WriteMemoryRst(0x20u16, r16::SP, r8::PcP), MicroOp::Noop],
        0xE8u8 => seq![MicroOp::ReadMemoryIncr(r16::PC, r8::Z), MicroOp::AddHlSpELow, MicroOp::AddHlSpEHigh, MicroOp::LoadR16R16(r16::SP, r16::WZ)],
        0xE9u8 => seq![MicroOp::LoadR16R16(r16::PC, r16::HL)],
        0xEAu8 => seq![MicroOp::ReadMemoryIncr(r16::PC, r8::Z), MicroOp::ReadMemoryIncr(r16::PC, r8::W), MicroOp::WriteMemory(r16::WZ, r8::A), MicroOp::Noop],
        0xEBu8 => seq![],
        0xECu8 => seq![],
        0xEDu8 => seq![],
        0xEEu8 => seq![MicroOp::ReadMemoryIncr(r16::PC, r8::Z), MicroOp::XorR8R8(r8::A, r8::Z)],
        0xEFu8 => seq![MicroOp::DecR16(r16::SP), MicroOp::WriteMemoryDecr(r16::SP, r8::PcC), MicroOp::WriteMemoryRst(0x28u16, r16::SP, r8::PcP), MicroOp::Noop],
        0xF0u8 => seq![MicroOp::ReadMemoryIncr(r16::PC, r8::Z), MicroOp::ReadMemory0xff(r8::Z, r8::Z), MicroOp::LoadR8R8(r8::A, r8::Z)],
        0xF1u8 => seq![MicroOp::ReadMemoryIncr(r16::SP, r8::Z), MicroOp::ReadMemoryIncr(r16::SP, r8::W), MicroOp::LoadR16R16AfFlags(r16::AF, r16::WZ)],
        0xF2u8 => seq![MicroOp::ReadMemory0xff(r8::C, r8::Z), MicroOp::LoadR8R8(r8::A, r8::Z)],
        0xF3u8 => seq![MicroOp::SetIme0],
        0xF4u8 => seq![MicroOp::Noop],
        0xF5u8 => seq![MicroOp::DecrementR16(r16::SP), MicroOp::WriteMemoryDecr(r16::SP, r8::A), MicroOp::WriteMemory(r16::SP, r8::F), MicroOp::Noop],
        0xF6u8 => seq![MicroOp::ReadMemoryIncr(r16::PC, r8::Z), MicroOp::OrR8R8(r8::A, r8::Z)],
        0xF7u8 => seq![MicroOp::DecR16(r16::SP), MicroOp::WriteMemoryDecr(r16::SP, r8::PcC), MicroOp::WriteMemoryRst(0x30u16, r16::SP, r8::PcP), MicroOp::Noop],
        0xF8u8 => seq![MicroOp::ReadMemoryIncr(r16::PC, r8::Z), MicroOp::LdHlSpELow, MicroOp::LdHlSpEHigh],
        0xF9u8 => seq![MicroOp::LoadR16R16(r16::SP, r16::HL), MicroOp::Noop],
        0xFAu8 => seq![MicroOp::ReadMemoryIncr(r16::PC, r8::Z), MicroOp::ReadMemoryIncr(r16::PC, r8::W), MicroOp::ReadMemory(r16::WZ, r8::Z), MicroOp::LoadR8R8(r8::A, r8::Z)],
        0xFBu8 => seq![MicroOp::SetImeDelay1],
        0xFCu8 => seq![],
        0xFDu8 => seq![],
        0xFEu8 => seq![MicroOp::ReadMemoryIncr(r16::PC, r8::Z), MicroOp::CpR8R8(r8::A, r8::Z)],
        0xFFu8 => seq![MicroOp::DecR16(r16::SP), MicroOp::WriteMemoryDecr(r16::SP, r8::PcC), MicroOp::WriteMemoryRst(0x38u16, r16::SP, r8::PcP), MicroOp::Noop],
    }
}

/// The mnemonic of each opcode of the main table.
pub open spec fn main_name(opcode: u8) -> Seq<char> {
    match opcode {
        0x00u8 => "NOP"@,
        0x01u8 => "LD BC,d16"@,
        0x02u8 => "LD (BC),A"@,
        0x03u8 => "INC BC"@,
        0x04u8 => "INC B"@,
        0x05u8 => "DEC B"@,
        0x06u8 => "LD B,d8"@,
        0x07u8 => "RLCA"@,
        0x08u8 => "LD (a16),SP"@,
        0x09u8 => "ADD HL,BC"@,
        0x0Au8 => "LD A,(BC)"@,
        0x0Bu8 => "DEC BC"@,
        0x0Cu8 => "INC C"@,
        0x0Du8 => "DEC C"@,
        0x0Eu8 => "LD C,d8"@,
        0x0Fu8 => "RRCA"@,
        0x10u8 => "STOP"@,
        0x11u8 => "LD DE,d16"@,
        0x12u8 => "LD (DE),A"@,
        0x13u8 => "INC DE"@,
        0x14u8 => "INC D"@,
        0x15u8 => "DEC D"@,
        0x16u8 => "LD D,d8"@,
        0x17u8 => "RLA"@,
        0x18u8 => "JR r8"@,
        0x19u8 => "ADD HL,DE"@,
        0x1Au8 => "LD A,(DE)"@,
        0x1Bu8 => "DEC DE"@,
        0x1Cu8 => "INC E"@,
        0x1Du8 => "DEC E"@,
        0x1Eu8 => "LD E,d8"@,
        0x1Fu8 => "RRA"@,
        0x20u8 => "JR NZ,r8"@,
        0x21u8 => "LD HL,d16"@,
        0x22u8 => "LD (HL+),A"@,
        0x23u8 => "INC HL"@,
        0x24u8 => "INC H"@,
        0x25u8 => "DEC H"@,
        0x26u8 => "LD H,d8"@,
        0x27u8 => "DAA"@,
        0x28u8 => "JR Z,r8"@,
        0x29u8 => "ADD HL,HL"@,
        0x2Au8 => "LD A,(HL+)"@,
        0x2Bu8 => "DEC HL"@,
        0x2Cu8 => "INC L"@,
        0x2Du8 => "DEC L"@,
        0x2Eu8 => "LD L,d8"@,
        0x2Fu8 => "CPL"@,
        0x30u8 => "JR NC,r8"@,
        0x31u8 => "LD SP,d16"@,
        0x32u8 => "LD (HL-),A"@,
        0x33u8 => "INC SP"@,
        0x34u8 => "INC (HL)"@,
        0x35u8 => "DEC (HL)"@,
        0x36u8 => "LD (HL),d8"@,
        0x37u8 => "SCF"@,
        0x38u8 => "JR C,r8"@,
        0x39u8 => "ADD HL,SP"@,
        0x3Au8 => "LD A,(HL-)"@,
        0x3Bu8 => "DEC SP"@,
        0x3Cu8 => "INC A"@,
        0x3Du8 => "DEC A"@,
        0x3Eu8 => "LD A,d8"@,
        0x3Fu8 => "CCF"@,
        0x40u8 => "LD B,B"@,
        0x41u8 => "LD B,C"@,
        0x42u8 => "LD B,D"@,
        0x43u8 => "LD B,E"@,
        0x44u8 => "LD B,H"@,
        0x45u8 => "LD B,L"@,
        0x46u8 => "LD B,(HL)"@,
        0x47u8 => "LD B,A"@,
        0x48u8 => "LD C,B"@,
        0x49u8 => "LD C,C"@,
        0x4Au8 => "LD C,D"@,
        0x4Bu8 => "LD C,E"@,
        0x4Cu8 => "LD C,H"@,
        0x4Du8 => "LD C,L"@,
        0x4Eu8 => "LD C,(HL)"@,
        0x4Fu8 => "LD C,A"@,
        0x50u8 => "LD D,B"@,
        0x51u8 => "LD D,C"@,
        0x52u8 => "LD D,D"@,
        0x53u8 => "LD D,E"@,
        0x54u8 => "LD D,H"@,
        0x55u8 => "LD D,L"@,
        0x56u8 => "LD D,(HL)"@,
        0x57u8 => "LD D,A"@,
        0x58u8 => "LD E,B"@,
        0x59u8 => "LD E,C"@,
        0x5Au8 => "LD E,D"@,
        0x5Bu8 => "LD E,E"@,
        0x5Cu8 => "LD E,H"@,
        0x5Du8 => "LD E,L"@,
        0x5Eu8 => "LD E,(HL)"@,
        0x5Fu8 => "LD E,A"@,
        0x60u8 => "LD H,B"@,
        0x61u8 => "LD H,C"@,
        0x62u8 => "LD H,D"@,
        0x63u8 => "LD H,E"@,
        0x64u8 => "LD H,H"@,
        0x65u8 => "LD H,L"@,
        0x66u8 => "LD H,(HL)"@,
        0x67u8 => "LD H,A"@,
        0x68u8 => "LD L,B"@,
        0x69u8 => "LD L,C"@,
        0x6Au8 => "LD L,D"@,
        0x6Bu8 => "LD L,E"@,
        0x6Cu8 => "LD L,H"@,
        0x6Du8 => "LD L,L"@,
        0x6Eu8 => "LD L,(HL)"@,
        0x6Fu8 => "LD L,A"@,
        0x70u8 => "LD (HL),B"@,
        0x71u8 => "LD (HL),C"@,
        0x72u8 => "LD (HL),D"@,
        0x73u8 => "LD (HL),E"@,
        0x74u8 => "LD (HL),H"@,
        0x75u8 => "LD (HL),L"@,
        0x76u8 => "HALT"@,
        0x77u8 => "LD (HL),A"@,
        0x78u8 => "LD A,B"@,
        0x79u8 => "LD A,C"@,
        0x7Au8 => "LD A,D"@,
        0x7Bu8 => "LD A,E"@,
        0x7Cu8 => "LD A,H"@,
        0x7Du8 => "LD A,L"@,
        0x7Eu8 => "LD A,(HL)"@,
        0x7Fu8 => "LD A,A"@,
        0x80u8 => "ADD A,B"@,
        0x81u8 => "ADD A,C"@,
        0x82u8 => "ADD A,D"@,
        0x83u8 => "ADD A,E"@,
        0x84u8 => "ADD A,H"@,
        0x85u8 => "ADD A,L"@,
        0x86u8 => "ADD A,(HL)"@,
        0x87u8 => "ADD A,A"@,
        0x88u8 => "ADC A,B"@,
        0x89u8 => "ADC A,C"@,
        0x8Au8 => "ADC A,D"@,
        0x8Bu8 => "ADC A,E"@,
        0x8Cu8 => "ADC A,H"@,
        0x8Du8 => "ADC A,L"@,
        0x8Eu8 => "ADC A,(HL)"@,
        0x8Fu8 => "ADC A,A"@,
        0x90u8 => "SUB B"@,
        0x91u8 => "SUB C"@,
        0x92u8 => "SUB D"@,
        0x93u8 => "SUB E"@,
        0x94u8 => "SUB H"@,
        0x95u8 => "SUB L"@,
        0x96u8 => "SUB (HL)"@,
        0x97u8 => "SUB A"@,
        0x98u8 => "SBC A,B"@,
        0x99u8 => "SBC A,C"@,
        0x9Au8 => "SBC A,D"@,
        0x9Bu8 => "SBC A,E"@,
        0x9Cu8 => "SBC A,H"@,
        0x9Du8 => "SBC A,L"@,
        0x9Eu8 => "SBC A,(HL)"@,
        0x9Fu8 => "SBC A,A"@,
        0xA0u8 => "AND B"@,
        0xA1u8 => "AND C"@,
        0xA2u8 => "AND D"@,
        0xA3u8 => "AND E"@,
        0xA4u8 => "AND H"@,
        0xA5u8 => "AND L"@,
        0xA6u8 => "AND (HL)"@,
        0xA7u8 => "AND A"@,
        0xA8u8 => "XOR B"@,
        0xA9u8 => "XOR C"@,
        0xAAu8 => "XOR D"@,
        0xABu8 => "XOR E"@,
        0xACu8 => "XOR H"@,
        0xADu8 => "XOR L"@,
        0xAEu8 => "XOR (HL)"@,
        0xAFu8 => "XOR A"@,
        0xB0u8 => "OR B"@,
        0xB1u8 => "OR C"@,
        0xB2u8 => "OR D"@,
        0xB3u8 => "OR E"@,
        0xB4u8 => "OR H"@,
        0xB5u8 => "OR L"@,
        0xB6u8 => "OR (HL)"@,
        0xB7u8 => "OR A"@,
        0xB8u8 => "CP B"@,
        0xB9u8 => "CP C"@,
        0xBAu8 => "CP D"@,
        0xBBu8 => "CP E"@,
        0xBCu8 => "CP H"@,
        0xBDu8 => "CP L"@,
        0xBEu8 => "CP (HL)"@,
        0xBFu8 => "CP A"@,
        0xC0u8 => "RET NZ"@,
        0xC1u8 => "POP BC"@,
        0xC2u8 => "JP NZ,a16"@,
        0xC3u8 => "JP a16"@,
        0xC4u8 => "CALL NZ,a16"@,
        0xC5u8 => "PUSH BC"@,
        0xC6u8 => "ADD A,d8"@,
        0xC7u8 => "RST 00H"@,
        0xC8u8 => "RET Z"@,
        0xC9u8 => "RET"@,
        0xCAu8 => "JP Z,a16"@,
        0xCBu8 => "PREFIX CB"@,
        0xCCu8 => "CALL Z,a16"@,
        0xCDu8 => "CALL a16"@,
        0xCEu8 => "ADC A,d8"@,
        0xCFu8 => "RST 08H"@,
        0xD0u8 => "RET NC"@,
        0xD1u8 => "POP DE"@,
        0xD2u8 => "JP NC,a16"@,
        0xD3u8 => "UNUSED"@,
        0xD4u8 => "CALL NC,a16"@,
        0xD5u8 => "PUSH DE"@,
        0xD6u8 => "SUB d8"@,
        0xD7u8 => "RST 10H"@,
        0xD8u8 => "RET C"@,
        0xD9u8 => "RETI"@,
        0xDAu8 => "JP C,a16"@,
        0xDBu8 => "UNUSED"@,
        0xDCu8 => "CALL C,a16"@,
        0xDDu8 => "UNUSED"@,
        0xDEu8 => "SBC A,d8"@,
        0xDFu8 => "RST 18H"@,
        0xE0u8 => "LDH (a8),A"@,
        0xE1u8 => "POP HL"@,
        0xE2u8 => "LD (C),A"@,
        0xE3u8 => "UNUSED"@,
        0xE4u8 => "UNUSED"@,
        0xE5u8 => "PUSH HL"@,
        0xE6u8 => "AND d8"@,
        0xE7u8 => "RST 20H"@,
        0xE8u8 => "ADD SP,r8"@,
        0xE9u8 => "JP (HL)"@,
        0xEAu8 => "LD (a16),A"@,
        0xEBu8 => "UNUSED"@,
        0xECu8 => "UNUSED"@,
        0xEDu8 => "UNUSED"@,
        0xEEu8 => "XOR d8"@,
        0xEFu8 => "RST 28H"@,
        0xF0u8 => "LDH A,(a8)"@,
        0xF1u8 => "POP AF"@,
        0xF2u8 => "LD A,(C)"@,
        0xF3u8 => "DI"@,
        0xF4u8 => "UNUSED"@,
        0xF5u8 => "PUSH AF"@,
        0xF6u8 => "OR d8"@,
        0xF7u8 => "RST 30H"@,
        0xF8u8 => "LD HL,SP+r8"@,
        0xF9u8 => "LD SP,HL"@,
        0xFAu8 => "LD A,(a16)"@,
        0xFBu8 => "EI"@,
        0xFCu8 => "UNUSED"@,
        0xFDu8 => "UNUSED"@,
        0xFEu8 => "CP d8"@,
        0xFFu8 => "RST 38H"@,
    }
}

/// The table entry of `opcode`.
fn main_instruction(opcode: u8) -> (r: Instruction)
    ensures
        r.opcode == opcode,
        r.micro_ops@ == main_micro_ops(opcode),
        r.name@ == main_name(opcode),
{
    match opcode {
        0x00u8 => Instruction { name: "NOP".to_owned(), opcode: 0x00, micro_ops: vec![MicroOp::Noop] },
        0x01u8 => Instruction { name: "LD BC,d16".to_owned(), opcode: 0x01, micro_ops: vec![MicroOp::ReadMemoryIncr(r16::PC, r8::Z), MicroOp::ReadMemoryIncr(r16::PC, r8::W), MicroOp::LoadR16R16(r16::BC, r16::WZ)] },
        0x02u8 => Instruction { name: "LD (BC),A".to_owned(), opcode: 0x02, micro_ops: vec![MicroOp::WriteMemory(r16::BC, r8::A), MicroOp::Noop] },
        0x03u8 => Instruction { name: "INC BC".to_owned(), opcode: 0x03, micro_ops: vec![MicroOp::IncR16(r16::BC), MicroOp::Noop] },
        0x04u8 => Instruction { name: "INC B".to_owned(), opcode: 0x04, micro_ops: vec![MicroOp::IncR8(r8::B)] },
        0x05u8 => Instruction { name: "DEC B".to_owned(), opcode: 0x05, micro_ops: vec![MicroOp::DecR8(r8::B)] },
        0x06u8 => Instruction { name: "LD B,d8".to_owned(), opcode: 0x06, micro_ops: vec![MicroOp::ReadMemoryIncr(r16::PC, r8::Z), MicroOp::LoadR8R8(r8::B, r8::Z)] },
        0x07u8 => Instruction { name: "RLCA".to_owned(), opcode: 0x07, micro_ops: vec![MicroOp::Rlca] },
        0x08u8 => Instruction { name: "LD (a16),SP".to_owned(), opcode: 0x08, micro_ops: vec![MicroOp::ReadMemoryIncr(r16::PC, r8::Z), MicroOp::ReadMemoryIncr(r16::PC, r8::W), MicroOp::WriteMemoryIncr(r16::WZ, r8::P), MicroOp::WriteMemory(r16::WZ, r8::S), MicroOp::Noop] },
        0x09u8 => Instruction { name: "ADD HL,BC".to_owned(), opcode: 0x09, micro_ops: vec![MicroOp::AddR8R8NoZeroFlag(r8::C, r8::L), MicroOp::AddR8R8WithCarryAndNoZeroFlag(r8::B, r8::H)] },
        0x0Au8 => Instruction { name: "LD A,(BC)".to_owned(), opcode: 0x0A, micro_ops: vec![MicroOp::ReadMemory(r16::BC, r8::Z), MicroOp::LoadR8R8(r8::A, r8::Z)] },
        0x0Bu8 => Instruction { name: "DEC BC".to_owned(), opcode: 0x0B, micro_ops: vec![MicroOp::DecR16(r16::BC), MicroOp::Noop] },
        0x0Cu8 => Instruction { name: "INC C".to_owned(), opcode: 0x0C, micro_ops: vec![MicroOp::IncR8(r8::C)] },
        0x0Du8 => Instruction { name: "DEC C".to_owned(), opcode: 0x0D, micro_ops: vec![MicroOp::DecR8(r8::C)] },
        0x0Eu8 => Instruction { name: "LD C,d8".to_owned(), opcode: 0x0E, micro_ops: vec![MicroOp::ReadMemoryIncr(r16::PC, r8::Z), MicroOp::LoadR8R8(r8::C, r8::Z)] },
        0x0Fu8 => Instruction { name: "RRCA".to_owned(), opcode: 0x0F, micro_ops: vec![MicroOp::Rrca] },
        0x10u8 => Instruction { name: "STOP".to_owned(), opcode: 0x10, micro_ops: vec![MicroOp::Stop] },
        0x11u8 => Instruction { name: "LD DE,d16".to_owned(), opcode: 0x11, micro_ops: vec![MicroOp::ReadMemoryIncr(r16::PC, r8::Z), MicroOp::ReadMemoryIncr(r16::PC, r8::W), MicroOp::LoadR16R16(r16::DE, r16::WZ)] },
        0x12u8 => Instruction { name: "LD (DE),A".to_owned(), opcode: 0x12, micro_ops: vec![MicroOp::WriteMemory(r16::DE, r8::A), MicroOp::Noop] },
        0x13u8 => Instruction { name: "INC DE".to_owned(), opcode: 0x13, micro_ops: vec![MicroOp::IncR16(r16::DE), MicroOp::Noop] },
        0x14u8 => Instruction { name: "INC D".to_owned(), opcode: 0x14, micro_ops: vec![MicroOp::IncR8(r8::D)] },
        0x15u8 => Instruction { name: "DEC D".to_owned(), opcode: 0x15, micro_ops: vec![MicroOp::DecR8(r8::D)] },
        0x16u8 => Instruction { name: "LD D,d8".to_owned(), opcode: 0x16, micro_ops: vec![MicroOp::ReadMemoryIncr(r16::PC, r8::Z), MicroOp::LoadR8R8(r8::D, r8::Z)] },
        0x17u8 => Instruction { name: "RLA".to_owned(), opcode: 0x17, micro_ops: vec![MicroOp::Rla] },
        0x18u8 => Instruction { name: "JR r8".to_owned(), opcode: 0x18, micro_ops: vec![MicroOp::ReadMemoryIncr(r16::PC, r8::Z), MicroOp::RelativeJump, MicroOp::Noop] },
        0x19u8 => Instruction { name: "ADD HL,DE".to_owned(), opcode: 0x19, micro_ops: vec![MicroOp::AddR8R8NoZeroFlag(r8::E, r8::L), MicroOp::AddR8R8WithCarryAndNoZeroFlag(r8::D, r8::H)] },
        0x1Au8 => Instruction { name: "LD A,(DE)".to_owned(), opcode: 0x1A, micro_ops: vec![MicroOp::ReadMemory(r16::DE, r8::Z), MicroOp::LoadR8R8(r8::A, r8::Z)] },
        0x1Bu8 => Instruction { name: "DEC DE".to_owned(), opcode: 0x1B, micro_ops: vec![MicroOp::DecR16(r16::DE), MicroOp::Noop] },
        0x1Cu8 => Instruction { name: "INC E".to_owned(), opcode: 0x1C, micro_ops: vec![MicroOp::IncR8(r8::E)] },
        0x1Du8 => Instruction { name: "DEC E".to_owned(), opcode: 0x1D, micro_ops: vec![MicroOp::DecR8(r8::E)] },
        0x1Eu8 => Instruction { name: "LD E,d8".to_owned(), opcode: 0x1E, micro_ops: vec![MicroOp::ReadMemoryIncr(r16::PC, r8::Z), MicroOp::LoadR8R8(r8::E, r8::Z)] },
        0x1Fu8 => Instruction { name: "RRA".to_owned(), opcode: 0x1F, micro_ops: vec![MicroOp::Rra] },
        0x20u8 => Instruction { name: "JR NZ,r8".to_owned(), opcode: 0x20, micro_ops: vec![MicroOp::ReadMemoryIncrCheck(r16::PC, r8::Z, CondKind::NZ), MicroOp::RelativeJump, MicroOp::Noop] },
        0x21u8 => Instruction { name: "LD HL,d16".to_owned(), opcode: 0x21, micro_ops: vec![MicroOp::ReadMemoryIncr(r16::PC, r8::Z), MicroOp::ReadMemoryIncr(r16::PC, r8::W), MicroOp::LoadR16R16(r16::HL, r16::WZ)] },
        0x22u8 => Instruction { name: "LD (HL+),A".to_owned(), opcode: 0x22, micro_ops: vec![MicroOp::WriteMemoryIncr(r16::HL, r8::A), MicroOp::Noop] },
        0x23u8 => Instruction { name: "INC HL".to_owned(), opcode: 0x23, micro_ops: vec![MicroOp::IncR16(r16::HL), MicroOp::Noop] },
        0x24u8 => Instruction { name: "INC H".to_owned(), opcode: 0x24, micro_ops: vec![MicroOp::IncR8(r8::H)] },
        0x25u8 => Instruction { name: "DEC H".to_owned(), opcode: 0x25, micro_ops: vec![MicroOp::DecR8(r8::H)] },
        0x26u8 => Instruction { name: "LD H,d8".to_owned(), opcode: 0x26, micro_ops: vec![MicroOp::ReadMemoryIncr(r16::PC, r8::Z), MicroOp::LoadR8R8(r8::H, r8::Z)] },
        0x27u8 => Instruction { name: "DAA".to_owned(), opcode: 0x27, micro_ops: vec![MicroOp::Daa] },
        0x28u8 => Instruction { name: "JR Z,r8".to_owned(), opcode: 0x28, micro_ops: vec![MicroOp::ReadMemoryIncrCheck(r16::PC, r8::Z, CondKind::Z), MicroOp::RelativeJump, MicroOp::Noop] },
        0x29u8 => Instruction { name: "ADD HL,HL".to_owned(), opcode: 0x29, micro_ops: vec![MicroOp::AddR8R8NoZeroFlag(r8::L, r8::L), MicroOp::AddR8R8WithCarryAndNoZeroFlag(r8::H, r8::H)] },
        0x2Au8 => Instruction { name: "LD A,(HL+)".to_owned(), opcode: 0x2A, micro_ops: vec![MicroOp::ReadMemoryIncr(r16::HL, r8::Z), MicroOp::LoadR8R8(r8::A, r8::Z)] },
        0x2Bu8 => Instruction { name: "DEC HL".to_owned(), opcode: 0x2B, micro_ops: vec![MicroOp::DecR16(r16::HL), MicroOp::Noop] },
        0x2Cu8 => Instruction { name: "INC L".to_owned(), opcode: 0x2C, micro_ops: vec![MicroOp::IncR8(r8::L)] },
        0x2Du8 => Instruction { name: "DEC L".to_owned(), opcode: 0x2D, micro_ops: vec![MicroOp::DecR8(r8::L)] },
        0x2Eu8 => Instruction { name: "LD L,d8".to_owned(), opcode: 0x2E, micro_ops: vec![MicroOp::ReadMemoryIncr(r16::PC, r8::Z), MicroOp::LoadR8R8(r8::L, r8::Z)] },
        0x2Fu8 => Instruction { name: "CPL".to_owned(), opcode: 0x2F, micro_ops: vec![MicroOp::Cpl] },
        0x30u8 => Instruction { name: "JR NC,r8".to_owned(), opcode: 0x30, micro_ops: vec![MicroOp::ReadMemoryIncrCheck(r16::PC, r8::Z, CondKind::NC), MicroOp::RelativeJump, MicroOp::Noop] },
        0x31u8 => Instruction { name: "LD SP,d16".to_owned(), opcode: 0x31, micro_ops: vec![MicroOp::ReadMemoryIncr(r16::PC, r8::Z), MicroOp::ReadMemoryIncr(r16::PC, r8::W), MicroOp::LoadR16R16(r16::SP, r16::WZ)] },
        0x32u8 => Instruction { name: "LD (HL-),A".to_owned(), opcode: 0x32, micro_ops: vec![MicroOp::WriteMemoryDecr(r16::HL, r8::A), MicroOp::Noop] },
        0x33u8 => Instruction { name: "INC SP".to_owned(), opcode: 0x33, micro_ops: vec![MicroOp::IncR16(r16::SP), MicroOp::Noop] },
        0x34u8 => Instruction { name: "INC (HL)".to_owned(), opcode: 0x34, micro_ops: vec![MicroOp::ReadMemory(r16::HL, r8::Z), MicroOp::IncAddr(r16::HL, r8::Z), MicroOp::Noop] },
        0x35u8 => Instruction { name: "DEC (HL)".to_owned(), opcode: 0x35, micro_ops: vec![MicroOp::ReadMemory(r16::HL, r8::Z), MicroOp::DecAddr(r16::HL, r8::Z), MicroOp::Noop] },
        0x36u8 => Instruction { name: "LD (HL),d8".to_owned(), opcode: 0x36, micro_ops: vec![MicroOp::ReadMemoryIncr(r16::PC, r8::Z), MicroOp::WriteMemory(r16::HL, r8::Z), MicroOp::Noop] },
        0x37u8 => Instruction { name: "SCF".to_owned(), opcode: 0x37, micro_ops: vec![MicroOp::Scf] },
        0x38u8 => Instruction { name: "JR C,r8".to_owned(), opcode: 0x38, micro_ops: vec![MicroOp::ReadMemoryIncrCheck(r16::PC, r8::Z, CondKind::C), MicroOp::RelativeJump, MicroOp::Noop] },
        0x39u8 => Instruction { name: "ADD HL,SP".to_owned(), opcode: 0x39, micro_ops: vec![MicroOp::AddR8R8NoZeroFlag(r8::P, r8::L), MicroOp::AddR8R8WithCarryAndNoZeroFlag(r8::S, r8::H)] },
        0x3Au8 => Instruction { name: "LD A,(HL-)".to_owned(), opcode: 0x3A, micro_ops: vec![MicroOp::ReadMemoryDecr(r16::HL, r8::Z), MicroOp::LoadR8R8(r8::A, r8::Z)] },
        0x3Bu8 => Instruction { name: "DEC SP".to_owned(), opcode: 0x3B, micro_ops: vec![MicroOp::DecR16(r16::SP), MicroOp::Noop] },
        0x3Cu8 => Instruction { name: "INC A".to_owned(), opcode: 0x3C, micro_ops: vec![MicroOp::IncR8(r8::A)] },
        0x3Du8 => Instruction { name: "DEC A".to_owned(), opcode: 0x3D, micro_ops: vec![MicroOp::DecR8(r8::A)] },
        0x3Eu8 => Instruction { name: "LD A,d8".to_owned(), opcode: 0x3E, micro_ops: vec![MicroOp::ReadMemoryIncr(r16::PC, r8::Z), MicroOp::LoadR8R8(r8::A, r8::Z)] },
        0x3Fu8 => Instruction { name: "CCF".to_owned(), opcode: 0x3F, micro_ops: vec![MicroOp::Ccf] },
        0x40u8 => Instruction { name: "LD B,B".to_owned(), opcode: 0x40, micro_ops: vec![MicroOp::LoadR8R8(r8::B, r8::B)] },
        0x41u8 => Instruction { name: "LD B,C".to_owned(), opcode: 0x41, micro_ops: vec![MicroOp::LoadR8R8(r8::B, r8::C)] },
        0x42u8 => Instruction { name: "LD B,D".to_owned(), opcode: 0x42, micro_ops: vec![MicroOp::LoadR8R8(r8::B, r8::D)] },
        0x43u8 => Instruction { name: "LD B,E".to_owned(), opcode: 0x43, micro_ops: vec![MicroOp::LoadR8R8(r8::B, r8::E)] },
        0x44u8 => Instruction { name: "LD B,H".to_owned(), opcode: 0x44, micro_ops: vec![MicroOp::LoadR8R8(r8::B, r8::H)] },
        0x45u8 => Instruction { name: "LD B,L".to_owned(), opcode: 0x45, micro_ops: vec![MicroOp::LoadR8R8(r8::B, r8::L)] },
        0x46u8 => Instruction { name: "LD B,(HL)".to_owned(), opcode: 0x46, micro_ops: vec![MicroOp::ReadMemory(r16::HL, r8::Z), MicroOp::LoadR8R8(r8::B, r8::Z)] },
        0x47u8 => Instruction { name: "LD B,A".to_owned(), opcode: 0x47, micro_ops: vec![MicroOp::LoadR8R8(r8::B, r8::A)] },
        0x48u8 => Instruction { name: "LD C,B".to_owned(), opcode: 0x48, micro_ops: vec![MicroOp::LoadR8R8(r8::C, r8::B)] },
        0x49u8 => Instruction { name: "LD C,C".to_owned(), opcode: 0x49, micro_ops: vec![MicroOp::LoadR8R8(r8::C, r8::C)] },
        0x4Au8 => Instruction { name: "LD C,D".to_owned(), opcode: 0x4A, micro_ops: vec![MicroOp::LoadR8R8(r8::C, r8::D)] },
        0x4Bu8 => Instruction { name: "LD C,E".to_owned(), opcode: 0x4B, micro_ops: vec![MicroOp::LoadR8R8(r8::C, r8::E)] },
        0x4Cu8 => Instruction { name: "LD C,H".to_owned(), opcode: 0x4C, micro_ops: vec![MicroOp::LoadR8R8(r8::C, r8::H)] },
        0x4Du8 => Instruction { name: "LD C,L".to_owned(), opcode: 0x4D, micro_ops: vec![MicroOp::LoadR8R8(r8::C, r8::L)] },
        0x4Eu8 => Instruction { name: "LD C,(HL)".to_owned(), opcode: 0x4E, micro_ops: vec![MicroOp::ReadMemory(r16::HL, r8::Z), MicroOp::LoadR8R8(r8::C, r8::Z)] },
        0x4Fu8 => Instruction { name: "LD C,A".to_owned(), opcode: 0x4F, micro_ops: vec![MicroOp::LoadR8R8(r8::C, r8::A)] },
        0x50u8 => Instruction { name: "LD D,B".to_owned(), opcode: 0x50, micro_ops: vec![MicroOp::LoadR8R8(r8::D, r8::B)] },
        0x51u8 => Instruction { name: "LD D,C".to_owned(), opcode: 0x51, micro_ops: vec![MicroOp::LoadR8R8(r8::D, r8::C)] },
        0x52u8 => Instruction { name: "LD D,D".to_owned(), opcode: 0x52, micro_ops: vec![MicroOp::LoadR8R8(r8::D, r8::D)] },
        0x53u8 => Instruction { name: "LD D,E".to_owned(), opcode: 0x53, micro_ops: vec![MicroOp::LoadR8R8(r8::D, r8::E)] },
        0x54u8 => Instruction { name: "LD D,H".to_owned(), opcode: 0x54, micro_ops: vec![MicroOp::LoadR8R8(r8::D, r8::H)] },
        0x55u8 => Instruction { name: "LD D,L".to_owned(), opcode: 0x55, micro_ops: vec![MicroOp::LoadR8R8(r8::D, r8::L)] },
        0x56u8 => Instruction { name: "LD D,(HL)".to_owned(), opcode: 0x56, micro_ops: vec![MicroOp::ReadMemory(r16::HL, r8::Z), MicroOp::LoadR8R8(r8::D, r8::Z)] },
        0x57u8 => Instruction { name: "LD D,A".to_owned(), opcode: 0x57, micro_ops: vec![MicroOp::LoadR8R8(r8::D, r8::A)] },
        0x58u8 => Instruction { name: "LD E,B".to_owned(), opcode: 0x58, micro_ops: vec![MicroOp::LoadR8R8(r8::E, r8::B)] },
        0x59u8 => Instruction { name: "LD E,C".to_owned(), opcode: 0x59, micro_ops: vec![MicroOp::LoadR8R8(r8::E, r8::C)] },
        0x5Au8 => Instruction { name: "LD E,D".to_owned(), opcode: 0x5A, micro_ops: vec![MicroOp::LoadR8R8(r8::E, r8::D)] },
        0x5Bu8 => Instruction { name: "LD E,E".to_owned(), opcode: 0x5B, micro_ops: vec![MicroOp::LoadR8R8(r8::E, r8::E)] },
        0x5Cu8 => Instruction { name: "LD E,H".to_owned(), opcode: 0x5C, micro_ops: vec![MicroOp::LoadR8R8(r8::E, r8::H)] },
        0x5Du8 => Instruction { name: "LD E,L".to_owned(), opcode: 0x5D, micro_ops: vec![MicroOp::LoadR8R8(r8::E, r8::L)] },
        0x5Eu8 => Instruction { name: "LD E,(HL)".to_owned(), opcode: 0x5E, micro_ops: vec![MicroOp::ReadMemory(r16::HL, r8::Z), MicroOp::LoadR8R8(r8::E, r8::Z)] },
        0x5Fu8 => Instruction { name: "LD E,A".to_owned(), opcode: 0x5F, micro_ops: vec![MicroOp::LoadR8R8(r8::E, r8::A)] },
        0x60u8 => Instruction { name: "LD H,B".to_owned(), opcode: 0x60, micro_ops: vec![MicroOp::LoadR8R8(r8::H, r8::B)] },
        0x61u8 => Instruction { name: "LD H,C".to_owned(), opcode: 0x61, micro_ops: vec![MicroOp::LoadR8R8(r8::H, r8::C)] },
        0x62u8 => Instruction { name: "LD H,D".to_owned(), opcode: 0x62, micro_ops: vec![MicroOp::LoadR8R8(r8::H, r8::D)] },
        0x63u8 => Instruction { name: "LD H,E".to_owned(), opcode: 0x63, micro_ops: vec![MicroOp::LoadR8R8(r8::H, r8::E)] },
        0x64u8 => Instruction { name: "LD H,H".to_owned(), opcode: 0x64, micro_ops: vec![MicroOp::LoadR8R8(r8::H, r8::H)] },
        0x65u8 => Instruction { name: "LD H,L".to_owned(), opcode: 0x65, micro_ops: vec![MicroOp::LoadR8R8(r8::H, r8::L)] },
        0x66u8 => Instruction { name: "LD H,(HL)".to_owned(), opcode: 0x66, micro_ops: vec![MicroOp::ReadMemory(r16::HL, r8::Z), MicroOp::LoadR8R8(r8::H, r8::Z)] },
        0x67u8 => Instruction { name: "LD H,A".to_owned(), opcode: 0x67, micro_ops: vec![MicroOp::LoadR8R8(r8::H, r8::A)] },
        0x68u8 => Instruction { name: "LD L,B".to_owned(), opcode: 0x68, micro_ops: vec![MicroOp::LoadR8R8(r8::L, r8::B)] },
        0x69u8 => Instruction { name: "LD L,C".to_owned(), opcode: 0x69, micro_ops: vec![MicroOp::LoadR8R8(r8::L, r8::C)] },
        0x6Au8 => Instruction { name: "LD L,D".to_owned(), opcode: 0x6A, micro_ops: vec![MicroOp::LoadR8R8(r8::L, r8::D)] },
        0x6Bu8 => Instruction { name: "LD L,E".to_owned(), opcode: 0x6B, micro_ops: vec![MicroOp::LoadR8R8(r8::L, r8::E)] },
        0x6Cu8 => Instruction { name: "LD L,H".to_owned(), opcode: 0x6C, micro_ops: vec![MicroOp::LoadR8R8(r8::L, r8::H)] },
        0x6Du8 => Instruction { name: "LD L,L".to_owned(), opcode: 0x6D, micro_ops: vec![MicroOp::LoadR8R8(r8::L, r8::L)] },
        0x6Eu8 => Instruction { name: "LD L,(HL)".to_owned(), opcode: 0x6E, micro_ops: vec![MicroOp::ReadMemory(r16::HL, r8::Z), MicroOp::LoadR8R8(r8::L, r8::Z)] },
        0x6Fu8 => Instruction { name: "LD L,A".to_owned(), opcode: 0x6F, micro_ops: vec![MicroOp::LoadR8R8(r8::L, r8::A)] },
        0x70u8 => Instruction { name: "LD (HL),B".to_owned(), opcode: 0x70, micro_ops: vec![MicroOp::WriteMemory(r16::HL, r8::B), MicroOp::Noop] },
        0x71u8 => Instruction { name: "LD (HL),C".to_owned(), opcode: 0x71, micro_ops: vec![MicroOp::WriteMemory(r16::HL, r8::C), MicroOp::Noop] },
        0x72u8 => Instruction { name: "LD (HL),D".to_owned(), opcode: 0x72, micro_ops: vec![MicroOp::WriteMemory(r16::HL, r8::D), MicroOp::Noop] },
        0x73u8 => Instruction { name: "LD (HL),E".to_owned(), opcode: 0x73, micro_ops: vec![MicroOp::WriteMemory(r16::HL, r8::E), MicroOp::Noop] },
        0x74u8 => Instruction { name: "LD (HL),H".to_owned(), opcode: 0x74, micro_ops: vec![MicroOp::WriteMemory(r16::HL, r8::H), MicroOp::Noop] },
        0x75u8 => Instruction { name: "LD (HL),L".to_owned(), opcode: 0x75, micro_ops: vec![MicroOp::WriteMemory(r16::HL, r8::L), MicroOp::Noop] },
        0x76u8 => Instruction { name: "HALT".to_owned(), opcode: 0x76, micro_ops: vec![MicroOp::Halt] },
        0x77u8 => Instruction { name: "LD (HL),A".to_owned(), opcode: 0x77, micro_ops: vec![MicroOp::WriteMemory(r16::HL, r8::A), MicroOp::Noop] },
        0x78u8 => Instruction { name: "LD A,B".to_owned(), opcode: 0x78, micro_ops: vec![MicroOp::LoadR8R8(r8::A, r8::B)] },
        0x79u8 => Instruction { name: "LD A,C".to_owned(), opcode: 0x79, micro_ops: vec![MicroOp::LoadR8R8(r8::A, r8::C)] },
        0x7Au8 => Instruction { name: "LD A,D".to_owned(), opcode: 0x7A, micro_ops: vec![MicroOp::LoadR8R8(r8::A, r8::D)] },
        0x7Bu8 => Instruction { name: "LD A,E".to_owned(), opcode: 0x7B, micro_ops: vec![MicroOp::LoadR8R8(r8::A, r8::E)] },
        0x7Cu8 => Instruction { name: "LD A,H".to_owned(), opcode: 0x7C, micro_ops: vec![MicroOp::LoadR8R8(r8::A, r8::H)] },
        0x7Du8 => Instruction { name: "LD A,L".to_owned(), opcode: 0x7D, micro_ops: vec![MicroOp::LoadR8R8(r8::A, r8::L)] },
        0x7Eu8 => Instruction { name: "LD A,(HL)".to_owned(), opcode: 0x7E, micro_ops: vec![MicroOp::ReadMemory(r16::HL, r8::Z), MicroOp::LoadR8R8(r8::A, r8::Z)] },
        0x7Fu8 => Instruction { name: "LD A,A".to_owned(), opcode: 0x7F, micro_ops: vec![MicroOp::LoadR8R8(r8::A, r8::A)] },
        0x80u8 => Instruction { name: "ADD A,B".to_owned(), opcode: 0x80, micro_ops: vec![MicroOp::AddR8R8(r8::A, r8::B)] },
        0x81u8 => Instruction { name: "ADD A,C".to_owned(), opcode: 0x81, micro_ops: vec![MicroOp::AddR8R8(r8::A, r8::C)] },
        0x82u8 => Instruction { name: "ADD A,D".to_owned(), opcode: 0x82, micro_ops: vec![MicroOp::AddR8R8(r8::A, r8::D)] },
        0x83u8 => Instruction { name: "ADD A,E".to_owned(), opcode: 0x83, micro_ops: vec![MicroOp::AddR8R8(r8::A, r8::E)] },
        0x84u8 => Instruction { name: "ADD A,H".to_owned(), opcode: 0x84, micro_ops: vec![MicroOp::AddR8R8(r8::A, r8::H)] },
        0x85u8 => Instruction { name: "ADD A,L".to_owned(), opcode: 0x85, micro_ops: vec![MicroOp::AddR8R8(r8::A, r8::L)] },
        0x86u8 => Instruction { name: "ADD A,(HL)".to_owned(), opcode: 0x86, micro_ops: vec![MicroOp::ReadMemory(r16::HL, r8::Z), MicroOp::AddR8R8(r8::A, r8::Z)] },
        0x87u8 => Instruction { name: "ADD A,A".to_owned(), opcode: 0x87, micro_ops: vec![MicroOp::AddR8R8(r8::A, r8::A)] },
        0x88u8 => Instruction { name: "ADC A,B".to_owned(), opcode: 0x88, micro_ops: vec![MicroOp::AddR8R8WithCarry(r8::A, r8::B)] },
        0x89u8 => Instruction { name: "ADC A,C".to_owned(), opcode: 0x89, micro_ops: vec![MicroOp::AddR8R8WithCarry(r8::A, r8::C)] },
        0x8Au8 => Instruction { name: "ADC A,D".to_owned(), opcode: 0x8A, micro_ops: vec![MicroOp::AddR8R8WithCarry(r8::A, r8::D)] },
        0x8Bu8 => Instruction { name: "ADC A,E".to_owned(), opcode: 0x8B, micro_ops: vec![MicroOp::AddR8R8WithCarry(r8::A, r8::E)] },
        0x8Cu8 => Instruction { name: "ADC A,H".to_owned(), opcode: 0x8C, micro_ops: vec![MicroOp::AddR8R8WithCarry(r8::A, r8::H)] },
        0x8Du8 => Instruction { name: "ADC A,L".to_owned(), opcode: 0x8D, micro_ops: vec![MicroOp::AddR8R8WithCarry(r8::A, r8::L)] },
        0x8Eu8 => Instruction { name: "ADC A,(HL)".to_owned(), opcode: 0x8E, micro_ops: vec![MicroOp::ReadMemory(r16::HL, r8::Z), MicroOp::AddR8R8WithCarry(r8::A, r8::Z)] },
        0x8Fu8 => Instruction { name: "ADC A,A".to_owned(), opcode: 0x8F, micro_ops: vec![MicroOp::AddR8R8WithCarry(r8::A, r8::A)] },
        0x90u8 => Instruction { name: "SUB B".to_owned(), opcode: 0x90, micro_ops: vec![MicroOp::SubR8R8(r8::A, r8::B)] },
        0x91u8 => Instruction { name: "SUB C".to_owned(), opcode: 0x91, micro_ops: vec![MicroOp::SubR8R8(r8::A, r8::C)] },
        0x92u8 => Instruction { name: "SUB D".to_owned(), opcode: 0x92, micro_ops: vec![MicroOp::SubR8R8(r8::A, r8::D)] },
        0x93u8 => Instruction { name: "SUB E".to_owned(), opcode: 0x93, micro_ops: vec![MicroOp::SubR8R8(r8::A, r8::E)] },
        0x94u8 => Instruction { name: "SUB H".to_owned(), opcode: 0x94, micro_ops: vec![MicroOp::SubR8R8(r8::A, r8::H)] },
        0x95u8 => Instruction { name: "SUB L".to_owned(), opcode: 0x95, micro_ops: vec![MicroOp::SubR8R8(r8::A, r8::L)] },
        0x96u8 => Instruction { name: "SUB (HL)".to_owned(), opcode: 0x96, micro_ops: vec![MicroOp::ReadMemory(r16::HL, r8::Z), MicroOp::SubR8R8(r8::A, r8::Z)] },
        0x97u8 => Instruction { name: "SUB A".to_owned(), opcode: 0x97, micro_ops: vec![MicroOp::SubR8R8(r8::A, r8::A)] },
        0x98u8 => Instruction { name: "SBC A,B".to_owned(), opcode: 0x98, micro_ops: vec![MicroOp::SubR8R8WithCarry(r8::A, r8::B)] },
        0x99u8 => Instruction { name: "SBC A,C".to_owned(), opcode: 0x99, micro_ops: vec![MicroOp::SubR8R8WithCarry(r8::A, r8::C)] },
        0x9Au8 => Instruction { name: "SBC A,D".to_owned(), opcode: 0x9A, micro_ops: vec![MicroOp::SubR8R8WithCarry(r8::A, r8::D)] },
        0x9Bu8 => Instruction { name: "SBC A,E".to_owned(), opcode: 0x9B, micro_ops: vec![MicroOp::SubR8R8WithCarry(r8::A, r8::E)] },
        0x9Cu8 => Instruction { name: "SBC A,H".to_owned(), opcode: 0x9C, micro_ops: vec![MicroOp::SubR8R8WithCarry(r8::A, r8::H)] },
        0x9Du8 => Instruction { name: "SBC A,L".to_owned(), opcode: 0x9D, micro_ops: vec![MicroOp::SubR8R8WithCarry(r8::A, r8::L)] },
        0x9Eu8 => Instruction { name: "SBC A,(HL)".to_owned(), opcode: 0x9E, micro_ops: vec![MicroOp::ReadMemory(r16::HL, r8::Z), MicroOp::SubR8R8WithCarry(r8::A, r8::Z)] },
        0x9Fu8 => Instruction { name: "SBC A,A".to_owned(), opcode: 0x9F, micro_ops: vec![MicroOp::SubR8R8WithCarry(r8::A, r8::A)] },
        0xA0u8 => Instruction { name: "AND B".to_owned(), opcode: 0xA0, micro_ops: vec![MicroOp::AndR8R8(r8::A, r8::B)] },
        0xA1u8 => Instruction { name: "AND C".to_owned(), opcode: 0xA1, micro_ops: vec![MicroOp::AndR8R8(r8::A, r8::C)] },
        0xA2u8 => Instruction { name: "AND D".to_owned(), opcode: 0xA2, micro_ops: vec![MicroOp::AndR8R8(r8::A, r8::D)] },
        0xA3u8 => Instruction { name: "AND E".to_owned(), opcode: 0xA3, micro_ops: vec![MicroOp::AndR8R8(r8::A, r8::E)] },
        0xA4u8 => Instruction { name: "AND H".to_owned(), opcode: 0xA4, micro_ops: vec![MicroOp::AndR8R8(r8::A, r8::H)] },
        0xA5u8 => Instruction { name: "AND L".to_owned(), opcode: 0xA5, micro_ops: vec![MicroOp::AndR8R8(r8::A, r8::L)] },
        0xA6u8 => Instruction { name: "AND (HL)".to_owned(), opcode: 0xA6, micro_ops: vec![MicroOp::ReadMemory(r16::HL, r8::Z), MicroOp::AndR8R8(r8::A, r8::Z)] },
        0xA7u8 => Instruction { name: "AND A".to_owned(), opcode: 0xA7, micro_ops: vec![MicroOp::AndR8R8(r8::A, r8::A)] },
        0xA8u8 => Instruction { name: "XOR B".to_owned(), opcode: 0xA8, micro_ops: vec![MicroOp::XorR8R8(r8::A, r8::B)] },
        0xA9u8 => Instruction { name: "XOR C".to_owned(), opcode: 0xA9, micro_ops: vec![MicroOp::XorR8R8(r8::A, r8::C)] },
        0xAAu8 => Instruction { name: "XOR D".to_owned(), opcode: 0xAA, micro_ops: vec![MicroOp::XorR8R8(r8::A, r8::D)] },
        0xABu8 => Instruction { name: "XOR E".to_owned(), opcode: 0xAB, micro_ops: vec![MicroOp::XorR8R8(r8::A, r8::E)] },
        0xACu8 => Instruction { name: "XOR H".to_owned(), opcode: 0xAC, micro_ops: vec![MicroOp::XorR8R8(r8::A, r8::H)] },
        0xADu8 => Instruction { name: "XOR L".to_owned(), opcode: 0xAD, micro_ops: vec![MicroOp::XorR8R8(r8::A, r8::L)] },
        0xAEu8 => Instruction { name: "XOR (HL)".to_owned(), opcode: 0xAE, micro_ops: vec![MicroOp::ReadMemory(r16::HL, r8::Z), MicroOp::XorR8R8(r8::A, r8::Z)] },
        0xAFu8 => Instruction { name: "XOR A".to_owned(), opcode: 0xAF, micro_ops: vec![MicroOp::XorR8R8(r8::A, r8::A)] },
        0xB0u8 => Instruction { name: "OR B".to_owned(), opcode: 0xB0, micro_ops: vec![MicroOp::OrR8R8(r8::A, r8::B)] },
        0xB1u8 => Instruction { name: "OR C".to_owned(), opcode: 0xB1, micro_ops: vec![MicroOp::OrR8R8(r8::A, r8::C)] },
        0xB2u8 => Instruction { name: "OR D".to_owned(), opcode: 0xB2, micro_ops: vec![MicroOp::OrR8R8(r8::A, r8::D)] },
        0xB3u8 => Instruction { name: "OR E".to_owned(), opcode: 0xB3, micro_ops: vec![MicroOp::OrR8R8(r8::A, r8::E)] },
        0xB4u8 => Instruction { name: "OR H".to_owned(), opcode: 0xB4, micro_ops: vec![MicroOp::OrR8R8(r8::A, r8::H)] },
        0xB5u8 => Instruction { name: "OR L".to_owned(), opcode: 0xB5, micro_ops: vec![MicroOp::OrR8R8(r8::A, r8::L)] },
        0xB6u8 => Instruction { name: "OR (HL)".to_owned(), opcode: 0xB6, micro_ops: vec![MicroOp::ReadMemory(r16::HL, r8::Z), MicroOp::OrR8R8(r8::A, r8::Z)] },
        0xB7u8 => Instruction { name: "OR A".to_owned(), opcode: 0xB7, micro_ops: vec![MicroOp::OrR8R8(r8::A, r8::A)] },
        0xB8u8 => Instruction { name: "CP B".to_owned(), opcode: 0xB8, micro_ops: vec![MicroOp::CpR8R8(r8::A, r8::B)] },
        0xB9u8 => Instruction { name: "CP C".to_owned(), opcode: 0xB9, micro_ops: vec![MicroOp::CpR8R8(r8::A, r8::C)] },
        0xBAu8 => Instruction { name: "CP D".to_owned(), opcode: 0xBA, micro_ops: vec![MicroOp::CpR8R8(r8::A, r8::D)] },
        0xBBu8 => Instruction { name: "CP E".to_owned(), opcode: 0xBB, micro_ops: vec![MicroOp::CpR8R8(r8::A, r8::E)] },
        0xBCu8 => Instruction { name: "CP H".to_owned(), opcode: 0xBC, micro_ops: vec![MicroOp::CpR8R8(r8::A, r8::H)] },
        0xBDu8 => Instruction { name: "CP L".to_owned(), opcode: 0xBD, micro_ops: vec![MicroOp::CpR8R8(r8::A, r8::L)] },
        0xBEu8 => Instruction { name: "CP (HL)".to_owned(), opcode: 0xBE, micro_ops: vec![MicroOp::ReadMemory(r16::HL, r8::Z), MicroOp::CpR8R8(r8::A, r8::Z)] },
        0xBFu8 => Instruction { name: "CP A".to_owned(), opcode: 0xBF, micro_ops: vec![MicroOp::CpR8R8(r8::A, r8::A)] },
        0xC0u8 => Instruction { name: "RET NZ".to_owned(), opcode: 0xC0, micro_ops: vec![MicroOp::CheckCond(CondKind::NZ), MicroOp::ReadMemoryIncr(r16::SP, r8::Z), MicroOp::ReadMemoryIncr(r16::SP, r8::W), MicroOp::LoadR16R16(r16::PC, r16::WZ), MicroOp::Noop] },
        0xC1u8 => Instruction { name: "POP BC".to_owned(), opcode: 0xC1, micro_ops: vec![MicroOp::ReadMemoryIncr(r16::SP, r8::Z), MicroOp::ReadMemoryIncr(r16::SP, r8::W), MicroOp::LoadR16R16(r16::BC, r16::WZ)] },
        0xC2u8 => Instruction { name: "JP NZ,a16".to_owned(), opcode: 0xC2, micro_ops: vec![MicroOp::ReadMemoryIncr(r16::PC, r8::Z), MicroOp::ReadMemoryIncrCheck(r16::PC, r8::W, CondKind::NZ), MicroOp::LoadR16R16(r16::PC, r16::WZ), MicroOp::Noop] },
        0xC3u8 => Instruction { name: "JP a16".to_owned(), opcode: 0xC3, micro_ops: vec![MicroOp::ReadMemoryIncr(r16::PC, r8::Z), MicroOp::ReadMemoryIncr(r16::PC, r8::W), MicroOp::LoadR16R16(r16::PC, r16::WZ), MicroOp::Noop] },
        0xC4u8 => Instruction { name: "CALL NZ,a16".to_owned(), opcode: 0xC4, micro_ops: vec![MicroOp::ReadMemoryIncr(r16::PC, r8::Z), MicroOp::ReadMemoryIncrCheck(r16::PC, r8::W, CondKind::NZ), MicroOp::DecR16(r16::SP), MicroOp::WriteMemoryDecr(r16::SP, r8::PcC), MicroOp::WriteMemoryReassignPc(r16::SP, r8::PcP), MicroOp::Noop] },
        0xC5u8 => Instruction { name: "PUSH BC".to_owned(), opcode: 0xC5, micro_ops: vec![MicroOp::DecrementR16(r16::SP), MicroOp::WriteMemoryDecr(r16::SP, r8::B), MicroOp::WriteMemory(r16::SP, r8::C), MicroOp::Noop] },
        0xC6u8 => Instruction { name: "ADD A,d8".to_owned(), opcode: 0xC6, micro_ops: vec![MicroOp::ReadMemoryIncr(r16::PC, r8::Z), MicroOp::AddR8R8(r8::A, r8::Z)] },
        0xC7u8 => Instruction { name: "RST 00H".to_owned(), opcode: 0xC7, micro_ops: vec![MicroOp::DecR16(r16::SP), MicroOp::WriteMemoryDecr(r16::SP, r8::PcC), MicroOp::WriteMemoryRst(0x00u16, r16::SP, r8::PcP), MicroOp::Noop] },
        0xC8u8 => Instruction { name: "RET Z".to_owned(), opcode: 0xC8, micro_ops: vec![MicroOp::CheckCond(CondKind::Z), MicroOp::ReadMemoryIncr(r16::SP, r8::Z), MicroOp::ReadMemoryIncr(r16::SP, r8::W), MicroOp::LoadR16R16(r16::PC, r16::WZ), MicroOp::Noop] },
        0xC9u8 => Instruction { name: "RET".to_owned(), opcode: 0xC9, micro_ops: vec![MicroOp::ReadMemoryIncr(r16::SP, r8::Z), MicroOp::ReadMemoryIncr(r16::SP, r8::W), MicroOp::LoadR16R16(r16::PC, r16::WZ), MicroOp::Noop] },
        0xCAu8 => Instruction { name: "JP Z,a16".to_owned(), opcode: 0xCA, micro_ops: vec![MicroOp::ReadMemoryIncr(r16::PC, r8::Z), MicroOp::ReadMemoryIncrCheck(r16::PC, r8::W, CondKind::Z), MicroOp::LoadR16R16(r16::PC, r16::WZ), MicroOp::Noop] },
        0xCBu8 => Instruction { name: "PREFIX CB".to_owned(), opcode: 0xCB, micro_ops: vec![MicroOp::DecodeCb] },
        0xCCu8 => Instruction { name: "CALL Z,a16".to_owned(), opcode: 0xCC, micro_ops: vec![MicroOp::ReadMemoryIncr(r16::PC, r8::Z), MicroOp::ReadMemoryIncrCheck(r16::PC, r8::W, CondKind::Z), MicroOp::DecR16(r16::SP), MicroOp::WriteMemoryDecr(r16::SP, r8::PcC), MicroOp::WriteMemoryReassignPc(r16::SP, r8::PcP), MicroOp::Noop] },
        0xCDu8 => Instruction { name: "CALL a16".to_owned(), opcode: 0xCD, micro_ops: vec![MicroOp::ReadMemoryIncr(r16::PC, r8::Z), MicroOp::ReadMemoryIncr(r16::PC, r8::W), MicroOp::DecR16(r16::SP), MicroOp::WriteMemoryDecr(r16::SP, r8::PcC), MicroOp::WriteMemoryReassignPc(r16::SP, r8::PcP), MicroOp::Noop] },
        0xCEu8 => Instruction { name: "ADC A,d8".to_owned(), opcode: 0xCE, micro_ops: vec![MicroOp::ReadMemoryIncr(r16::PC, r8::Z), MicroOp::AddR8R8WithCarry(r8::A, r8::Z)] },
        0xCFu8 => Instruction { name: "RST 08H".to_owned(), opcode: 0xCF, micro_ops: vec![MicroOp::DecR16(r16::SP), MicroOp::WriteMemoryDecr(r16::SP, r8::PcC), MicroOp::WriteMemoryRst(0x08u16, r16::SP, r8::PcP), MicroOp::Noop] },
        0xD0u8 => Instruction { name: "RET NC".to_owned(), opcode: 0xD0, micro_ops: vec![MicroOp::CheckCond(CondKind::NC), MicroOp::ReadMemoryIncr(r16::SP, r8::Z), MicroOp::ReadMemoryIncr(r16::SP, r8::W), MicroOp::LoadR16R16(r16::PC, r16::WZ), MicroOp::Noop] },
        0xD1u8 => Instruction { name: "POP DE".to_owned(), opcode: 0xD1, micro_ops: vec![MicroOp::ReadMemoryIncr(r16::SP, r8::Z), MicroOp::ReadMemoryIncr(r16::SP, r8::W), MicroOp::LoadR16R16(r16::DE, r16::WZ)] },
        0xD2u8 => Instruction { name: "JP NC,a16".to_owned(), opcode: 0xD2, micro_ops: vec![MicroOp::ReadMemoryIncr(r16::PC, r8::Z), MicroOp::ReadMemoryIncrCheck(r16::PC, r8::W, CondKind::NC), MicroOp::LoadR16R16(r16::PC, r16::WZ), MicroOp::Noop] },
        0xD3u8 => Instruction { name: "UNUSED".to_owned(), opcode: 0xD3, micro_ops: Vec::new() },
        0xD4u8 => Instruction { name: "CALL NC,a16".to_owned(), opcode: 0xD4, micro_ops: vec![MicroOp::ReadMemoryIncr(r16::PC, r8::Z), MicroOp::ReadMemoryIncrCheck(r16::PC, r8::W, CondKind::NC), MicroOp::DecR16(r16::SP), MicroOp::WriteMemoryDecr(r16::SP, r8::PcC), MicroOp::WriteMemoryReassignPc(r16::SP, r8::PcP), MicroOp::Noop] },
        0xD5u8 => Instruction { name: "PUSH DE".to_owned(), opcode: 0xD5, micro_ops: vec![MicroOp::DecrementR16(r16::SP), MicroOp::WriteMemoryDecr(r16::SP, r8::D), MicroOp::WriteMemory(r16::SP, r8::E)] },
        0xD6u8 => Instruction { name: "SUB d8".to_owned(), opcode: 0xD6, micro_ops: vec![MicroOp::ReadMemoryIncr(r16::PC, r8::Z), MicroOp::SubR8R8(r8::A, r8::Z)] },
        0xD7u8 => Instruction { name: "RST 10H".to_owned(), opcode: 0xD7, micro_ops: vec![MicroOp::DecR16(r16::SP), MicroOp::WriteMemoryDecr(r16::SP, r8::PcC), MicroOp::WriteMemoryRst(0x0010u16, r16::SP, r8::PcP), MicroOp::Noop] },
        0xD8u8 => Instruction { name: "RET C".to_owned(), opcode: 0xD8, micro_ops: vec![MicroOp::CheckCond(CondKind::C), MicroOp::ReadMemoryIncr(r16::SP, r8::Z), MicroOp::ReadMemoryIncr(r16::SP, r8::W), MicroOp::LoadR16R16(r16::PC, r16::WZ), MicroOp::Noop] },
        0xD9u8 => Instruction { name: "RETI".to_owned(), opcode: 0xD9, micro_ops: vec![MicroOp::ReadMemoryIncr(r16::SP, r8::Z), MicroOp::ReadMemoryIncr(r16::SP, r8::W), MicroOp::LoadR16R16AndIme(r16::PC, r16::WZ), MicroOp::Noop] },
        0xDAu8 => Instruction { name: "JP C,a16".to_owned(), opcode: 0xDA, micro_ops: vec![MicroOp::ReadMemoryIncr(r16::PC, r8::Z), MicroOp::ReadMemoryIncrCheck(r16::PC, r8::W, CondKind::C), MicroOp::LoadR16R16(r16::PC, r16::WZ), MicroOp::Noop] },
        0xDBu8 => Instruction { name: "UNUSED".to_owned(), opcode: 0xDB, micro_ops: Vec::new() },
        0xDCu8 => Instruction { name: "CALL C,a16".to_owned(), opcode: 0xDC, micro_ops: vec![MicroOp::ReadMemoryIncr(r16::PC, r8::Z), MicroOp::ReadMemoryIncrCheck(r16::PC, r8::W, CondKind::C), MicroOp::DecR16(r16::SP), MicroOp::WriteMemoryDecr(r16::SP, r8::PcC), MicroOp::WriteMemoryReassignPc(r16::SP, r8::PcP), MicroOp::Noop] },
        0xDDu8 => Instruction { name: "UNUSED".to_owned(), opcode: 0xDD, micro_ops: Vec::new() },
        0xDEu8 => Instruction { name: "SBC A,d8".to_owned(), opcode: 0xDE, micro_ops: vec![MicroOp::ReadMemoryIncr(r16::PC, r8::Z), MicroOp::SubR8R8WithCarry(r8::A, r8::Z)] },
        0xDFu8 => Instruction { name: "RST 18H".to_owned(), opcode: 0xDF, micro_ops: vec![MicroOp::DecR16(r16::SP), MicroOp::WriteMemoryDecr(r16::SP, r8::PcC), MicroOp::WriteMemoryRst(0x0018u16, r16::SP, r8::PcP), MicroOp::Noop] },
        0xE0u8 => Instruction { name: "LDH (a8),A".to_owned(), opcode: 0xE0, micro_ops: vec![MicroOp::ReadMemoryIncr(r16::PC, r8::Z), MicroOp::WriteMemory0xff(r8::Z, r8::A), MicroOp::Noop] },
        0xE1u8 => Instruction { name: "POP HL".to_owned(), opcode: 0xE1, micro_ops: vec![MicroOp::ReadMemoryIncr(r16::SP, r8::Z), MicroOp::ReadMemoryIncr(r16::SP, r8::W), MicroOp::LoadR16R16(r16::HL, r16::WZ)] },
        0xE2u8 => Instruction { name: "LD (C),A".to_owned(), opcode: 0xE2, micro_ops: vec![MicroOp::WriteMemory0xff(r8::C, r8::A), MicroOp::Noop] },
        0xE3u8 => Instruction { name: "UNUSED".to_owned(), opcode: 0xE3, micro_ops: Vec::new() },
        0xE4u8 => Instruction { name: "UNUSED".to_owned(), opcode: 0xE4, micro_ops: Vec::new() },
        0xE5u8 => Instruction { name: "PUSH HL".to_owned(), opcode: 0xE5, micro_ops: vec![MicroOp::DecrementR16(r16::SP), MicroOp::WriteMemoryDecr(r16::SP, r8::H), MicroOp::WriteMemory(r16::SP, r8::L), MicroOp::Noop] },
        0xE6u8 => Instruction { name: "AND d8".to_owned(), opcode: 0xE6, micro_ops: vec![MicroOp::ReadMemoryIncr(r16::PC, r8::Z), MicroOp::AndR8R8(r8::A, r8::Z)] },
        0xE7u8 => Instruction { name: "RST 20H".to_owned(), opcode: 0xE7, micro_ops: vec![MicroOp::DecR16(r16::SP), MicroOp::WriteMemoryDecr(r16::SP, r8::PcC), MicroOp::WriteMemoryRst(0x20u16, r16::SP, r8::PcP), MicroOp::Noop] },
        0xE8u8 => Instruction { name: "ADD SP,r8".to_owned(), opcode: 0xE8, micro_ops: vec![MicroOp::ReadMemoryIncr(r16::PC, r8::Z), MicroOp::AddHlSpELow, MicroOp::AddHlSpEHigh, MicroOp::LoadR16R16(r16::SP, r16::WZ)] },
        0xE9u8 => Instruction { name: "JP (HL)".to_owned(), opcode: 0xE9, micro_ops: vec![MicroOp::LoadR16R16(r16::PC, r16::HL)] },
        0xEAu8 => Instruction { name: "LD (a16),A".to_owned(), opcode: 0xEA, micro_ops: vec![MicroOp::ReadMemoryIncr(r16::PC, r8::Z), MicroOp::ReadMemoryIncr(r16::PC, r8::W), MicroOp::WriteMemory(r16::WZ, r8::A), MicroOp::Noop] },
        0xEBu8 => Instruction { name: "UNUSED".to_owned(), opcode: 0xEB, micro_ops: Vec::new() },
        0xECu8 => Instruction { name: "UNUSED".to_owned(), opcode: 0xEC, micro_ops: Vec::new() },
        0xEDu8 => Instruction { name: "UNUSED".to_owned(), opcode: 0xED, micro_ops: Vec::new() },
        0xEEu8 => Instruction { name: "XOR d8".to_owned(), opcode: 0xEE, micro_ops: vec![MicroOp::ReadMemoryIncr(r16::PC, r8::Z), MicroOp::XorR8R8(r8::A, r8::Z)] },
        0xEFu8 => Instruction { name: "RST 28H".to_owned(), opcode: 0xEF, micro_ops: vec![MicroOp::DecR16(r16::SP), MicroOp::WriteMemoryDecr(r16::SP, r8::PcC), MicroOp::WriteMemoryRst(0x28u16, r16::SP, r8::PcP), MicroOp::Noop] },
        0xF0u8 => Instruction { name: "LDH A,(a8)".to_owned(), opcode: 0xF0, micro_ops: vec![MicroOp::ReadMemoryIncr(r16::PC, r8::Z), MicroOp::ReadMemory0xff(r8::Z, r8::Z), MicroOp::LoadR8R8(r8::A, r8::Z)] },
        0xF1u8 => Instruction { name: "POP AF".to_owned(), opcode: 0xF1, micro_ops: vec![MicroOp::ReadMemoryIncr(r16::SP, r8::Z), MicroOp::ReadMemoryIncr(r16::SP, r8::W), MicroOp::LoadR16R16AfFlags(r16::AF, r16::WZ)] },
        0xF2u8 => Instruction { name: "LD A,(C)".to_owned(), opcode: 0xF2, micro_ops: vec![MicroOp::ReadMemory0xff(r8::C, r8::Z), MicroOp::LoadR8R8(r8::A, r8::Z)] },
        0xF3u8 => Instruction { name: "DI".to_owned(), opcode: 0xF3, micro_ops: vec![MicroOp::SetIme0] },
        0xF4u8 => Instruction { name: "UNUSED".to_owned(), opcode: 0xF4, micro_ops: vec![MicroOp::Noop] },
        0xF5u8 => Instruction { name: "PUSH AF".to_owned(), opcode: 0xF5, micro_ops: vec![MicroOp::DecrementR16(r16::SP), MicroOp::WriteMemoryDecr(r16::SP, r8::A), MicroOp::WriteMemory(r16::SP, r8::F), MicroOp::Noop] },
        0xF6u8 => Instruction { name: "OR d8".to_owned(), opcode: 0xF6, micro_ops: vec![MicroOp::ReadMemoryIncr(r16::PC, r8::Z), MicroOp::OrR8R8(r8::A, r8::Z)] },
        0xF7u8 => Instruction { name: "RST 30H".to_owned(), opcode: 0xF7, micro_ops: vec![MicroOp::DecR16(r16::SP), MicroOp::WriteMemoryDecr(r16::SP, r8::PcC), MicroOp::WriteMemoryRst(0x30u16, r16::SP, r8::PcP), MicroOp::Noop] },
        0xF8u8 => Instruction { name: "LD HL,SP+r8".to_owned(), opcode: 0xF8, micro_ops: vec![MicroOp::ReadMemoryIncr(r16::PC, r8::Z), MicroOp::LdHlSpELow, MicroOp::LdHlSpEHigh] },
        0xF9u8 => Instruction { name: "LD SP,HL".to_owned(), opcode: 0xF9, micro_ops: vec![MicroOp::LoadR16R16(r16::SP, r16::HL), MicroOp::Noop] },
        0xFAu8 => Instruction { name: "LD A,(a16)".to_owned(), opcode: 0xFA, micro_ops: vec![MicroOp::ReadMemoryIncr(r16::PC, r8::Z), MicroOp::ReadMemoryIncr(r16::PC, r8::W), MicroOp::ReadMemory(r16::WZ, r8::Z), MicroOp::LoadR8R8(r8::A, r8::Z)] },
        0xFBu8 => Instruction { name: "EI".to_owned(), opcode: 0xFB, micro_ops: vec![MicroOp::SetImeDelay1] },
        0xFCu8 => Instruction { name: "UNUSED".to_owned(), opcode: 0xFC, micro_ops: Vec::new() },
        0xFDu8 => Instruction { name: "UNUSED".to_owned(), opcode: 0xFD, micro_ops: Vec::new() },
        0xFEu8 => Instruction { name: "CP d8".to_owned(), opcode: 0xFE, micro_ops: vec![MicroOp::ReadMemoryIncr(r16::PC, r8::Z), MicroOp::CpR8R8(r8::A, r8::Z)] },
        0xFFu8 => Instruction { name: "RST 38H".to_owned(), opcode: 0xFF, micro_ops: vec![MicroOp::DecR16(r16::SP), MicroOp::WriteMemoryDecr(r16::SP, r8::PcC), MicroOp::WriteMemoryRst(0x38u16, r16::SP, r8::PcP), MicroOp::Noop] },
    }
}

/// The 256 entries of the main opcode table, entry `i` for opcode `i`.
pub fn build_instructions() -> (r: Vec<Instruction>)
    ensures
        r@.len() == 256,
        forall|i: int|
            #![trigger r@[i]]
            0 <= i < 256 ==> {
                &&& r@[i].opcode == i
                &&& r@[i].micro_ops@ == main_micro_ops(i as u8)
                &&& r@[i].name@ == main_name(i as u8)
            },
{
    let mut table: Vec<Instruction> = Vec::new();
    let mut opcode: u16 = 0;
    while opcode < 256
        invariant
            opcode <= 256,
            table@.len() == opcode,
            forall|i: int|
                #![trigger table@[i]]
                0 <= i < opcode ==> {
                    &&& table@[i].opcode == i
                    &&& table@[i].micro_ops@ == main_micro_ops(i as u8)
                    &&& table@[i].name@ == main_name(i as u8)
                },
        decreases 256 - opcode,
    {
        table.push(main_instruction(opcode as u8));
        opcode = opcode + 1;
    }
    table
}

/// The number of bytes of the instruction that `opcode` starts: three for the
/// opcodes with a 16-bit operand, two for those with an 8-bit operand, one otherwise.
pub open spec fn instruction_length(opcode: u8) -> u16 {
    match opcode {
        0x01u8 | 0x08u8 | 0xC2u8 | 0x11u8 | 0x21u8 | 0x31u8 | 0xC3u8 | 0xC4u8 | 0xCAu8 | 0xCCu8 | 0xCDu8 | 0xD4u8
        | 0xD2u8 | 0xDAu8 | 0xDCu8 | 0xEAu8 | 0xFAu8 => 3,
        0x06u8 | 0x0Eu8 | 0x16u8 | 0x1Eu8 | 0x26u8 | 0x2Eu8 | 0x36u8 | 0x3Eu8 | 0x10u8 | 0x18u8 | 0x20u8 | 0x28u8
        | 0x30u8 | 0x38u8 | 0xC6u8 | 0xCEu8 | 0xD6u8 | 0xDEu8 | 0xE6u8 | 0xEEu8 | 0xF6u8 | 0xFEu8 | 0xE0u8 | 0xF0u8
        | 0xE8u8 | 0xF8u8 => 2,
        _ => 1,
    }
}

/// The number of bytes of the instruction that `opcode` starts.
pub fn get_instruction_length(opcode: u8) -> (r: u16)
    ensures
        r == instruction_length(opcode),
{
    match opcode {
        0x01 | 0x08 | 0xC2 | 0x11 | 0x21 | 0x31 | 0xC3 | 0xC4 | 0xCA | 0xCC | 0xCD | 0xD4
        | 0xD2 | 0xDA | 0xDC | 0xEA | 0xFA => 3,
        0x06 | 0x0E | 0x16 | 0x1E | 0x26 | 0x2E | 0x36 | 0x3E | 0x10 | 0x18 | 0x20 | 0x28
        | 0x30 | 0x38 | 0xC6 | 0xCE | 0xD6 | 0xDE | 0xE6 | 0xEE | 0xF6 | 0xFE | 0xE0 | 0xF0
        | 0xE8 | 0xF8 => 2,
        _ => 1,
    }
}

/// The number of cycles of `ops` that read an operand byte at PC and step it.
pub open spec fn pc_operand_reads(ops: Seq<MicroOp>) -> int
    decreases ops.len(),
{
    if ops.len() == 0 {
        0
    } else {
        let first: int = match ops[0] {
            MicroOp::ReadMemoryIncr(a, _) => if a == r16::PC { 1 } else { 0 },
            MicroOp::ReadMemoryIncrCheck(a, _, _) => if a == r16::PC { 1 } else { 0 },
            _ => 0,
        };
        first + pc_operand_reads(ops.drop_first())
    }
}

/// The length of an instruction is its opcode byte and the operand bytes its cycles
/// read at PC, for every opcode but STOP, whose second byte no cycle reads.
pub proof fn lemma_length_counts_operand_reads(opcode: u8)
    requires
        opcode != 0x10,
    ensures
        instruction_length(opcode) == 1 + pc_operand_reads(main_micro_ops(opcode)),
{
    reveal_with_fuel(pc_operand_reads, 7);
}

} // verus!
