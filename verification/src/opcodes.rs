//! The two decoding tables: for every opcode byte its instruction form, its
//! base cycles and its mnemonic, once for the plain opcodes and once for
//! those behind the 0xCB prefix.

use vstd::prelude::*;
use crate::cpu::Instruction;
use crate::cpu::Storage;
use crate::register::Flag;
use crate::register::Register16;
use crate::register::Register8;

verus! {

/// The byte that announces an opcode of the second table.
pub const PREFIX: u8 = 0xCB;

/// The entry of the first table for an opcode byte. The eleven bytes that
/// the processor leaves undefined decode to `Undefined`, and the prefix
/// byte, which is no instruction by itself, to `NotImplemented`.
#[verifier::opaque]
pub open spec fn opcode_entry(opcode: u8) -> (Instruction, u64, &'static str) {
    match opcode {
        0x00 => (Instruction::NOP, 4, "NOP"),
        0x01 => (Instruction::LdNN(Register16::BC), 12, "LD BC, nn"),
        0x02 => (Instruction::LdR16A(Register16::BC), 8, "LD [BC], A"),
        0x03 => (Instruction::Inc16(Register16::BC), 8, "INC BC"),
        0x04 => (Instruction::Inc(Storage::Register(Register8::B)), 4, "INC B"),
        0x05 => (Instruction::Dec(Storage::Register(Register8::B)), 4, "DEC B"),
        0x06 => (Instruction::LdN(Register8::B), 8, "LD B, n"),
        0x07 => (Instruction::Rlca, 4, "RLCA"),
        0x08 => (Instruction::Lda16Sp, 20, "LD (a16), SP"),
        0x09 => (Instruction::AddHlR16(Register16::BC), 8, "ADD HL, BC"),
        0x0A => (Instruction::LdAR16(Register16::BC), 8, "LD A, [BC]"),
        0x0B => (Instruction::Dec16(Register16::BC), 8, "DEC BC"),
        0x0C => (Instruction::Inc(Storage::Register(Register8::C)), 4, "INC C"),
        0x0D => (Instruction::Dec(Storage::Register(Register8::C)), 4, "DEC C"),
        0x0E => (Instruction::LdN(Register8::C), 8, "LD C, n"),
        0x0F => (Instruction::Rrca, 4, "RRCA"),
        0x10 => (Instruction::Stop, 4, "STOP"),
        0x11 => (Instruction::LdNN(Register16::DE), 12, "LD DE, nn"),
        0x12 => (Instruction::LdR16A(Register16::DE), 8, "LD [DE], A"),
        0x13 => (Instruction::Inc16(Register16::DE), 8, "INC DE"),
        0x14 => (Instruction::Inc(Storage::Register(Register8::D)), 4, "INC D"),
        0x15 => (Instruction::Dec(Storage::Register(Register8::D)), 4, "DEC D"),
        0x16 => (Instruction::LdN(Register8::D), 8, "LD D, n"),
        0x17 => (Instruction::Rla, 4, "RLA"),
        0x18 => (Instruction::JrE8, 12, "JR e8"),
        0x19 => (Instruction::AddHlR16(Register16::DE), 8, "ADD HL, DE"),
        0x1A => (Instruction::LdAR16(Register16::DE), 8, "LD A, [DE]"),
        0x1B => (Instruction::Dec16(Register16::DE), 8, "DEC DE"),
        0x1C => (Instruction::Inc(Storage::Register(Register8::E)), 4, "INC E"),
        0x1D => (Instruction::Dec(Storage::Register(Register8::E)), 4, "DEC E"),
        0x1E => (Instruction::LdN(Register8::E), 8, "LD E, n"),
        0x1F => (Instruction::Rra, 4, "RRA"),
        0x20 => (Instruction::Jr(Flag::Z, false), 8, "JR NZ, nn"),
        0x21 => (Instruction::LdNN(Register16::HL), 12, "LD HL, nn"),
        0x22 => (Instruction::LdiHlA, 8, "LDI (HL), A"),
        0x23 => (Instruction::Inc16(Register16::HL), 8, "INC HL"),
        0x24 => (Instruction::Inc(Storage::Register(Register8::H)), 4, "INC H"),
        0x25 => (Instruction::Dec(Storage::Register(Register8::H)), 4, "DEC H"),
        0x26 => (Instruction::LdN(Register8::H), 8, "LD H, n"),
        0x27 => (Instruction::Daa, 4, "DAA"),
        0x28 => (Instruction::Jr(Flag::Z, true), 8, "JR Z, nn"),
        0x29 => (Instruction::AddHlR16(Register16::HL), 8, "ADD HL, HL"),
        0x2A => (Instruction::LdiAHl, 8, "LDI A, (HL)"),
        0x2B => (Instruction::Dec16(Register16::HL), 8, "DEC HL"),
        0x2C => (Instruction::Inc(Storage::Register(Register8::L)), 4, "INC L"),
        0x2D => (Instruction::Dec(Storage::Register(Register8::L)), 4, "DEC L"),
        0x2E => (Instruction::LdN(Register8::L), 8, "LD L, n"),
        0x2F => (Instruction::Cpl, 4, "CPL"),
        0x30 => (Instruction::Jr(Flag::C, false), 8, "JR NC, nn"),
        0x31 => (Instruction::LdSp, 12, "LD SP, nn"),
        0x32 => (Instruction::LddHlA, 8, "LDD (HL), A"),
        0x33 => (Instruction::Inc16(Register16::SP), 8, "INC SP"),
        0x34 => (Instruction::Inc(Storage::Pointer(Register16::HL)), 8, "INC (HL)"),
        0x35 => (Instruction::Dec(Storage::Pointer(Register16::HL)), 8, "DEC (HL)"),
        0x36 => (Instruction::LdHlD8, 12, "LD n, (HL)"),
        0x37 => (Instruction::Scf, 4, "SCF"),
        0x38 => (Instruction::Jr(Flag::C, true), 8, "JR C, nn"),
        0x39 => (Instruction::AddHlR16(Register16::SP), 8, "ADD HL, SP"),
        0x3A => (Instruction::LddAHl, 8, "LDD A, (HL)"),
        0x3B => (Instruction::Dec16(Register16::SP), 8, "DEC SP"),
        0x3C => (Instruction::Inc(Storage::Register(Register8::A)), 4, "INC A"),
        0x3D => (Instruction::Dec(Storage::Register(Register8::A)), 4, "DEC A"),
        0x3E => (Instruction::LdN(Register8::A), 8, "LD A, n"),
        0x3F => (Instruction::Ccf, 4, "CCF"),
        0x40 => (Instruction::LdRR(Register8::B, Register8::B), 4, "LD B, B"),
        0x41 => (Instruction::LdRR(Register8::B, Register8::C), 4, "LD B, C"),
        0x42 => (Instruction::LdRR(Register8::B, Register8::D), 4, "LD B, D"),
        0x43 => (Instruction::LdRR(Register8::B, Register8::E), 4, "LD B, E"),
        0x44 => (Instruction::LdRR(Register8::B, Register8::H), 4, "LD B, H"),
        0x45 => (Instruction::LdRR(Register8::B, Register8::L), 4, "LD B, L"),
        0x46 => (Instruction::LdRHl(Register8::B), 8, "LD B, (HL)"),
        0x47 => (Instruction::LdRR(Register8::B, Register8::A), 4, "LD B, A"),
        0x48 => (Instruction::LdRR(Register8::C, Register8::B), 4, "LD C, B"),
        0x49 => (Instruction::LdRR(Register8::C, Register8::C), 4, "LD C, C"),
        0x4A => (Instruction::LdRR(Register8::C, Register8::D), 4, "LD C, D"),
        0x4B => (Instruction::LdRR(Register8::C, Register8::E), 4, "LD C, E"),
        0x4C => (Instruction::LdRR(Register8::C, Register8::H), 4, "LD C, H"),
        0x4D => (Instruction::LdRR(Register8::C, Register8::L), 4, "LD C, L"),
        0x4E => (Instruction::LdRHl(Register8::C), 8, "LD C, (HL)"),
        0x4F => (Instruction::LdRR(Register8::C, Register8::A), 4, "LD C, A"),
        0x50 => (Instruction::LdRR(Register8::D, Register8::B), 4, "LD D, B"),
        0x51 => (Instruction::LdRR(Register8::D, Register8::C), 4, "LD D, C"),
        0x52 => (Instruction::LdRR(Register8::D, Register8::D), 4, "LD D, D"),
        0x53 => (Instruction::LdRR(Register8::D, Register8::E), 4, "LD D, E"),
        0x54 => (Instruction::LdRR(Register8::D, Register8::H), 4, "LD D, H"),
        0x55 => (Instruction::LdRR(Register8::D, Register8::L), 4, "LD D, L"),
        0x56 => (Instruction::LdRHl(Register8::D), 8, "LD D, (HL)"),
        0x57 => (Instruction::LdRR(Register8::D, Register8::A), 4, "LD D, A"),
        0x58 => (Instruction::LdRR(Register8::E, Register8::B), 4, "LD E, B"),
        0x59 => (Instruction::LdRR(Register8::E, Register8::C), 4, "LD E, C"),
        0x5A => (Instruction::LdRR(Register8::E, Register8::D), 4, "LD E, D"),
        0x5B => (Instruction::LdRR(Register8::E, Register8::E), 4, "LD E, E"),
        0x5C => (Instruction::LdRR(Register8::E, Register8::H), 4, "LD E, H"),
        0x5D => (Instruction::LdRR(Register8::E, Register8::L), 4, "LD E, L"),
        0x5E => (Instruction::LdRHl(Register8::E), 8, "LD E, (HL)"),
        0x5F => (Instruction::LdRR(Register8::E, Register8::A), 4, "LD E, A"),
        0x60 => (Instruction::LdRR(Register8::H, Register8::B), 4, "LD H, B"),
        0x61 => (Instruction::LdRR(Register8::H, Register8::C), 4, "LD H, C"),
        0x62 => (Instruction::LdRR(Register8::H, Register8::D), 4, "LD H, D"),
        0x63 => (Instruction::LdRR(Register8::H, Register8::E), 4, "LD H, E"),
        0x64 => (Instruction::LdRR(Register8::H, Register8::H), 4, "LD H, H"),
        0x65 => (Instruction::LdRR(Register8::H, Register8::L), 4, "LD H, L"),
        0x66 => (Instruction::LdRHl(Register8::H), 8, "LD H, (HL)"),
        0x67 => (Instruction::LdRR(Register8::H, Register8::A), 4, "LD H, A"),
        0x68 => (Instruction::LdRR(Register8::L, Register8::B), 4, "LD L, B"),
        0x69 => (Instruction::LdRR(Register8::L, Register8::C), 4, "LD L, C"),
        0x6A => (Instruction::LdRR(Register8::L, Register8::D), 4, "LD L, D"),
        0x6B => (Instruction::LdRR(Register8::L, Register8::E), 4, "LD L, E"),
        0x6C => (Instruction::LdRR(Register8::L, Register8::H), 4, "LD L, H"),
        0x6D => (Instruction::LdRR(Register8::L, Register8::L), 4, "LD L, L"),
        0x6E => (Instruction::LdRHl(Register8::L), 8, "LD L, (HL)"),
        0x6F => (Instruction::LdRR(Register8::L, Register8::A), 4, "LD L, A"),
        0x70 => (Instruction::LdHlR(Register8::B), 8, "LD (HL), B"),
        0x71 => (Instruction::LdHlR(Register8::C), 8, "LD (HL), C"),
        0x72 => (Instruction::LdHlR(Register8::D), 8, "LD (HL), D"),
        0x73 => (Instruction::LdHlR(Register8::E), 8, "LD (HL), E"),
        0x74 => (Instruction::LdHlR(Register8::H), 8, "LD (HL), H"),
        0x75 => (Instruction::LdHlR(Register8::L), 8, "LD (HL), L"),
        0x76 => (Instruction::Halt, 4, "HALT"),
        0x77 => (Instruction::LdHlR(Register8::A), 8, "LD (HL), A"),
        0x78 => (Instruction::LdRR(Register8::A, Register8::B), 4, "LD A, B"),
        0x79 => (Instruction::LdRR(Register8::A, Register8::C), 4, "LD A, C"),
        0x7A => (Instruction::LdRR(Register8::A, Register8::D), 4, "LD A, D"),
        0x7B => (Instruction::LdRR(Register8::A, Register8::E), 4, "LD A, E"),
        0x7C => (Instruction::LdRR(Register8::A, Register8::H), 4, "LD A, H"),
        0x7D => (Instruction::LdRR(Register8::A, Register8::L), 4, "LD A, L"),
        0x7E => (Instruction::LdRHl(Register8::A), 8, "LD A, (HL)"),
        0x7F => (Instruction::LdRR(Register8::A, Register8::A), 4, "LD A, A"),
        0x80 => (Instruction::Add(Storage::Register(Register8::B)), 4, "ADD B"),
        0x81 => (Instruction::Add(Storage::Register(Register8::C)), 4, "ADD C"),
        0x82 => (Instruction::Add(Storage::Register(Register8::D)), 4, "ADD D"),
        0x83 => (Instruction::Add(Storage::Register(Register8::E)), 4, "ADD E"),
        0x84 => (Instruction::Add(Storage::Register(Register8::H)), 4, "ADD H"),
        0x85 => (Instruction::Add(Storage::Register(Register8::L)), 4, "ADD L"),
        0x86 => (Instruction::Add(Storage::Pointer(Register16::HL)), 8, "ADD (HL)"),
        0x87 => (Instruction::Add(Storage::Register(Register8::A)), 4, "ADD A"),
        0x88 => (Instruction::Adc(Storage::Register(Register8::B)), 4, "ADC B"),
        0x89 => (Instruction::Adc(Storage::Register(Register8::C)), 4, "ADC C"),
        0x8A => (Instruction::Adc(Storage::Register(Register8::D)), 4, "ADC D"),
        0x8B => (Instruction::Adc(Storage::Register(Register8::E)), 4, "ADC E"),
        0x8C => (Instruction::Adc(Storage::Register(Register8::H)), 4, "ADC H"),
        0x8D => (Instruction::Adc(Storage::Register(Register8::L)), 4, "ADC L"),
        0x8E => (Instruction::Adc(Storage::Pointer(Register16::HL)), 8, "ADC (HL)"),
        0x8F => (Instruction::Adc(Storage::Register(Register8::A)), 4, "ADC A"),
        0x90 => (Instruction::Sub(Storage::Register(Register8::B)), 4, "SUB B"),
        0x91 => (Instruction::Sub(Storage::Register(Register8::C)), 4, "SUB C"),
        0x92 => (Instruction::Sub(Storage::Register(Register8::D)), 4, "SUB D"),
        0x93 => (Instruction::Sub(Storage::Register(Register8::E)), 4, "SUB E"),
        0x94 => (Instruction::Sub(Storage::Register(Register8::H)), 4, "SUB H"),
        0x95 => (Instruction::Sub(Storage::Register(Register8::L)), 4, "SUB L"),
        0x96 => (Instruction::Sub(Storage::Pointer(Register16::HL)), 8, "SUB (HL)"),
        0x97 => (Instruction::Sub(Storage::Register(Register8::A)), 4, "SUB A"),
        0x98 => (Instruction::Sbc(Storage::Register(Register8::B)), 4, "SBC B"),
        0x99 => (Instruction::Sbc(Storage::Register(Register8::C)), 4, "SBC C"),
        0x9A => (Instruction::Sbc(Storage::Register(Register8::D)), 4, "SBC D"),
        0x9B => (Instruction::Sbc(Storage::Register(Register8::E)), 4, "SBC E"),
        0x9C => (Instruction::Sbc(Storage::Register(Register8::H)), 4, "SBC H"),
        0x9D => (Instruction::Sbc(Storage::Register(Register8::L)), 4, "SBC L"),
        0x9E => (Instruction::Sbc(Storage::Pointer(Register16::HL)), 8, "SBC (HL)"),
        0x9F => (Instruction::Sbc(Storage::Register(Register8::A)), 4, "SBC A"),
        0xA0 => (Instruction::And(Storage::Register(Register8::B)), 4, "AND B"),
        0xA1 => (Instruction::And(Storage::Register(Register8::C)), 4, "AND C"),
        0xA2 => (Instruction::And(Storage::Register(Register8::D)), 4, "AND D"),
        0xA3 => (Instruction::And(Storage::Register(Register8::E)), 4, "AND E"),
        0xA4 => (Instruction::And(Storage::Register(Register8::H)), 4, "AND H"),
        0xA5 => (Instruction::And(Storage::Register(Register8::L)), 4, "AND L"),
        0xA6 => (Instruction::And(Storage::Pointer(Register16::HL)), 8, "AND (HL)"),
        0xA7 => (Instruction::And(Storage::Register(Register8::A)), 4, "AND A"),
        0xA8 => (Instruction::Xor(Register8::B), 4, "XOR B"),
        0xA9 => (Instruction::Xor(Register8::C), 4, "XOR C"),
        0xAA => (Instruction::Xor(Register8::D), 4, "XOR D"),
        0xAB => (Instruction::Xor(Register8::E), 4, "XOR E"),
        0xAC => (Instruction::Xor(Register8::H), 4, "XOR H"),
        0xAD => (Instruction::Xor(Register8::L), 4, "XOR L"),
        0xAE => (Instruction::XorHl, 8, "XOR A, (HL)"),
        0xAF => (Instruction::Xor(Register8::A), 4, "XOR A"),
        0xB0 => (Instruction::Or(Storage::Register(Register8::B)), 4, "OR B"),
        0xB1 => (Instruction::Or(Storage::Register(Register8::C)), 4, "OR C"),
        0xB2 => (Instruction::Or(Storage::Register(Register8::D)), 4, "OR D"),
        0xB3 => (Instruction::Or(Storage::Register(Register8::E)), 4, "OR E"),
        0xB4 => (Instruction::Or(Storage::Register(Register8::H)), 4, "OR H"),
        0xB5 => (Instruction::Or(Storage::Register(Register8::L)), 4, "OR L"),
        0xB6 => (Instruction::Or(Storage::Pointer(Register16::HL)), 4, "OR (HL)"),
        0xB7 => (Instruction::Or(Storage::Register(Register8::A)), 4, "OR A"),
        0xB8 => (Instruction::Cp(Storage::Register(Register8::B)), 4, "CP B"),
        0xB9 => (Instruction::Cp(Storage::Register(Register8::C)), 4, "CP C"),
        0xBA => (Instruction::Cp(Storage::Register(Register8::D)), 4, "CP D"),
        0xBB => (Instruction::Cp(Storage::Register(Register8::E)), 4, "CP E"),
        0xBC => (Instruction::Cp(Storage::Register(Register8::H)), 4, "CP H"),
        0xBD => (Instruction::Cp(Storage::Register(Register8::L)), 4, "CP L"),
        0xBE => (Instruction::Cp(Storage::Pointer(Register16::HL)), 4, "CP (HL)"),
        0xBF => (Instruction::Cp(Storage::Register(Register8::A)), 4, "CP A"),
        0xC0 => (Instruction::RetCond(Flag::Z, false), 8, "RET NZ"),
        0xC1 => (Instruction::Pop16(Register16::BC), 12, "POP BC"),
        0xC2 => (Instruction::JpCond(Flag::Z, false), 12, "JP NZ"),
        0xC3 => (Instruction::Jp, 16, "JP"),
        0xC4 => (Instruction::CallCond(Flag::Z, false), 4, "CALL NZ, d16"),
        0xC5 => (Instruction::Push16(Register16::BC), 16, "PUSH BC"),
        0xC6 => (Instruction::Add(Storage::NextByte), 8, "ADD d8"),
        0xC7 => (Instruction::Rst(0x00), 16, "RST 00H"),
        0xC8 => (Instruction::RetCond(Flag::Z, true), 8, "RET Z"),
        0xC9 => (Instruction::Ret, 16, "RET"),
        0xCA => (Instruction::JpCond(Flag::Z, true), 12, "JP Z"),
        0xCB => (Instruction::NotImplemented, 4, "PREFIX CB"),
        0xCC => (Instruction::CallCond(Flag::Z, true), 4, "CALL Z, d16"),
        0xCD => (Instruction::Call, 24, "CALL d16"),
        0xCE => (Instruction::Adc(Storage::NextByte), 8, "ADC d8"),
        0xCF => (Instruction::Rst(0x08), 16, "RST 08H"),
        0xD0 => (Instruction::RetCond(Flag::C, false), 8, "RET NC"),
        0xD1 => (Instruction::Pop16(Register16::DE), 12, "POP DE"),
        0xD2 => (Instruction::JpCond(Flag::C, false), 12, "JP NC"),
        0xD3 => (Instruction::Undefined, 4, "UNDEFINED"),
        0xD4 => (Instruction::CallCond(Flag::C, false), 4, "CALL NC, d16"),
        0xD5 => (Instruction::Push16(Register16::DE), 16, "PUSH DE"),
        0xD6 => (Instruction::Sub(Storage::NextByte), 8, "SUB d8"),
        0xD7 => (Instruction::Rst(0x10), 16, "RST 10H"),
        0xD8 => (Instruction::RetCond(Flag::C, true), 8, "RET C"),
        0xD9 => (Instruction::Reti, 16, "RETI"),
        0xDA => (Instruction::JpCond(Flag::C, true), 12, "JP C"),
        0xDB => (Instruction::Undefined, 4, "UNDEFINED"),
        0xDC => (Instruction::CallCond(Flag::C, true), 4, "CALL C, d16"),
        0xDD => (Instruction::Undefined, 4, "UNDEFINED"),
        0xDE => (Instruction::Sbc(Storage::NextByte), 4, "SBC d8"),
        0xDF => (Instruction::Rst(0x18), 16, "RST 18H"),
        0xE0 => (Instruction::LdWriteIoN, 12, "LDH (FF00+n), A"),
        0xE1 => (Instruction::Pop16(Register16::HL), 12, "POP HL"),
        0xE2 => (Instruction::LdWriteIoC, 12, "LD (FF00+C), A"),
        0xE3 => (Instruction::Undefined, 4, "UNDEFINED"),
        0xE4 => (Instruction::Undefined, 4, "UNDEFINED"),
        0xE5 => (Instruction::Push16(Register16::HL), 16, "PUSH HL"),
        0xE6 => (Instruction::And(Storage::NextByte), 4, "AND d8"),
        0xE7 => (Instruction::Rst(0x20), 16, "RST 20H"),
        0xE8 => (Instruction::AddSpE8, 16, "ADD SP, e8"),
        0xE9 => (Instruction::JpHl, 4, "JP HL"),
        0xEA => (Instruction::Lda16A, 16, "LD (a16), A"),
        0xEB => (Instruction::Undefined, 4, "UNDEFINED"),
        0xEC => (Instruction::Undefined, 4, "UNDEFINED"),
        0xED => (Instruction::Undefined, 4, "UNDEFINED"),
        0xEE => (Instruction::XorD8, 8, "XOR d8"),
        0xEF => (Instruction::Rst(0x28), 16, "RST 28H"),
        0xF0 => (Instruction::LdReadIoN, 12, "LDH A, (FF00+n)"),
        0xF1 => (Instruction::Pop16(Register16::AF), 12, "POP AF"),
        0xF2 => (Instruction::LdReadIoC, 8, "LD A, (FF00+C)"),
        0xF3 => (Instruction::Di, 4, "DI"),
        0xF4 => (Instruction::Undefined, 4, "UNDEFINED"),
        0xF5 => (Instruction::Push16(Register16::AF), 16, "PUSH AF"),
        0xF6 => (Instruction::Or(Storage::NextByte), 8, "OR d8"),
        0xF7 => (Instruction::Rst(0x30), 16, "RST 30H"),
        0xF8 => (Instruction::LdHlSpE8, 12, "LD HL, sp+e8"),
        0xF9 => (Instruction::LdSpHl, 8, "LD SP, HL"),
        0xFA => (Instruction::LdAA16, 16, "LD A,(a16)"),
        0xFB => (Instruction::Ei, 4, "EI"),
        0xFC => (Instruction::Undefined, 4, "UNDEFINED"),
        0xFD => (Instruction::Undefined, 4, "UNDEFINED"),
        0xFE => (Instruction::Cp(Storage::NextByte), 8, "CP n"),
        _ => (Instruction::Rst(0x38), 16, "RST 38H"),
    }
}

/// The entry of the second table for the byte that follows the prefix.
#[verifier::opaque]
pub open spec fn cb_opcode_entry(opcode: u8) -> (Instruction, u64, &'static str) {
    match opcode {
        0x00 => (Instruction::Rlc(Storage::Register(Register8::B)), 8, "RLC B"),
        0x01 => (Instruction::Rlc(Storage::Register(Register8::C)), 8, "RLC C"),
        0x02 => (Instruction::Rlc(Storage::Register(Register8::D)), 8, "RLC D"),
        0x03 => (Instruction::Rlc(Storage::Register(Register8::E)), 8, "RLC E"),
        0x04 => (Instruction::Rlc(Storage::Register(Register8::H)), 8, "RLC H"),
        0x05 => (Instruction::Rlc(Storage::Register(Register8::L)), 8, "RLC L"),
        0x06 => (Instruction::Rlc(Storage::Pointer(Register16::HL)), 16, "RLC (HL)"),
        0x07 => (Instruction::Rlc(Storage::Register(Register8::A)), 8, "RLC A"),
        0x08 => (Instruction::Rrc(Storage::Register(Register8::B)), 8, "RrC B"),
        0x09 => (Instruction::Rrc(Storage::Register(Register8::C)), 8, "RrC C"),
        0x0A => (Instruction::Rrc(Storage::Register(Register8::D)), 8, "RrC D"),
        0x0B => (Instruction::Rrc(Storage::Register(Register8::E)), 8, "RrC E"),
        0x0C => (Instruction::Rrc(Storage::Register(Register8::H)), 8, "RrC H"),
        0x0D => (Instruction::Rrc(Storage::Register(Register8::L)), 8, "RrC L"),
        0x0E => (Instruction::Rrc(Storage::Pointer(Register16::HL)), 16, "RrC (HL)"),
        0x0F => (Instruction::Rrc(Storage::Register(Register8::A)), 8, "RrC A"),
        0x10 => (Instruction::Rl(Storage::Register(Register8::B)), 8, "RL B"),
        0x11 => (Instruction::Rl(Storage::Register(Register8::C)), 8, "RL C"),
        0x12 => (Instruction::Rl(Storage::Register(Register8::D)), 8, "RL D"),
        0x13 => (Instruction::Rl(Storage::Register(Register8::E)), 8, "RL E"),
        0x14 => (Instruction::Rl(Storage::Register(Register8::H)), 8, "RL H"),
        0x15 => (Instruction::Rl(Storage::Register(Register8::L)), 8, "RL L"),
        0x16 => (Instruction::Rl(Storage::Pointer(Register16::HL)), 16, "RL (HL)"),
        0x17 => (Instruction::Rl(Storage::Register(Register8::A)), 8, "RL A"),
        0x18 => (Instruction::Rr(Storage::Register(Register8::B)), 8, "RR B"),
        0x19 => (Instruction::Rr(Storage::Register(Register8::C)), 8, "RR C"),
        0x1A => (Instruction::Rr(Storage::Register(Register8::D)), 8, "RR D"),
        0x1B => (Instruction::Rr(Storage::Register(Register8::E)), 8, "RR E"),
        0x1C => (Instruction::Rr(Storage::Register(Register8::H)), 8, "RR H"),
        0x1D => (Instruction::Rr(Storage::Register(Register8::L)), 8, "RR L"),
        0x1E => (Instruction::Rr(Storage::Pointer(Register16::HL)), 16, "RR (HL)"),
        0x1F => (Instruction::Rr(Storage::Register(Register8::A)), 8, "RR A"),
        0x20 => (Instruction::Sla(Storage::Register(Register8::B)), 8, "SLA B"),
        0x21 => (Instruction::Sla(Storage::Register(Register8::C)), 8, "SLA C"),
        0x22 => (Instruction::Sla(Storage::Register(Register8::D)), 8, "SLA D"),
        0x23 => (Instruction::Sla(Storage::Register(Register8::E)), 8, "SLA E"),
        0x24 => (Instruction::Sla(Storage::Register(Register8::H)), 8, "SLA H"),
        0x25 => (Instruction::Sla(Storage::Register(Register8::L)), 8, "SLA L"),
        0x26 => (Instruction::Sla(Storage::Pointer(Register16::HL)), 16, "SLA (HL)"),
        0x27 => (Instruction::Sla(Storage::Register(Register8::A)), 8, "SLA A"),
        0x28 => (Instruction::Sra(Storage::Register(Register8::B)), 8, "SRA B"),
        0x29 => (Instruction::Sra(Storage::Register(Register8::C)), 8, "SRA C"),
        0x2A => (Instruction::Sra(Storage::Register(Register8::D)), 8, "SRA D"),
        0x2B => (Instruction::Sra(Storage::Register(Register8::E)), 8, "SRA E"),
        0x2C => (Instruction::Sra(Storage::Register(Register8::H)), 8, "SRA H"),
        0x2D => (Instruction::Sra(Storage::Register(Register8::L)), 8, "SRA L"),
        0x2E => (Instruction::Sra(Storage::Pointer(Register16::HL)), 16, "SRA (HL)"),
        0x2F => (Instruction::Sra(Storage::Register(Register8::A)), 8, "SRA A"),
        0x30 => (Instruction::Swap(Storage::Register(Register8::B)), 8, "SWAP B"),
        0x31 => (Instruction::Swap(Storage::Register(Register8::C)), 8, "SWAP C"),
        0x32 => (Instruction::Swap(Storage::Register(Register8::D)), 8, "SWAP D"),
        0x33 => (Instruction::Swap(Storage::Register(Register8::E)), 8, "SWAP E"),
        0x34 => (Instruction::Swap(Storage::Register(Register8::H)), 8, "SWAP H"),
        0x35 => (Instruction::Swap(Storage::Register(Register8::L)), 8, "SWAP L"),
        0x36 => (Instruction::Swap(Storage::Pointer(Register16::HL)), 16, "SWAP (HL)"),
        0x37 => (Instruction::Swap(Storage::Register(Register8::A)), 8, "SWAP A"),
        0x38 => (Instruction::Srl(Storage::Register(Register8::B)), 8, "SRL B"),
        0x39 => (Instruction::Srl(Storage::Register(Register8::C)), 8, "SRL C"),
        0x3A => (Instruction::Srl(Storage::Register(Register8::D)), 8, "SRL D"),
        0x3B => (Instruction::Srl(Storage::Register(Register8::E)), 8, "SRL E"),
        0x3C => (Instruction::Srl(Storage::Register(Register8::H)), 8, "SRL H"),
        0x3D => (Instruction::Srl(Storage::Register(Register8::L)), 8, "SRL L"),
        0x3E => (Instruction::Srl(Storage::Pointer(Register16::HL)), 16, "SRL (HL)"),
        0x3F => (Instruction::Srl(Storage::Register(Register8::A)), 8, "SRL A"),
        0x40 => (Instruction::Bit(0, Storage::Register(Register8::B)), 8, "BIT 0, B"),
        0x41 => (Instruction::Bit(0, Storage::Register(Register8::C)), 8, "BIT 0, C"),
        0x42 => (Instruction::Bit(0, Storage::Register(Register8::D)), 8, "BIT 0, D"),
        0x43 => (Instruction::Bit(0, Storage::Register(Register8::E)), 8, "BIT 0, E"),
        0x44 => (Instruction::Bit(0, Storage::Register(Register8::H)), 8, "BIT 0, H"),
        0x45 => (Instruction::Bit(0, Storage::Register(Register8::L)), 8, "BIT 0, L"),
        0x46 => (Instruction::Bit(0, Storage::Pointer(Register16::HL)), 12, "BIT 0, (HL)"),
        0x47 => (Instruction::Bit(0, Storage::Register(Register8::A)), 8, "BIT 0, A"),
        0x48 => (Instruction::Bit(1, Storage::Register(Register8::B)), 8, "BIT 1, B"),
        0x49 => (Instruction::Bit(1, Storage::Register(Register8::C)), 8, "BIT 1, C"),
        0x4A => (Instruction::Bit(1, Storage::Register(Register8::D)), 8, "BIT 1, D"),
        0x4B => (Instruction::Bit(1, Storage::Register(Register8::E)), 8, "BIT 1, E"),
        0x4C => (Instruction::Bit(1, Storage::Register(Register8::H)), 8, "BIT 1, H"),
        0x4D => (Instruction::Bit(1, Storage::Register(Register8::L)), 8, "BIT 1, L"),
        0x4E => (Instruction::Bit(1, Storage::Pointer(Register16::HL)), 12, "BIT 1, (HL)"),
        0x4F => (Instruction::Bit(1, Storage::Register(Register8::A)), 8, "BIT 1, A"),
        0x50 => (Instruction::Bit(2, Storage::Register(Register8::B)), 8, "BIT 2, B"),
        0x51 => (Instruction::Bit(2, Storage::Register(Register8::C)), 8, "BIT 2, C"),
        0x52 => (Instruction::Bit(2, Storage::Register(Register8::D)), 8, "BIT 2, D"),
        0x53 => (Instruction::Bit(2, Storage::Register(Register8::E)), 8, "BIT 2, E"),
        0x54 => (Instruction::Bit(2, Storage::Register(Register8::H)), 8, "BIT 2, H"),
        0x55 => (Instruction::Bit(2, Storage::Register(Register8::L)), 8, "BIT 2, L"),
        0x56 => (Instruction::Bit(2, Storage::Pointer(Register16::HL)), 12, "BIT 2, (HL)"),
        0x57 => (Instruction::Bit(2, Storage::Register(Register8::A)), 8, "BIT 2, A"),
        0x58 => (Instruction::Bit(3, Storage::Register(Register8::B)), 8, "BIT 3, B"),
        0x59 => (Instruction::Bit(3, Storage::Register(Register8::C)), 8, "BIT 3, C"),
        0x5A => (Instruction::Bit(3, Storage::Register(Register8::D)), 8, "BIT 3, D"),
        0x5B => (Instruction::Bit(3, Storage::Register(Register8::E)), 8, "BIT 3, E"),
        0x5C => (Instruction::Bit(3, Storage::Register(Register8::H)), 8, "BIT 3, H"),
        0x5D => (Instruction::Bit(3, Storage::Register(Register8::L)), 8, "BIT 3, L"),
        0x5E => (Instruction::Bit(3, Storage::Pointer(Register16::HL)), 12, "BIT 3, (HL)"),
        0x5F => (Instruction::Bit(3, Storage::Register(Register8::A)), 8, "BIT 3, A"),
        0x60 => (Instruction::Bit(4, Storage::Register(Register8::B)), 8, "BIT 4, B"),
        0x61 => (Instruction::Bit(4, Storage::Register(Register8::C)), 8, "BIT 4, C"),
        0x62 => (Instruction::Bit(4, Storage::Register(Register8::D)), 8, "BIT 4, D"),
        0x63 => (Instruction::Bit(4, Storage::Register(Register8::E)), 8, "BIT 4, E"),
        0x64 => (Instruction::Bit(4, Storage::Register(Register8::H)), 8, "BIT 4, H"),
        0x65 => (Instruction::Bit(4, Storage::Register(Register8::L)), 8, "BIT 4, L"),
        0x66 => (Instruction::Bit(4, Storage::Pointer(Register16::HL)), 12, "BIT 4, (HL)"),
        0x67 => (Instruction::Bit(4, Storage::Register(Register8::A)), 8, "BIT 4, A"),
        0x68 => (Instruction::Bit(5, Storage::Register(Register8::B)), 8, "BIT 5, B"),
        0x69 => (Instruction::Bit(5, Storage::Register(Register8::C)), 8, "BIT 5, C"),
        0x6A => (Instruction::Bit(5, Storage::Register(Register8::D)), 8, "BIT 5, D"),
        0x6B => (Instruction::Bit(5, Storage::Register(Register8::E)), 8, "BIT 5, E"),
        0x6C => (Instruction::Bit(5, Storage::Register(Register8::H)), 8, "BIT 5, H"),
        0x6D => (Instruction::Bit(5, Storage::Register(Register8::L)), 8, "BIT 5, L"),
        0x6E => (Instruction::Bit(5, Storage::Pointer(Register16::HL)), 12, "BIT 5, (HL)"),
        0x6F => (Instruction::Bit(5, Storage::Register(Register8::A)), 8, "BIT 5, A"),
        0x70 => (Instruction::Bit(6, Storage::Register(Register8::B)), 8, "BIT 6, B"),
        0x71 => (Instruction::Bit(6, Storage::Register(Register8::C)), 8, "BIT 6, C"),
        0x72 => (Instruction::Bit(6, Storage::Register(Register8::D)), 8, "BIT 6, D"),
        0x73 => (Instruction::Bit(6, Storage::Register(Register8::E)), 8, "BIT 6, E"),
        0x74 => (Instruction::Bit(6, Storage::Register(Register8::H)), 8, "BIT 6, H"),
        0x75 => (Instruction::Bit(6, Storage::Register(Register8::L)), 8, "BIT 6, L"),
        0x76 => (Instruction::Bit(6, Storage::Pointer(Register16::HL)), 12, "BIT 6, (HL)"),
        0x77 => (Instruction::Bit(6, Storage::Register(Register8::A)), 8, "BIT 6, A"),
        0x78 => (Instruction::Bit(7, Storage::Register(Register8::B)), 8, "BIT 7, B"),
        0x79 => (Instruction::Bit(7, Storage::Register(Register8::C)), 8, "BIT 7, C"),
        0x7A => (Instruction::Bit(7, Storage::Register(Register8::D)), 8, "BIT 7, D"),
        0x7B => (Instruction::Bit(7, Storage::Register(Register8::E)), 8, "BIT 7, E"),
        0x7C => (Instruction::Bit(7, Storage::Register(Register8::H)), 8, "BIT 7, H"),
        0x7D => (Instruction::Bit(7, Storage::Register(Register8::L)), 8, "BIT 7, L"),
        0x7E => (Instruction::Bit(7, Storage::Pointer(Register16::HL)), 12, "BIT 7, (HL)"),
        0x7F => (Instruction::Bit(7, Storage::Register(Register8::A)), 8, "BIT 7, A"),
        0x80 => (Instruction::Res(0, Storage::Register(Register8::B)), 8, "RES 0, B"),
        0x81 => (Instruction::Res(0, Storage::Register(Register8::C)), 8, "RES 0, C"),
        0x82 => (Instruction::Res(0, Storage::Register(Register8::D)), 8, "RES 0, D"),
        0x83 => (Instruction::Res(0, Storage::Register(Register8::E)), 8, "RES 0, E"),
        0x84 => (Instruction::Res(0, Storage::Register(Register8::H)), 8, "RES 0, H"),
        0x85 => (Instruction::Res(0, Storage::Register(Register8::L)), 8, "RES 0, L"),
        0x86 => (Instruction::Res(0, Storage::Pointer(Register16::HL)), 16, "RES 0, (HL)"),
        0x87 => (Instruction::Res(0, Storage::Register(Register8::A)), 8, "RES 0, A"),
        0x88 => (Instruction::Res(1, Storage::Register(Register8::B)), 8, "RES 1, B"),
        0x89 => (Instruction::Res(1, Storage::Register(Register8::C)), 8, "RES 1, C"),
        0x8A => (Instruction::Res(1, Storage::Register(Register8::D)), 8, "RES 1, D"),
        0x8B => (Instruction::Res(1, Storage::Register(Register8::E)), 8, "RES 1, E"),
        0x8C => (Instruction::Res(1, Storage::Register(Register8::H)), 8, "RES 1, H"),
        0x8D => (Instruction::Res(1, Storage::Register(Register8::L)), 8, "RES 1, L"),
        0x8E => (Instruction::Res(1, Storage::Pointer(Register16::HL)), 16, "RES 1, (HL)"),
        0x8F => (Instruction::Res(1, Storage::Register(Register8::A)), 8, "RES 1, A"),
        0x90 => (Instruction::Res(2, Storage::Register(Register8::B)), 8, "RES 2, B"),
        0x91 => (Instruction::Res(2, Storage::Register(Register8::C)), 8, "RES 2, C"),
        0x92 => (Instruction::Res(2, Storage::Register(Register8::D)), 8, "RES 2, D"),
        0x93 => (Instruction::Res(2, Storage::Register(Register8::E)), 8, "RES 2, E"),
        0x94 => (Instruction::Res(2, Storage::Register(Register8::H)), 8, "RES 2, H"),
        0x95 => (Instruction::Res(2, Storage::Register(Register8::L)), 8, "RES 2, L"),
        0x96 => (Instruction::Res(2, Storage::Pointer(Register16::HL)), 16, "RES 2, (HL)"),
        0x97 => (Instruction::Res(2, Storage::Register(Register8::A)), 8, "RES 2, A"),
        0x98 => (Instruction::Res(3, Storage::Register(Register8::B)), 8, "RES 3, B"),
        0x99 => (Instruction::Res(3, Storage::Register(Register8::C)), 8, "RES 3, C"),
        0x9A => (Instruction::Res(3, Storage::Register(Register8::D)), 8, "RES 3, D"),
        0x9B => (Instruction::Res(3, Storage::Register(Register8::E)), 8, "RES 3, E"),
        0x9C => (Instruction::Res(3, Storage::Register(Register8::H)), 8, "RES 3, H"),
        0x9D => (Instruction::Res(3, Storage::Register(Register8::L)), 8, "RES 3, L"),
        0x9E => (Instruction::Res(3, Storage::Pointer(Register16::HL)), 16, "RES 3, (HL)"),
        0x9F => (Instruction::Res(3, Storage::Register(Register8::A)), 8, "RES 3, A"),
        0xA0 => (Instruction::Res(4, Storage::Register(Register8::B)), 8, "RES 4, B"),
        0xA1 => (Instruction::Res(4, Storage::Register(Register8::C)), 8, "RES 4, C"),
        0xA2 => (Instruction::Res(4, Storage::Register(Register8::D)), 8, "RES 4, D"),
        0xA3 => (Instruction::Res(4, Storage::Register(Register8::E)), 8, "RES 4, E"),
        0xA4 => (Instruction::Res(4, Storage::Register(Register8::H)), 8, "RES 4, H"),
        0xA5 => (Instruction::Res(4, Storage::Register(Register8::L)), 8, "RES 4, L"),
        0xA6 => (Instruction::Res(4, Storage::Pointer(Register16::HL)), 16, "RES 4, (HL)"),
        0xA7 => (Instruction::Res(4, Storage::Register(Register8::A)), 8, "RES 4, A"),
        0xA8 => (Instruction::Res(5, Storage::Register(Register8::B)), 8, "RES 5, B"),
        0xA9 => (Instruction::Res(5, Storage::Register(Register8::C)), 8, "RES 5, C"),
        0xAA => (Instruction::Res(5, Storage::Register(Register8::D)), 8, "RES 5, D"),
        0xAB => (Instruction::Res(5, Storage::Register(Register8::E)), 8, "RES 5, E"),
        0xAC => (Instruction::Res(5, Storage::Register(Register8::H)), 8, "RES 5, H"),
        0xAD => (Instruction::Res(5, Storage::Register(Register8::L)), 8, "RES 5, L"),
        0xAE => (Instruction::Res(5, Storage::Pointer(Register16::HL)), 16, "RES 5, (HL)"),
        0xAF => (Instruction::Res(5, Storage::Register(Register8::A)), 8, "RES 5, A"),
        0xB0 => (Instruction::Res(6, Storage::Register(Register8::B)), 8, "RES 6, B"),
        0xB1 => (Instruction::Res(6, Storage::Register(Register8::C)), 8, "RES 6, C"),
        0xB2 => (Instruction::Res(6, Storage::Register(Register8::D)), 8, "RES 6, D"),
        0xB3 => (Instruction::Res(6, Storage::Register(Register8::E)), 8, "RES 6, E"),
        0xB4 => (Instruction::Res(6, Storage::Register(Register8::H)), 8, "RES 6, H"),
        0xB5 => (Instruction::Res(6, Storage::Register(Register8::L)), 8, "RES 6, L"),
        0xB6 => (Instruction::Res(6, Storage::Pointer(Register16::HL)), 16, "RES 6, (HL)"),
        0xB7 => (Instruction::Res(6, Storage::Register(Register8::A)), 8, "RES 6, A"),
        0xB8 => (Instruction::Res(7, Storage::Register(Register8::B)), 8, "RES 7, B"),
        0xB9 => (Instruction::Res(7, Storage::Register(Register8::C)), 8, "RES 7, C"),
        0xBA => (Instruction::Res(7, Storage::Register(Register8::D)), 8, "RES 7, D"),
        0xBB => (Instruction::Res(7, Storage::Register(Register8::E)), 8, "RES 7, E"),
        0xBC => (Instruction::Res(7, Storage::Register(Register8::H)), 8, "RES 7, H"),
        0xBD => (Instruction::Res(7, Storage::Register(Register8::L)), 8, "RES 7, L"),
        0xBE => (Instruction::Res(7, Storage::Pointer(Register16::HL)), 16, "RES 7, (HL)"),
        0xBF => (Instruction::Res(7, Storage::Register(Register8::A)), 8, "RES 7, A"),
        0xC0 => (Instruction::SetBit(0, Storage::Register(Register8::B)), 8, "SET 0, B"),
        0xC1 => (Instruction::SetBit(0, Storage::Register(Register8::C)), 8, "SET 0, C"),
        0xC2 => (Instruction::SetBit(0, Storage::Register(Register8::D)), 8, "SET 0, D"),
        0xC3 => (Instruction::SetBit(0, Storage::Register(Register8::E)), 8, "SET 0, E"),
        0xC4 => (Instruction::SetBit(0, Storage::Register(Register8::H)), 8, "SET 0, H"),
        0xC5 => (Instruction::SetBit(0, Storage::Register(Register8::L)), 8, "SET 0, L"),
        0xC6 => (Instruction::SetBit(0, Storage::Pointer(Register16::HL)), 16, "SET 0, (HL)"),
        0xC7 => (Instruction::SetBit(0, Storage::Register(Register8::A)), 8, "SET 0, A"),
        0xC8 => (Instruction::SetBit(1, Storage::Register(Register8::B)), 8, "SET 1, B"),
        0xC9 => (Instruction::SetBit(1, Storage::Register(Register8::C)), 8, "SET 1, C"),
        0xCA => (Instruction::SetBit(1, Storage::Register(Register8::D)), 8, "SET 1, D"),
        0xCB => (Instruction::SetBit(1, Storage::Register(Register8::E)), 8, "SET 1, E"),
        0xCC => (Instruction::SetBit(1, Storage::Register(Register8::H)), 8, "SET 1, H"),
        0xCD => (Instruction::SetBit(1, Storage::Register(Register8::L)), 8, "SET 1, L"),
        0xCE => (Instruction::SetBit(1, Storage::Pointer(Register16::HL)), 16, "SET 1, (HL)"),
        0xCF => (Instruction::SetBit(1, Storage::Register(Register8::A)), 8, "SET 1, A"),
        0xD0 => (Instruction::SetBit(2, Storage::Register(Register8::B)), 8, "SET 2, B"),
        0xD1 => (Instruction::SetBit(2, Storage::Register(Register8::C)), 8, "SET 2, C"),
        0xD2 => (Instruction::SetBit(2, Storage::Register(Register8::D)), 8, "SET 2, D"),
        0xD3 => (Instruction::SetBit(2, Storage::Register(Register8::E)), 8, "SET 2, E"),
        0xD4 => (Instruction::SetBit(2, Storage::Register(Register8::H)), 8, "SET 2, H"),
        0xD5 => (Instruction::SetBit(2, Storage::Register(Register8::L)), 8, "SET 2, L"),
        0xD6 => (Instruction::SetBit(2, Storage::Pointer(Register16::HL)), 16, "SET 2, (HL)"),
        0xD7 => (Instruction::SetBit(2, Storage::Register(Register8::A)), 8, "SET 2, A"),
        0xD8 => (Instruction::SetBit(3, Storage::Register(Register8::B)), 8, "SET 3, B"),
        0xD9 => (Instruction::SetBit(3, Storage::Register(Register8::C)), 8, "SET 3, C"),
        0xDA => (Instruction::SetBit(3, Storage::Register(Register8::D)), 8, "SET 3, D"),
        0xDB => (Instruction::SetBit(3, Storage::Register(Register8::E)), 8, "SET 3, E"),
        0xDC => (Instruction::SetBit(3, Storage::Register(Register8::H)), 8, "SET 3, H"),
        0xDD => (Instruction::SetBit(3, Storage::Register(Register8::L)), 8, "SET 3, L"),
        0xDE => (Instruction::SetBit(3, Storage::Pointer(Register16::HL)), 16, "SET 3, (HL)"),
        0xDF => (Instruction::SetBit(3, Storage::Register(Register8::A)), 8, "SET 3, A"),
        0xE0 => (Instruction::SetBit(4, Storage::Register(Register8::B)), 8, "SET 4, B"),
        0xE1 => (Instruction::SetBit(4, Storage::Register(Register8::C)), 8, "SET 4, C"),
        0xE2 => (Instruction::SetBit(4, Storage::Register(Register8::D)), 8, "SET 4, D"),
        0xE3 => (Instruction::SetBit(4, Storage::Register(Register8::E)), 8, "SET 4, E"),
        0xE4 => (Instruction::SetBit(4, Storage::Register(Register8::H)), 8, "SET 4, H"),
        0xE5 => (Instruction::SetBit(4, Storage::Register(Register8::L)), 8, "SET 4, L"),
        0xE6 => (Instruction::SetBit(4, Storage::Pointer(Register16::HL)), 16, "SET 4, (HL)"),
        0xE7 => (Instruction::SetBit(4, Storage::Register(Register8::A)), 8, "SET 4, A"),
        0xE8 => (Instruction::SetBit(5, Storage::Register(Register8::B)), 8, "SET 5, B"),
        0xE9 => (Instruction::SetBit(5, Storage::Register(Register8::C)), 8, "SET 5, C"),
        0xEA => (Instruction::SetBit(5, Storage::Register(Register8::D)), 8, "SET 5, D"),
        0xEB => (Instruction::SetBit(5, Storage::Register(Register8::E)), 8, "SET 5, E"),
        0xEC => (Instruction::SetBit(5, Storage::Register(Register8::H)), 8, "SET 5, H"),
        0xED => (Instruction::SetBit(5, Storage::Register(Register8::L)), 8, "SET 5, L"),
        0xEE => (Instruction::SetBit(5, Storage::Pointer(Register16::HL)), 16, "SET 5, (HL)"),
        0xEF => (Instruction::SetBit(5, Storage::Register(Register8::A)), 8, "SET 5, A"),
        0xF0 => (Instruction::SetBit(6, Storage::Register(Register8::B)), 8, "SET 6, B"),
        0xF1 => (Instruction::SetBit(6, Storage::Register(Register8::C)), 8, "SET 6, C"),
        0xF2 => (Instruction::SetBit(6, Storage::Register(Register8::D)), 8, "SET 6, D"),
        0xF3 => (Instruction::SetBit(6, Storage::Register(Register8::E)), 8, "SET 6, E"),
        0xF4 => (Instruction::SetBit(6, Storage::Register(Register8::H)), 8, "SET 6, H"),
        0xF5 => (Instruction::SetBit(6, Storage::Register(Register8::L)), 8, "SET 6, L"),
        0xF6 => (Instruction::SetBit(6, Storage::Pointer(Register16::HL)), 16, "SET 6, (HL)"),
        0xF7 => (Instruction::SetBit(6, Storage::Register(Register8::A)), 8, "SET 6, A"),
        0xF8 => (Instruction::SetBit(7, Storage::Register(Register8::B)), 8, "SET 7, B"),
        0xF9 => (Instruction::SetBit(7, Storage::Register(Register8::C)), 8, "SET 7, C"),
        0xFA => (Instruction::SetBit(7, Storage::Register(Register8::D)), 8, "SET 7, D"),
        0xFB => (Instruction::SetBit(7, Storage::Register(Register8::E)), 8, "SET 7, E"),
        0xFC => (Instruction::SetBit(7, Storage::Register(Register8::H)), 8, "SET 7, H"),
        0xFD => (Instruction::SetBit(7, Storage::Register(Register8::L)), 8, "SET 7, L"),
        0xFE => (Instruction::SetBit(7, Storage::Pointer(Register16::HL)), 16, "SET 7, (HL)"),
        _ => (Instruction::SetBit(7, Storage::Register(Register8::A)), 8, "SET 7, A"),
    }
}

pub fn lookup(opcode: u8) -> (entry: (Instruction, u64, &'static str))
    ensures
        entry == opcode_entry(opcode),
{
    reveal(opcode_entry);
    match opcode {
        0x00 => (Instruction::NOP, 4, "NOP"),
        0x01 => (Instruction::LdNN(Register16::BC), 12, "LD BC, nn"),
        0x02 => (Instruction::LdR16A(Register16::BC), 8, "LD [BC], A"),
        0x03 => (Instruction::Inc16(Register16::BC), 8, "INC BC"),
        0x04 => (Instruction::Inc(Storage::Register(Register8::B)), 4, "INC B"),
        0x05 => (Instruction::Dec(Storage::Register(Register8::B)), 4, "DEC B"),
        0x06 => (Instruction::LdN(Register8::B), 8, "LD B, n"),
        0x07 => (Instruction::Rlca, 4, "RLCA"),
        0x08 => (Instruction::Lda16Sp, 20, "LD (a16), SP"),
        0x09 => (Instruction::AddHlR16(Register16::BC), 8, "ADD HL, BC"),
        0x0A => (Instruction::LdAR16(Register16::BC), 8, "LD A, [BC]"),
        0x0B => (Instruction::Dec16(Register16::BC), 8, "DEC BC"),
        0x0C => (Instruction::Inc(Storage::Register(Register8::C)), 4, "INC C"),
        0x0D => (Instruction::Dec(Storage::Register(Register8::C)), 4, "DEC C"),
        0x0E => (Instruction::LdN(Register8::C), 8, "LD C, n"),
        0x0F => (Instruction::Rrca, 4, "RRCA"),
        0x10 => (Instruction::Stop, 4, "STOP"),
        0x11 => (Instruction::LdNN(Register16::DE), 12, "LD DE, nn"),
        0x12 => (Instruction::LdR16A(Register16::DE), 8, "LD [DE], A"),
        0x13 => (Instruction::Inc16(Register16::DE), 8, "INC DE"),
        0x14 => (Instruction::Inc(Storage::Register(Register8::D)), 4, "INC D"),
        0x15 => (Instruction::Dec(Storage::Register(Register8::D)), 4, "DEC D"),
        0x16 => (Instruction::LdN(Register8::D), 8, "LD D, n"),
        0x17 => (Instruction::Rla, 4, "RLA"),
        0x18 => (Instruction::JrE8, 12, "JR e8"),
        0x19 => (Instruction::AddHlR16(Register16::DE), 8, "ADD HL, DE"),
        0x1A => (Instruction::LdAR16(Register16::DE), 8, "LD A, [DE]"),
        0x1B => (Instruction::Dec16(Register16::DE), 8, "DEC DE"),
        0x1C => (Instruction::Inc(Storage::Register(Register8::E)), 4, "INC E"),
        0x1D => (Instruction::Dec(Storage::Register(Register8::E)), 4, "DEC E"),
        0x1E => (Instruction::LdN(Register8::E), 8, "LD E, n"),
        0x1F => (Instruction::Rra, 4, "RRA"),
        0x20 => (Instruction::Jr(Flag::Z, false), 8, "JR NZ, nn"),
        0x21 => (Instruction::LdNN(Register16::HL), 12, "LD HL, nn"),
        0x22 => (Instruction::LdiHlA, 8, "LDI (HL), A"),
        0x23 => (Instruction::Inc16(Register16::HL), 8, "INC HL"),
        0x24 => (Instruction::Inc(Storage::Register(Register8::H)), 4, "INC H"),
        0x25 => (Instruction::Dec(Storage::Register(Register8::H)), 4, "DEC H"),
        0x26 => (Instruction::LdN(Register8::H), 8, "LD H, n"),
        0x27 => (Instruction::Daa, 4, "DAA"),
        0x28 => (Instruction::Jr(Flag::Z, true), 8, "JR Z, nn"),
        0x29 => (Instruction::AddHlR16(Register16::HL), 8, "ADD HL, HL"),
        0x2A => (Instruction::LdiAHl, 8, "LDI A, (HL)"),
        0x2B => (Instruction::Dec16(Register16::HL), 8, "DEC HL"),
        0x2C => (Instruction::Inc(Storage::Register(Register8::L)), 4, "INC L"),
        0x2D => (Instruction::Dec(Storage::Register(Register8::L)), 4, "DEC L"),
        0x2E => (Instruction::LdN(Register8::L), 8, "LD L, n"),
        0x2F => (Instruction::Cpl, 4, "CPL"),
        0x30 => (Instruction::Jr(Flag::C, false), 8, "JR NC, nn"),
        0x31 => (Instruction::LdSp, 12, "LD SP, nn"),
        0x32 => (Instruction::LddHlA, 8, "LDD (HL), A"),
        0x33 => (Instruction::Inc16(Register16::SP), 8, "INC SP"),
        0x34 => (Instruction::Inc(Storage::Pointer(Register16::HL)), 8, "INC (HL)"),
        0x35 => (Instruction::Dec(Storage::Pointer(Register16::HL)), 8, "DEC (HL)"),
        0x36 => (Instruction::LdHlD8, 12, "LD n, (HL)"),
        0x37 => (Instruction::Scf, 4, "SCF"),
        0x38 => (Instruction::Jr(Flag::C, true), 8, "JR C, nn"),
        0x39 => (Instruction::AddHlR16(Register16::SP), 8, "ADD HL, SP"),
        0x3A => (Instruction::LddAHl, 8, "LDD A, (HL)"),
        0x3B => (Instruction::Dec16(Register16::SP), 8, "DEC SP"),
        0x3C => (Instruction::Inc(Storage::Register(Register8::A)), 4, "INC A"),
        0x3D => (Instruction::Dec(Storage::Register(Register8::A)), 4, "DEC A"),
        0x3E => (Instruction::LdN(Register8::A), 8, "LD A, n"),
        0x3F => (Instruction::Ccf, 4, "CCF"),
        0x40 => (Instruction::LdRR(Register8::B, Register8::B), 4, "LD B, B"),
        0x41 => (Instruction::LdRR(Register8::B, Register8::C), 4, "LD B, C"),
        0x42 => (Instruction::LdRR(Register8::B, Register8::D), 4, "LD B, D"),
        0x43 => (Instruction::LdRR(Register8::B, Register8::E), 4, "LD B, E"),
        0x44 => (Instruction::LdRR(Register8::B, Register8::H), 4, "LD B, H"),
        0x45 => (Instruction::LdRR(Register8::B, Register8::L), 4, "LD B, L"),
        0x46 => (Instruction::LdRHl(Register8::B), 8, "LD B, (HL)"),
        0x47 => (Instruction::LdRR(Register8::B, Register8::A), 4, "LD B, A"),
        0x48 => (Instruction::LdRR(Register8::C, Register8::B), 4, "LD C, B"),
        0x49 => (Instruction::LdRR(Register8::C, Register8::C), 4, "LD C, C"),
        0x4A => (Instruction::LdRR(Register8::C, Register8::D), 4, "LD C, D"),
        0x4B => (Instruction::LdRR(Register8::C, Register8::E), 4, "LD C, E"),
        0x4C => (Instruction::LdRR(Register8::C, Register8::H), 4, "LD C, H"),
        0x4D => (Instruction::LdRR(Register8::C, Register8::L), 4, "LD C, L"),
        0x4E => (Instruction::LdRHl(Register8::C), 8, "LD C, (HL)"),
        0x4F => (Instruction::LdRR(Register8::C, Register8::A), 4, "LD C, A"),
        0x50 => (Instruction::LdRR(Register8::D, Register8::B), 4, "LD D, B"),
        0x51 => (Instruction::LdRR(Register8::D, Register8::C), 4, "LD D, C"),
        0x52 => (Instruction::LdRR(Register8::D, Register8::D), 4, "LD D, D"),
        0x53 => (Instruction::LdRR(Register8::D, Register8::E), 4, "LD D, E"),
        0x54 => (Instruction::LdRR(Register8::D, Register8::H), 4, "LD D, H"),
        0x55 => (Instruction::LdRR(Register8::D, Register8::L), 4, "LD D, L"),
        0x56 => (Instruction::LdRHl(Register8::D), 8, "LD D, (HL)"),
        0x57 => (Instruction::LdRR(Register8::D, Register8::A), 4, "LD D, A"),
        0x58 => (Instruction::LdRR(Register8::E, Register8::B), 4, "LD E, B"),
        0x59 => (Instruction::LdRR(Register8::E, Register8::C), 4, "LD E, C"),
        0x5A => (Instruction::LdRR(Register8::E, Register8::D), 4, "LD E, D"),
        0x5B => (Instruction::LdRR(Register8::E, Register8::E), 4, "LD E, E"),
        0x5C => (Instruction::LdRR(Register8::E, Register8::H), 4, "LD E, H"),
        0x5D => (Instruction::LdRR(Register8::E, Register8::L), 4, "LD E, L"),
        0x5E => (Instruction::LdRHl(Register8::E), 8, "LD E, (HL)"),
        0x5F => (Instruction::LdRR(Register8::E, Register8::A), 4, "LD E, A"),
        0x60 => (Instruction::LdRR(Register8::H, Register8::B), 4, "LD H, B"),
        0x61 => (Instruction::LdRR(Register8::H, Register8::C), 4, "LD H, C"),
        0x62 => (Instruction::LdRR(Register8::H, Register8::D), 4, "LD H, D"),
        0x63 => (Instruction::LdRR(Register8::H, Register8::E), 4, "LD H, E"),
        0x64 => (Instruction::LdRR(Register8::H, Register8::H), 4, "LD H, H"),
        0x65 => (Instruction::LdRR(Register8::H, Register8::L), 4, "LD H, L"),
        0x66 => (Instruction::LdRHl(Register8::H), 8, "LD H, (HL)"),
        0x67 => (Instruction::LdRR(Register8::H, Register8::A), 4, "LD H, A"),
        0x68 => (Instruction::LdRR(Register8::L, Register8::B), 4, "LD L, B"),
        0x69 => (Instruction::LdRR(Register8::L, Register8::C), 4, "LD L, C"),
        0x6A => (Instruction::LdRR(Register8::L, Register8::D), 4, "LD L, D"),
        0x6B => (Instruction::LdRR(Register8::L, Register8::E), 4, "LD L, E"),
        0x6C => (Instruction::LdRR(Register8::L, Register8::H), 4, "LD L, H"),
        0x6D => (Instruction::LdRR(Register8::L, Register8::L), 4, "LD L, L"),
        0x6E => (Instruction::LdRHl(Register8::L), 8, "LD L, (HL)"),
        0x6F => (Instruction::LdRR(Register8::L, Register8::A), 4, "LD L, A"),
        0x70 => (Instruction::LdHlR(Register8::B), 8, "LD (HL), B"),
        0x71 => (Instruction::LdHlR(Register8::C), 8, "LD (HL), C"),
        0x72 => (Instruction::LdHlR(Register8::D), 8, "LD (HL), D"),
        0x73 => (Instruction::LdHlR(Register8::E), 8, "LD (HL), E"),
        0x74 => (Instruction::LdHlR(Register8::H), 8, "LD (HL), H"),
        0x75 => (Instruction::LdHlR(Register8::L), 8, "LD (HL), L"),
        0x76 => (Instruction::Halt, 4, "HALT"),
        0x77 => (Instruction::LdHlR(Register8::A), 8, "LD (HL), A"),
        0x78 => (Instruction::LdRR(Register8::A, Register8::B), 4, "LD A, B"),
        0x79 => (Instruction::LdRR(Register8::A, Register8::C), 4, "LD A, C"),
        0x7A => (Instruction::LdRR(Register8::A, Register8::D), 4, "LD A, D"),
        0x7B => (Instruction::LdRR(Register8::A, Register8::E), 4, "LD A, E"),
        0x7C => (Instruction::LdRR(Register8::A, Register8::H), 4, "LD A, H"),
        0x7D => (Instruction::LdRR(Register8::A, Register8::L), 4, "LD A, L"),
        0x7E => (Instruction::LdRHl(Register8::A), 8, "LD A, (HL)"),
        0x7F => (Instruction::LdRR(Register8::A, Register8::A), 4, "LD A, A"),
        0x80 => (Instruction::Add(Storage::Register(Register8::B)), 4, "ADD B"),
        0x81 => (Instruction::Add(Storage::Register(Register8::C)), 4, "ADD C"),
        0x82 => (Instruction::Add(Storage::Register(Register8::D)), 4, "ADD D"),
        0x83 => (Instruction::Add(Storage::Register(Register8::E)), 4, "ADD E"),
        0x84 => (Instruction::Add(Storage::Register(Register8::H)), 4, "ADD H"),
        0x85 => (Instruction::Add(Storage::Register(Register8::L)), 4, "ADD L"),
        0x86 => (Instruction::Add(Storage::Pointer(Register16::HL)), 8, "ADD (HL)"),
        0x87 => (Instruction::Add(Storage::Register(Register8::A)), 4, "ADD A"),
        0x88 => (Instruction::Adc(Storage::Register(Register8::B)), 4, "ADC B"),
        0x89 => (Instruction::Adc(Storage::Register(Register8::C)), 4, "ADC C"),
        0x8A => (Instruction::Adc(Storage::Register(Register8::D)), 4, "ADC D"),
        0x8B => (Instruction::Adc(Storage::Register(Register8::E)), 4, "ADC E"),
        0x8C => (Instruction::Adc(Storage::Register(Register8::H)), 4, "ADC H"),
        0x8D => (Instruction::Adc(Storage::Register(Register8::L)), 4, "ADC L"),
        0x8E => (Instruction::Adc(Storage::Pointer(Register16::HL)), 8, "ADC (HL)"),
        0x8F => (Instruction::Adc(Storage::Register(Register8::A)), 4, "ADC A"),
        0x90 => (Instruction::Sub(Storage::Register(Register8::B)), 4, "SUB B"),
        0x91 => (Instruction::Sub(Storage::Register(Register8::C)), 4, "SUB C"),
        0x92 => (Instruction::Sub(Storage::Register(Register8::D)), 4, "SUB D"),
        0x93 => (Instruction::Sub(Storage::Register(Register8::E)), 4, "SUB E"),
        0x94 => (Instruction::Sub(Storage::Register(Register8::H)), 4, "SUB H"),
        0x95 => (Instruction::Sub(Storage::Register(Register8::L)), 4, "SUB L"),
        0x96 => (Instruction::Sub(Storage::Pointer(Register16::HL)), 8, "SUB (HL)"),
        0x97 => (Instruction::Sub(Storage::Register(Register8::A)), 4, "SUB A"),
        0x98 => (Instruction::Sbc(Storage::Register(Register8::B)), 4, "SBC B"),
        0x99 => (Instruction::Sbc(Storage::Register(Register8::C)), 4, "SBC C"),
        0x9A => (Instruction::Sbc(Storage::Register(Register8::D)), 4, "SBC D"),
        0x9B => (Instruction::Sbc(Storage::Register(Register8::E)), 4, "SBC E"),
        0x9C => (Instruction::Sbc(Storage::Register(Register8::H)), 4, "SBC H"),
        0x9D => (Instruction::Sbc(Storage::Register(Register8::L)), 4, "SBC L"),
        0x9E => (Instruction::Sbc(Storage::Pointer(Register16::HL)), 8, "SBC (HL)"),
        0x9F => (Instruction::Sbc(Storage::Register(Register8::A)), 4, "SBC A"),
        0xA0 => (Instruction::And(Storage::Register(Register8::B)), 4, "AND B"),
        0xA1 => (Instruction::And(Storage::Register(Register8::C)), 4, "AND C"),
        0xA2 => (Instruction::And(Storage::Register(Register8::D)), 4, "AND D"),
        0xA3 => (Instruction::And(Storage::Register(Register8::E)), 4, "AND E"),
        0xA4 => (Instruction::And(Storage::Register(Register8::H)), 4, "AND H"),
        0xA5 => (Instruction::And(Storage::Register(Register8::L)), 4, "AND L"),
        0xA6 => (Instruction::And(Storage::Pointer(Register16::HL)), 8, "AND (HL)"),
        0xA7 => (Instruction::And(Storage::Register(Register8::A)), 4, "AND A"),
        0xA8 => (Instruction::Xor(Register8::B), 4, "XOR B"),
        0xA9 => (Instruction::Xor(Register8::C), 4, "XOR C"),
        0xAA => (Instruction::Xor(Register8::D), 4, "XOR D"),
        0xAB => (Instruction::Xor(Register8::E), 4, "XOR E"),
        0xAC => (Instruction::Xor(Register8::H), 4, "XOR H"),
        0xAD => (Instruction::Xor(Register8::L), 4, "XOR L"),
        0xAE => (Instruction::XorHl, 8, "XOR A, (HL)"),
        0xAF => (Instruction::Xor(Register8::A), 4, "XOR A"),
        0xB0 => (Instruction::Or(Storage::Register(Register8::B)), 4, "OR B"),
        0xB1 => (Instruction::Or(Storage::Register(Register8::C)), 4, "OR C"),
        0xB2 => (Instruction::Or(Storage::Register(Register8::D)), 4, "OR D"),
        0xB3 => (Instruction::Or(Storage::Register(Register8::E)), 4, "OR E"),
        0xB4 => (Instruction::Or(Storage::Register(Register8::H)), 4, "OR H"),
        0xB5 => (Instruction::Or(Storage::Register(Register8::L)), 4, "OR L"),
        0xB6 => (Instruction::Or(Storage::Pointer(Register16::HL)), 4, "OR (HL)"),
        0xB7 => (Instruction::Or(Storage::Register(Register8::A)), 4, "OR A"),
        0xB8 => (Instruction::Cp(Storage::Register(Register8::B)), 4, "CP B"),
        0xB9 => (Instruction::Cp(Storage::Register(Register8::C)), 4, "CP C"),
        0xBA => (Instruction::Cp(Storage::Register(Register8::D)), 4, "CP D"),
        0xBB => (Instruction::Cp(Storage::Register(Register8::E)), 4, "CP E"),
        0xBC => (Instruction::Cp(Storage::Register(Register8::H)), 4, "CP H"),
        0xBD => (Instruction::Cp(Storage::Register(Register8::L)), 4, "CP L"),
        0xBE => (Instruction::Cp(Storage::Pointer(Register16::HL)), 4, "CP (HL)"),
        0xBF => (Instruction::Cp(Storage::Register(Register8::A)), 4, "CP A"),
        0xC0 => (Instruction::RetCond(Flag::Z, false), 8, "RET NZ"),
        0xC1 => (Instruction::Pop16(Register16::BC), 12, "POP BC"),
        0xC2 => (Instruction::JpCond(Flag::Z, false), 12, "JP NZ"),
        0xC3 => (Instruction::Jp, 16, "JP"),
        0xC4 => (Instruction::CallCond(Flag::Z, false), 4, "CALL NZ, d16"),
        0xC5 => (Instruction::Push16(Register16::BC), 16, "PUSH BC"),
        0xC6 => (Instruction::Add(Storage::NextByte), 8, "ADD d8"),
        0xC7 => (Instruction::Rst(0x00), 16, "RST 00H"),
        0xC8 => (Instruction::RetCond(Flag::Z, true), 8, "RET Z"),
        0xC9 => (Instruction::Ret, 16, "RET"),
        0xCA => (Instruction::JpCond(Flag::Z, true), 12, "JP Z"),
        0xCB => (Instruction::NotImplemented, 4, "PREFIX CB"),
        0xCC => (Instruction::CallCond(Flag::Z, true), 4, "CALL Z, d16"),
        0xCD => (Instruction::Call, 24, "CALL d16"),
        0xCE => (Instruction::Adc(Storage::NextByte), 8, "ADC d8"),
        0xCF => (Instruction::Rst(0x08), 16, "RST 08H"),
        0xD0 => (Instruction::RetCond(Flag::C, false), 8, "RET NC"),
        0xD1 => (Instruction::Pop16(Register16::DE), 12, "POP DE"),
        0xD2 => (Instruction::JpCond(Flag::C, false), 12, "JP NC"),
        0xD3 => (Instruction::Undefined, 4, "UNDEFINED"),
        0xD4 => (Instruction::CallCond(Flag::C, false), 4, "CALL NC, d16"),
        0xD5 => (Instruction::Push16(Register16::DE), 16, "PUSH DE"),
        0xD6 => (Instruction::Sub(Storage::NextByte), 8, "SUB d8"),
        0xD7 => (Instruction::Rst(0x10), 16, "RST 10H"),
        0xD8 => (Instruction::RetCond(Flag::C, true), 8, "RET C"),
        0xD9 => (Instruction::Reti, 16, "RETI"),
        0xDA => (Instruction::JpCond(Flag::C, true), 12, "JP C"),
        0xDB => (Instruction::Undefined, 4, "UNDEFINED"),
        0xDC => (Instruction::CallCond(Flag::C, true), 4, "CALL C, d16"),
        0xDD => (Instruction::Undefined, 4, "UNDEFINED"),
        0xDE => (Instruction::Sbc(Storage::NextByte), 4, "SBC d8"),
        0xDF => (Instruction::Rst(0x18), 16, "RST 18H"),
        0xE0 => (Instruction::LdWriteIoN, 12, "LDH (FF00+n), A"),
        0xE1 => (Instruction::Pop16(Register16::HL), 12, "POP HL"),
        0xE2 => (Instruction::LdWriteIoC, 12, "LD (FF00+C), A"),
        0xE3 => (Instruction::Undefined, 4, "UNDEFINED"),
        0xE4 => (Instruction::Undefined, 4, "UNDEFINED"),
        0xE5 => (Instruction::Push16(Register16::HL), 16, "PUSH HL"),
        0xE6 => (Instruction::And(Storage::NextByte), 4, "AND d8"),
        0xE7 => (Instruction::Rst(0x20), 16, "RST 20H"),
        0xE8 => (Instruction::AddSpE8, 16, "ADD SP, e8"),
        0xE9 => (Instruction::JpHl, 4, "JP HL"),
        0xEA => (Instruction::Lda16A, 16, "LD (a16), A"),
        0xEB => (Instruction::Undefined, 4, "UNDEFINED"),
        0xEC => (Instruction::Undefined, 4, "UNDEFINED"),
        0xED => (Instruction::Undefined, 4, "UNDEFINED"),
        0xEE => (Instruction::XorD8, 8, "XOR d8"),
        0xEF => (Instruction::Rst(0x28), 16, "RST 28H"),
        0xF0 => (Instruction::LdReadIoN, 12, "LDH A, (FF00+n)"),
        0xF1 => (Instruction::Pop16(Register16::AF), 12, "POP AF"),
        0xF2 => (Instruction::LdReadIoC, 8, "LD A, (FF00+C)"),
        0xF3 => (Instruction::Di, 4, "DI"),
        0xF4 => (Instruction::Undefined, 4, "UNDEFINED"),
        0xF5 => (Instruction::Push16(Register16::AF), 16, "PUSH AF"),
        0xF6 => (Instruction::Or(Storage::NextByte), 8, "OR d8"),
        0xF7 => (Instruction::Rst(0x30), 16, "RST 30H"),
        0xF8 => (Instruction::LdHlSpE8, 12, "LD HL, sp+e8"),
        0xF9 => (Instruction::LdSpHl, 8, "LD SP, HL"),
        0xFA => (Instruction::LdAA16, 16, "LD A,(a16)"),
        0xFB => (Instruction::Ei, 4, "EI"),
        0xFC => (Instruction::Undefined, 4, "UNDEFINED"),
        0xFD => (Instruction::Undefined, 4, "UNDEFINED"),
        0xFE => (Instruction::Cp(Storage::NextByte), 8, "CP n"),
        _ => (Instruction::Rst(0x38), 16, "RST 38H"),
    }
}

pub fn lookup_cb(opcode: u8) -> (entry: (Instruction, u64, &'static str))
    ensures
        entry == cb_opcode_entry(opcode),
{
    reveal(cb_opcode_entry);
    match opcode {
        0x00 => (Instruction::Rlc(Storage::Register(Register8::B)), 8, "RLC B"),
        0x01 => (Instruction::Rlc(Storage::Register(Register8::C)), 8, "RLC C"),
        0x02 => (Instruction::Rlc(Storage::Register(Register8::D)), 8, "RLC D"),
        0x03 => (Instruction::Rlc(Storage::Register(Register8::E)), 8, "RLC E"),
        0x04 => (Instruction::Rlc(Storage::Register(Register8::H)), 8, "RLC H"),
        0x05 => (Instruction::Rlc(Storage::Register(Register8::L)), 8, "RLC L"),
        0x06 => (Instruction::Rlc(Storage::Pointer(Register16::HL)), 16, "RLC (HL)"),
        0x07 => (Instruction::Rlc(Storage::Register(Register8::A)), 8, "RLC A"),
        0x08 => (Instruction::Rrc(Storage::Register(Register8::B)), 8, "RrC B"),
        0x09 => (Instruction::Rrc(Storage::Register(Register8::C)), 8, "RrC C"),
        0x0A => (Instruction::Rrc(Storage::Register(Register8::D)), 8, "RrC D"),
        0x0B => (Instruction::Rrc(Storage::Register(Register8::E)), 8, "RrC E"),
        0x0C => (Instruction::Rrc(Storage::Register(Register8::H)), 8, "RrC H"),
        0x0D => (Instruction::Rrc(Storage::Register(Register8::L)), 8, "RrC L"),
        0x0E => (Instruction::Rrc(Storage::Pointer(Register16::HL)), 16, "RrC (HL)"),
        0x0F => (Instruction::Rrc(Storage::Register(Register8::A)), 8, "RrC A"),
        0x10 => (Instruction::Rl(Storage::Register(Register8::B)), 8, "RL B"),
        0x11 => (Instruction::Rl(Storage::Register(Register8::C)), 8, "RL C"),
        0x12 => (Instruction::Rl(Storage::Register(Register8::D)), 8, "RL D"),
        0x13 => (Instruction::Rl(Storage::Register(Register8::E)), 8, "RL E"),
        0x14 => (Instruction::Rl(Storage::Register(Register8::H)), 8, "RL H"),
        0x15 => (Instruction::Rl(Storage::Register(Register8::L)), 8, "RL L"),
        0x16 => (Instruction::Rl(Storage::Pointer(Register16::HL)), 16, "RL (HL)"),
        0x17 => (Instruction::Rl(Storage::Register(Register8::A)), 8, "RL A"),
        0x18 => (Instruction::Rr(Storage::Register(Register8::B)), 8, "RR B"),
        0x19 => (Instruction::Rr(Storage::Register(Register8::C)), 8, "RR C"),
        0x1A => (Instruction::Rr(Storage::Register(Register8::D)), 8, "RR D"),
        0x1B => (Instruction::Rr(Storage::Register(Register8::E)), 8, "RR E"),
        0x1C => (Instruction::Rr(Storage::Register(Register8::H)), 8, "RR H"),
        0x1D => (Instruction::Rr(Storage::Register(Register8::L)), 8, "RR L"),
        0x1E => (Instruction::Rr(Storage::Pointer(Register16::HL)), 16, "RR (HL)"),
        0x1F => (Instruction::Rr(Storage::Register(Register8::A)), 8, "RR A"),
        0x20 => (Instruction::Sla(Storage::Register(Register8::B)), 8, "SLA B"),
        0x21 => (Instruction::Sla(Storage::Register(Register8::C)), 8, "SLA C"),
        0x22 => (Instruction::Sla(Storage::Register(Register8::D)), 8, "SLA D"),
        0x23 => (Instruction::Sla(Storage::Register(Register8::E)), 8, "SLA E"),
        0x24 => (Instruction::Sla(Storage::Register(Register8::H)), 8, "SLA H"),
        0x25 => (Instruction::Sla(Storage::Register(Register8::L)), 8, "SLA L"),
        0x26 => (Instruction::Sla(Storage::Pointer(Register16::HL)), 16, "SLA (HL)"),
        0x27 => (Instruction::Sla(Storage::Register(Register8::A)), 8, "SLA A"),
        0x28 => (Instruction::Sra(Storage::Register(Register8::B)), 8, "SRA B"),
        0x29 => (Instruction::Sra(Storage::Register(Register8::C)), 8, "SRA C"),
        0x2A => (Instruction::Sra(Storage::Register(Register8::D)), 8, "SRA D"),
        0x2B => (Instruction::Sra(Storage::Register(Register8::E)), 8, "SRA E"),
        0x2C => (Instruction::Sra(Storage::Register(Register8::H)), 8, "SRA H"),
        0x2D => (Instruction::Sra(Storage::Register(Register8::L)), 8, "SRA L"),
        0x2E => (Instruction::Sra(Storage::Pointer(Register16::HL)), 16, "SRA (HL)"),
        0x2F => (Instruction::Sra(Storage::Register(Register8::A)), 8, "SRA A"),
        0x30 => (Instruction::Swap(Storage::Register(Register8::B)), 8, "SWAP B"),
        0x31 => (Instruction::Swap(Storage::Register(Register8::C)), 8, "SWAP C"),
        0x32 => (Instruction::Swap(Storage::Register(Register8::D)), 8, "SWAP D"),
        0x33 => (Instruction::Swap(Storage::Register(Register8::E)), 8, "SWAP E"),
        0x34 => (Instruction::Swap(Storage::Register(Register8::H)), 8, "SWAP H"),
        0x35 => (Instruction::Swap(Storage::Register(Register8::L)), 8, "SWAP L"),
        0x36 => (Instruction::Swap(Storage::Pointer(Register16::HL)), 16, "SWAP (HL)"),
        0x37 => (Instruction::Swap(Storage::Register(Register8::A)), 8, "SWAP A"),
        0x38 => (Instruction::Srl(Storage::Register(Register8::B)), 8, "SRL B"),
        0x39 => (Instruction::Srl(Storage::Register(Register8::C)), 8, "SRL C"),
        0x3A => (Instruction::Srl(Storage::Register(Register8::D)), 8, "SRL D"),
        0x3B => (Instruction::Srl(Storage::Register(Register8::E)), 8, "SRL E"),
        0x3C => (Instruction::Srl(Storage::Register(Register8::H)), 8, "SRL H"),
        0x3D => (Instruction::Srl(Storage::Register(Register8::L)), 8, "SRL L"),
        0x3E => (Instruction::Srl(Storage::Pointer(Register16::HL)), 16, "SRL (HL)"),
        0x3F => (Instruction::Srl(Storage::Register(Register8::A)), 8, "SRL A"),
        0x40 => (Instruction::Bit(0, Storage::Register(Register8::B)), 8, "BIT 0, B"),
        0x41 => (Instruction::Bit(0, Storage::Register(Register8::C)), 8, "BIT 0, C"),
        0x42 => (Instruction::Bit(0, Storage::Register(Register8::D)), 8, "BIT 0, D"),
        0x43 => (Instruction::Bit(0, Storage::Register(Register8::E)), 8, "BIT 0, E"),
        0x44 => (Instruction::Bit(0, Storage::Register(Register8::H)), 8, "BIT 0, H"),
        0x45 => (Instruction::Bit(0, Storage::Register(Register8::L)), 8, "BIT 0, L"),
        0x46 => (Instruction::Bit(0, Storage::Pointer(Register16::HL)), 12, "BIT 0, (HL)"),
        0x47 => (Instruction::Bit(0, Storage::Register(Register8::A)), 8, "BIT 0, A"),
        0x48 => (Instruction::Bit(1, Storage::Register(Register8::B)), 8, "BIT 1, B"),
        0x49 => (Instruction::Bit(1, Storage::Register(Register8::C)), 8, "BIT 1, C"),
        0x4A => (Instruction::Bit(1, Storage::Register(Register8::D)), 8, "BIT 1, D"),
        0x4B => (Instruction::Bit(1, Storage::Register(Register8::E)), 8, "BIT 1, E"),
        0x4C => (Instruction::Bit(1, Storage::Register(Register8::H)), 8, "BIT 1, H"),
        0x4D => (Instruction::Bit(1, Storage::Register(Register8::L)), 8, "BIT 1, L"),
        0x4E => (Instruction::Bit(1, Storage::Pointer(Register16::HL)), 12, "BIT 1, (HL)"),
        0x4F => (Instruction::Bit(1, Storage::Register(Register8::A)), 8, "BIT 1, A"),
        0x50 => (Instruction::Bit(2, Storage::Register(Register8::B)), 8, "BIT 2, B"),
        0x51 => (Instruction::Bit(2, Storage::Register(Register8::C)), 8, "BIT 2, C"),
        0x52 => (Instruction::Bit(2, Storage::Register(Register8::D)), 8, "BIT 2, D"),
        0x53 => (Instruction::Bit(2, Storage::Register(Register8::E)), 8, "BIT 2, E"),
        0x54 => (Instruction::Bit(2, Storage::Register(Register8::H)), 8, "BIT 2, H"),
        0x55 => (Instruction::Bit(2, Storage::Register(Register8::L)), 8, "BIT 2, L"),
        0x56 => (Instruction::Bit(2, Storage::Pointer(Register16::HL)), 12, "BIT 2, (HL)"),
        0x57 => (Instruction::Bit(2, Storage::Register(Register8::A)), 8, "BIT 2, A"),
        0x58 => (Instruction::Bit(3, Storage::Register(Register8::B)), 8, "BIT 3, B"),
        0x59 => (Instruction::Bit(3, Storage::Register(Register8::C)), 8, "BIT 3, C"),
        0x5A => (Instruction::Bit(3, Storage::Register(Register8::D)), 8, "BIT 3, D"),
        0x5B => (Instruction::Bit(3, Storage::Register(Register8::E)), 8, "BIT 3, E"),
        0x5C => (Instruction::Bit(3, Storage::Register(Register8::H)), 8, "BIT 3, H"),
        0x5D => (Instruction::Bit(3, Storage::Register(Register8::L)), 8, "BIT 3, L"),
        0x5E => (Instruction::Bit(3, Storage::Pointer(Register16::HL)), 12, "BIT 3, (HL)"),
        0x5F => (Instruction::Bit(3, Storage::Register(Register8::A)), 8, "BIT 3, A"),
        0x60 => (Instruction::Bit(4, Storage::Register(Register8::B)), 8, "BIT 4, B"),
        0x61 => (Instruction::Bit(4, Storage::Register(Register8::C)), 8, "BIT 4, C"),
        0x62 => (Instruction::Bit(4, Storage::Register(Register8::D)), 8, "BIT 4, D"),
        0x63 => (Instruction::Bit(4, Storage::Register(Register8::E)), 8, "BIT 4, E"),
        0x64 => (Instruction::Bit(4, Storage::Register(Register8::H)), 8, "BIT 4, H"),
        0x65 => (Instruction::Bit(4, Storage::Register(Register8::L)), 8, "BIT 4, L"),
        0x66 => (Instruction::Bit(4, Storage::Pointer(Register16::HL)), 12, "BIT 4, (HL)"),
        0x67 => (Instruction::Bit(4, Storage::Register(Register8::A)), 8, "BIT 4, A"),
        0x68 => (Instruction::Bit(5, Storage::Register(Register8::B)), 8, "BIT 5, B"),
        0x69 => (Instruction::Bit(5, Storage::Register(Register8::C)), 8, "BIT 5, C"),
        0x6A => (Instruction::Bit(5, Storage::Register(Register8::D)), 8, "BIT 5, D"),
        0x6B => (Instruction::Bit(5, Storage::Register(Register8::E)), 8, "BIT 5, E"),
        0x6C => (Instruction::Bit(5, Storage::Register(Register8::H)), 8, "BIT 5, H"),
        0x6D => (Instruction::Bit(5, Storage::Register(Register8::L)), 8, "BIT 5, L"),
        0x6E => (Instruction::Bit(5, Storage::Pointer(Register16::HL)), 12, "BIT 5, (HL)"),
        0x6F => (Instruction::Bit(5, Storage::Register(Register8::A)), 8, "BIT 5, A"),
        0x70 => (Instruction::Bit(6, Storage::Register(Register8::B)), 8, "BIT 6, B"),
        0x71 => (Instruction::Bit(6, Storage::Register(Register8::C)), 8, "BIT 6, C"),
        0x72 => (Instruction::Bit(6, Storage::Register(Register8::D)), 8, "BIT 6, D"),
        0x73 => (Instruction::Bit(6, Storage::Register(Register8::E)), 8, "BIT 6, E"),
        0x74 => (Instruction::Bit(6, Storage::Register(Register8::H)), 8, "BIT 6, H"),
        0x75 => (Instruction::Bit(6, Storage::Register(Register8::L)), 8, "BIT 6, L"),
        0x76 => (Instruction::Bit(6, Storage::Pointer(Register16::HL)), 12, "BIT 6, (HL)"),
        0x77 => (Instruction::Bit(6, Storage::Register(Register8::A)), 8, "BIT 6, A"),
        0x78 => (Instruction::Bit(7, Storage::Register(Register8::B)), 8, "BIT 7, B"),
        0x79 => (Instruction::Bit(7, Storage::Register(Register8::C)), 8, "BIT 7, C"),
        0x7A => (Instruction::Bit(7, Storage::Register(Register8::D)), 8, "BIT 7, D"),
        0x7B => (Instruction::Bit(7, Storage::Register(Register8::E)), 8, "BIT 7, E"),
        0x7C => (Instruction::Bit(7, Storage::Register(Register8::H)), 8, "BIT 7, H"),
        0x7D => (Instruction::Bit(7, Storage::Register(Register8::L)), 8, "BIT 7, L"),
        0x7E => (Instruction::Bit(7, Storage::Pointer(Register16::HL)), 12, "BIT 7, (HL)"),
        0x7F => (Instruction::Bit(7, Storage::Register(Register8::A)), 8, "BIT 7, A"),
        0x80 => (Instruction::Res(0, Storage::Register(Register8::B)), 8, "RES 0, B"),
        0x81 => (Instruction::Res(0, Storage::Register(Register8::C)), 8, "RES 0, C"),
        0x82 => (Instruction::Res(0, Storage::Register(Register8::D)), 8, "RES 0, D"),
        0x83 => (Instruction::Res(0, Storage::Register(Register8::E)), 8, "RES 0, E"),
        0x84 => (Instruction::Res(0, Storage::Register(Register8::H)), 8, "RES 0, H"),
        0x85 => (Instruction::Res(0, Storage::Register(Register8::L)), 8, "RES 0, L"),
        0x86 => (Instruction::Res(0, Storage::Pointer(Register16::HL)), 16, "RES 0, (HL)"),
        0x87 => (Instruction::Res(0, Storage::Register(Register8::A)), 8, "RES 0, A"),
        0x88 => (Instruction::Res(1, Storage::Register(Register8::B)), 8, "RES 1, B"),
        0x89 => (Instruction::Res(1, Storage::Register(Register8::C)), 8, "RES 1, C"),
        0x8A => (Instruction::Res(1, Storage::Register(Register8::D)), 8, "RES 1, D"),
        0x8B => (Instruction::Res(1, Storage::Register(Register8::E)), 8, "RES 1, E"),
        0x8C => (Instruction::Res(1, Storage::Register(Register8::H)), 8, "RES 1, H"),
        0x8D => (Instruction::Res(1, Storage::Register(Register8::L)), 8, "RES 1, L"),
        0x8E => (Instruction::Res(1, Storage::Pointer(Register16::HL)), 16, "RES 1, (HL)"),
        0x8F => (Instruction::Res(1, Storage::Register(Register8::A)), 8, "RES 1, A"),
        0x90 => (Instruction::Res(2, Storage::Register(Register8::B)), 8, "RES 2, B"),
        0x91 => (Instruction::Res(2, Storage::Register(Register8::C)), 8, "RES 2, C"),
        0x92 => (Instruction::Res(2, Storage::Register(Register8::D)), 8, "RES 2, D"),
        0x93 => (Instruction::Res(2, Storage::Register(Register8::E)), 8, "RES 2, E"),
        0x94 => (Instruction::Res(2, Storage::Register(Register8::H)), 8, "RES 2, H"),
        0x95 => (Instruction::Res(2, Storage::Register(Register8::L)), 8, "RES 2, L"),
        0x96 => (Instruction::Res(2, Storage::Pointer(Register16::HL)), 16, "RES 2, (HL)"),
        0x97 => (Instruction::Res(2, Storage::Register(Register8::A)), 8, "RES 2, A"),
        0x98 => (Instruction::Res(3, Storage::Register(Register8::B)), 8, "RES 3, B"),
        0x99 => (Instruction::Res(3, Storage::Register(Register8::C)), 8, "RES 3, C"),
        0x9A => (Instruction::Res(3, Storage::Register(Register8::D)), 8, "RES 3, D"),
        0x9B => (Instruction::Res(3, Storage::Register(Register8::E)), 8, "RES 3, E"),
        0x9C => (Instruction::Res(3, Storage::Register(Register8::H)), 8, "RES 3, H"),
        0x9D => (Instruction::Res(3, Storage::Register(Register8::L)), 8, "RES 3, L"),
        0x9E => (Instruction::Res(3, Storage::Pointer(Register16::HL)), 16, "RES 3, (HL)"),
        0x9F => (Instruction::Res(3, Storage::Register(Register8::A)), 8, "RES 3, A"),
        0xA0 => (Instruction::Res(4, Storage::Register(Register8::B)), 8, "RES 4, B"),
        0xA1 => (Instruction::Res(4, Storage::Register(Register8::C)), 8, "RES 4, C"),
        0xA2 => (Instruction::Res(4, Storage::Register(Register8::D)), 8, "RES 4, D"),
        0xA3 => (Instruction::Res(4, Storage::Register(Register8::E)), 8, "RES 4, E"),
        0xA4 => (Instruction::Res(4, Storage::Register(Register8::H)), 8, "RES 4, H"),
        0xA5 => (Instruction::Res(4, Storage::Register(Register8::L)), 8, "RES 4, L"),
        0xA6 => (Instruction::Res(4, Storage::Pointer(Register16::HL)), 16, "RES 4, (HL)"),
        0xA7 => (Instruction::Res(4, Storage::Register(Register8::A)), 8, "RES 4, A"),
        0xA8 => (Instruction::Res(5, Storage::Register(Register8::B)), 8, "RES 5, B"),
        0xA9 => (Instruction::Res(5, Storage::Register(Register8::C)), 8, "RES 5, C"),
        0xAA => (Instruction::Res(5, Storage::Register(Register8::D)), 8, "RES 5, D"),
        0xAB => (Instruction::Res(5, Storage::Register(Register8::E)), 8, "RES 5, E"),
        0xAC => (Instruction::Res(5, Storage::Register(Register8::H)), 8, "RES 5, H"),
        0xAD => (Instruction::Res(5, Storage::Register(Register8::L)), 8, "RES 5, L"),
        0xAE => (Instruction::Res(5, Storage::Pointer(Register16::HL)), 16, "RES 5, (HL)"),
        0xAF => (Instruction::Res(5, Storage::Register(Register8::A)), 8, "RES 5, A"),
        0xB0 => (Instruction::Res(6, Storage::Register(Register8::B)), 8, "RES 6, B"),
        0xB1 => (Instruction::Res(6, Storage::Register(Register8::C)), 8, "RES 6, C"),
        0xB2 => (Instruction::Res(6, Storage::Register(Register8::D)), 8, "RES 6, D"),
        0xB3 => (Instruction::Res(6, Storage::Register(Register8::E)), 8, "RES 6, E"),
        0xB4 => (Instruction::Res(6, Storage::Register(Register8::H)), 8, "RES 6, H"),
        0xB5 => (Instruction::Res(6, Storage::Register(Register8::L)), 8, "RES 6, L"),
        0xB6 => (Instruction::Res(6, Storage::Pointer(Register16::HL)), 16, "RES 6, (HL)"),
        0xB7 => (Instruction::Res(6, Storage::Register(Register8::A)), 8, "RES 6, A"),
        0xB8 => (Instruction::Res(7, Storage::Register(Register8::B)), 8, "RES 7, B"),
        0xB9 => (Instruction::Res(7, Storage::Register(Register8::C)), 8, "RES 7, C"),
        0xBA => (Instruction::Res(7, Storage::Register(Register8::D)), 8, "RES 7, D"),
        0xBB => (Instruction::Res(7, Storage::Register(Register8::E)), 8, "RES 7, E"),
        0xBC => (Instruction::Res(7, Storage::Register(Register8::H)), 8, "RES 7, H"),
        0xBD => (Instruction::Res(7, Storage::Register(Register8::L)), 8, "RES 7, L"),
        0xBE => (Instruction::Res(7, Storage::Pointer(Register16::HL)), 16, "RES 7, (HL)"),
        0xBF => (Instruction::Res(7, Storage::Register(Register8::A)), 8, "RES 7, A"),
        0xC0 => (Instruction::SetBit(0, Storage::Register(Register8::B)), 8, "SET 0, B"),
        0xC1 => (Instruction::SetBit(0, Storage::Register(Register8::C)), 8, "SET 0, C"),
        0xC2 => (Instruction::SetBit(0, Storage::Register(Register8::D)), 8, "SET 0, D"),
        0xC3 => (Instruction::SetBit(0, Storage::Register(Register8::E)), 8, "SET 0, E"),
        0xC4 => (Instruction::SetBit(0, Storage::Register(Register8::H)), 8, "SET 0, H"),
        0xC5 => (Instruction::SetBit(0, Storage::Register(Register8::L)), 8, "SET 0, L"),
        0xC6 => (Instruction::SetBit(0, Storage::Pointer(Register16::HL)), 16, "SET 0, (HL)"),
        0xC7 => (Instruction::SetBit(0, Storage::Register(Register8::A)), 8, "SET 0, A"),
        0xC8 => (Instruction::SetBit(1, Storage::Register(Register8::B)), 8, "SET 1, B"),
        0xC9 => (Instruction::SetBit(1, Storage::Register(Register8::C)), 8, "SET 1, C"),
        0xCA => (Instruction::SetBit(1, Storage::Register(Register8::D)), 8, "SET 1, D"),
        0xCB => (Instruction::SetBit(1, Storage::Register(Register8::E)), 8, "SET 1, E"),
        0xCC => (Instruction::SetBit(1, Storage::Register(Register8::H)), 8, "SET 1, H"),
        0xCD => (Instruction::SetBit(1, Storage::Register(Register8::L)), 8, "SET 1, L"),
        0xCE => (Instruction::SetBit(1, Storage::Pointer(Register16::HL)), 16, "SET 1, (HL)"),
        0xCF => (Instruction::SetBit(1, Storage::Register(Register8::A)), 8, "SET 1, A"),
        0xD0 => (Instruction::SetBit(2, Storage::Register(Register8::B)), 8, "SET 2, B"),
        0xD1 => (Instruction::SetBit(2, Storage::Register(Register8::C)), 8, "SET 2, C"),
        0xD2 => (Instruction::SetBit(2, Storage::Register(Register8::D)), 8, "SET 2, D"),
        0xD3 => (Instruction::SetBit(2, Storage::Register(Register8::E)), 8, "SET 2, E"),
        0xD4 => (Instruction::SetBit(2, Storage::Register(Register8::H)), 8, "SET 2, H"),
        0xD5 => (Instruction::SetBit(2, Storage::Register(Register8::L)), 8, "SET 2, L"),
        0xD6 => (Instruction::SetBit(2, Storage::Pointer(Register16::HL)), 16, "SET 2, (HL)"),
        0xD7 => (Instruction::SetBit(2, Storage::Register(Register8::A)), 8, "SET 2, A"),
        0xD8 => (Instruction::SetBit(3, Storage::Register(Register8::B)), 8, "SET 3, B"),
        0xD9 => (Instruction::SetBit(3, Storage::Register(Register8::C)), 8, "SET 3, C"),
        0xDA => (Instruction::SetBit(3, Storage::Register(Register8::D)), 8, "SET 3, D"),
        0xDB => (Instruction::SetBit(3, Storage::Register(Register8::E)), 8, "SET 3, E"),
        0xDC => (Instruction::SetBit(3, Storage::Register(Register8::H)), 8, "SET 3, H"),
        0xDD => (Instruction::SetBit(3, Storage::Register(Register8::L)), 8, "SET 3, L"),
        0xDE => (Instruction::SetBit(3, Storage::Pointer(Register16::HL)), 16, "SET 3, (HL)"),
        0xDF => (Instruction::SetBit(3, Storage::Register(Register8::A)), 8, "SET 3, A"),
        0xE0 => (Instruction::SetBit(4, Storage::Register(Register8::B)), 8, "SET 4, B"),
        0xE1 => (Instruction::SetBit(4, Storage::Register(Register8::C)), 8, "SET 4, C"),
        0xE2 => (Instruction::SetBit(4, Storage::Register(Register8::D)), 8, "SET 4, D"),
        0xE3 => (Instruction::SetBit(4, Storage::Register(Register8::E)), 8, "SET 4, E"),
        0xE4 => (Instruction::SetBit(4, Storage::Register(Register8::H)), 8, "SET 4, H"),
        0xE5 => (Instruction::SetBit(4, Storage::Register(Register8::L)), 8, "SET 4, L"),
        0xE6 => (Instruction::SetBit(4, Storage::Pointer(Register16::HL)), 16, "SET 4, (HL)"),
        0xE7 => (Instruction::SetBit(4, Storage::Register(Register8::A)), 8, "SET 4, A"),
        0xE8 => (Instruction::SetBit(5, Storage::Register(Register8::B)), 8, "SET 5, B"),
        0xE9 => (Instruction::SetBit(5, Storage::Register(Register8::C)), 8, "SET 5, C"),
        0xEA => (Instruction::SetBit(5, Storage::Register(Register8::D)), 8, "SET 5, D"),
        0xEB => (Instruction::SetBit(5, Storage::Register(Register8::E)), 8, "SET 5, E"),
        0xEC => (Instruction::SetBit(5, Storage::Register(Register8::H)), 8, "SET 5, H"),
        0xED => (Instruction::SetBit(5, Storage::Register(Register8::L)), 8, "SET 5, L"),
        0xEE => (Instruction::SetBit(5, Storage::Pointer(Register16::HL)), 16, "SET 5, (HL)"),
        0xEF => (Instruction::SetBit(5, Storage::Register(Register8::A)), 8, "SET 5, A"),
        0xF0 => (Instruction::SetBit(6, Storage::Register(Register8::B)), 8, "SET 6, B"),
        0xF1 => (Instruction::SetBit(6, Storage::Register(Register8::C)), 8, "SET 6, C"),
        0xF2 => (Instruction::SetBit(6, Storage::Register(Register8::D)), 8, "SET 6, D"),
        0xF3 => (Instruction::SetBit(6, Storage::Register(Register8::E)), 8, "SET 6, E"),
        0xF4 => (Instruction::SetBit(6, Storage::Register(Register8::H)), 8, "SET 6, H"),
        0xF5 => (Instruction::SetBit(6, Storage::Register(Register8::L)), 8, "SET 6, L"),
        0xF6 => (Instruction::SetBit(6, Storage::Pointer(Register16::HL)), 16, "SET 6, (HL)"),
        0xF7 => (Instruction::SetBit(6, Storage::Register(Register8::A)), 8, "SET 6, A"),
        0xF8 => (Instruction::SetBit(7, Storage::Register(Register8::B)), 8, "SET 7, B"),
        0xF9 => (Instruction::SetBit(7, Storage::Register(Register8::C)), 8, "SET 7, C"),
        0xFA => (Instruction::SetBit(7, Storage::Register(Register8::D)), 8, "SET 7, D"),
        0xFB => (Instruction::SetBit(7, Storage::Register(Register8::E)), 8, "SET 7, E"),
        0xFC => (Instruction::SetBit(7, Storage::Register(Register8::H)), 8, "SET 7, H"),
        0xFD => (Instruction::SetBit(7, Storage::Register(Register8::L)), 8, "SET 7, L"),
        0xFE => (Instruction::SetBit(7, Storage::Pointer(Register16::HL)), 16, "SET 7, (HL)"),
        _ => (Instruction::SetBit(7, Storage::Register(Register8::A)), 8, "SET 7, A"),
    }
}

} // verus!
