//! The fixed 256-entry lookup table mapping an opcode byte to its mnemonic,
//! addressing mode and base cycle count.
use vstd::prelude::*;

verus! {

/// The operation named by an opcode. `XXX` stands for every opcode outside
/// the documented set; it is executed as a no-op.
#[derive(Clone, Copy, PartialEq, Eq, Structural, Debug)]
pub enum Mnemonic {
    ADC, AND, ASL, BCC, BCS, BEQ, BIT, BMI, BNE, BPL, BRK, BVC, BVS,
    CLC, CLD, CLI, CLV, CMP, CPX, CPY, DEC, DEX, DEY, EOR, INC, INX,
    INY, JMP, JSR, LDA, LDX, LDY, LSR, NOP, ORA, PHA, PHP, PLA, PLP,
    ROL, ROR, RTI, RTS, SBC, SEC, SED, SEI, STA, STX, STY, TAX, TAY,
    TSX, TXA, TXS, TYA, XXX,
}

/// The scheme by which an instruction's operand address is computed.
/// `UNK` belongs to the undocumented opcodes and resolves nothing.
#[derive(Clone, Copy, PartialEq, Eq, Structural, Debug)]
pub enum AddrMode {
    IMP, IMM, ZP0, ZPX, ZPY, REL, ABS, ABX, ABY, IND, IZX, IZY, UNK,
}

/// One entry of the lookup table: mnemonic, addressing mode and the base
/// number of clock cycles the instruction takes.
#[derive(Clone, Copy, PartialEq, Eq, Structural, Debug)]
pub struct INSTRUCTION {
    pub opcode: Mnemonic,
    pub addr_mode: AddrMode,
    pub cycles: u8,
}

/// The table as a mathematical function of the opcode byte.
pub open spec fn spec_instruction(op: u8) -> INSTRUCTION {
    match op {
        0x00 => INSTRUCTION { opcode: Mnemonic::BRK, addr_mode: AddrMode::IMM, cycles: 7 },
        0x01 => INSTRUCTION { opcode: Mnemonic::ORA, addr_mode: AddrMode::IZX, cycles: 6 },
        0x05 => INSTRUCTION { opcode: Mnemonic::ORA, addr_mode: AddrMode::ZP0, cycles: 3 },
        0x06 => INSTRUCTION { opcode: Mnemonic::ASL, addr_mode: AddrMode::ZP0, cycles: 5 },
        0x08 => INSTRUCTION { opcode: Mnemonic::PHP, addr_mode: AddrMode::IMP, cycles: 3 },
        0x09 => INSTRUCTION { opcode: Mnemonic::ORA, addr_mode: AddrMode::IMM, cycles: 2 },
        0x0A => INSTRUCTION { opcode: Mnemonic::ASL, addr_mode: AddrMode::IMP, cycles: 2 },
        0x0D => INSTRUCTION { opcode: Mnemonic::ORA, addr_mode: AddrMode::ABS, cycles: 4 },
        0x0E => INSTRUCTION { opcode: Mnemonic::ASL, addr_mode: AddrMode::ABS, cycles: 6 },
        0x10 => INSTRUCTION { opcode: Mnemonic::BPL, addr_mode: AddrMode::REL, cycles: 2 },
        0x11 => INSTRUCTION { opcode: Mnemonic::ORA, addr_mode: AddrMode::IZY, cycles: 5 },
        0x15 => INSTRUCTION { opcode: Mnemonic::ORA, addr_mode: AddrMode::ZPX, cycles: 4 },
        0x16 => INSTRUCTION { opcode: Mnemonic::ASL, addr_mode: AddrMode::ZPX, cycles: 6 },
        0x18 => INSTRUCTION { opcode: Mnemonic::CLC, addr_mode: AddrMode::IMP, cycles: 2 },
        0x19 => INSTRUCTION { opcode: Mnemonic::ORA, addr_mode: AddrMode::ABY, cycles: 4 },
        0x1D => INSTRUCTION { opcode: Mnemonic::ORA, addr_mode: AddrMode::ABX, cycles: 4 },
        0x1E => INSTRUCTION { opcode: Mnemonic::ASL, addr_mode: AddrMode::ABX, cycles: 7 },
        0x20 => INSTRUCTION { opcode: Mnemonic::JSR, addr_mode: AddrMode::ABS, cycles: 6 },
        0x21 => INSTRUCTION { opcode: Mnemonic::AND, addr_mode: AddrMode::IZX, cycles: 6 },
        0x24 => INSTRUCTION { opcode: Mnemonic::BIT, addr_mode: AddrMode::ZP0, cycles: 3 },
        0x25 => INSTRUCTION { opcode: Mnemonic::AND, addr_mode: AddrMode::ZP0, cycles: 3 },
        0x26 => INSTRUCTION { opcode: Mnemonic::ROL, addr_mode: AddrMode::ZP0, cycles: 5 },
        0x28 => INSTRUCTION { opcode: Mnemonic::PLP, addr_mode: AddrMode::IMP, cycles: 4 },
        0x29 => INSTRUCTION { opcode: Mnemonic::AND, addr_mode: AddrMode::IMM, cycles: 2 },
        0x2A => INSTRUCTION { opcode: Mnemonic::ROL, addr_mode: AddrMode::IMP, cycles: 2 },
        0x2C => INSTRUCTION { opcode: Mnemonic::BIT, addr_mode: AddrMode::ABS, cycles: 4 },
        0x2D => INSTRUCTION { opcode: Mnemonic::AND, addr_mode: AddrMode::ABS, cycles: 4 },
        0x2E => INSTRUCTION { opcode: Mnemonic::ROL, addr_mode: AddrMode::ABS, cycles: 6 },
        0x30 => INSTRUCTION { opcode: Mnemonic::BMI, addr_mode: AddrMode::REL, cycles: 2 },
        0x31 => INSTRUCTION { opcode: Mnemonic::AND, addr_mode: AddrMode::IZY, cycles: 5 },
        0x35 => INSTRUCTION { opcode: Mnemonic::AND, addr_mode: AddrMode::ZPX, cycles: 4 },
        0x36 => INSTRUCTION { opcode: Mnemonic::ROL, addr_mode: AddrMode::ZPX, cycles: 6 },
        0x38 => INSTRUCTION { opcode: Mnemonic::SEC, addr_mode: AddrMode::IMP, cycles: 2 },
        0x39 => INSTRUCTION { opcode: Mnemonic::AND, addr_mode: AddrMode::ABY, cycles: 4 },
        0x3D => INSTRUCTION { opcode: Mnemonic::AND, addr_mode: AddrMode::ABX, cycles: 4 },
        0x3E => INSTRUCTION { opcode: Mnemonic::ROL, addr_mode: AddrMode::ABX, cycles: 7 },
        0x40 => INSTRUCTION { opcode: Mnemonic::RTI, addr_mode: AddrMode::IMP, cycles: 6 },
        0x41 => INSTRUCTION { opcode: Mnemonic::EOR, addr_mode: AddrMode::IZX, cycles: 6 },
        0x45 => INSTRUCTION { opcode: Mnemonic::EOR, addr_mode: AddrMode::ZP0, cycles: 3 },
        0x46 => INSTRUCTION { opcode: Mnemonic::LSR, addr_mode: AddrMode::ZP0, cycles: 5 },
        0x48 => INSTRUCTION { opcode: Mnemonic::PHA, addr_mode: AddrMode::IMP, cycles: 3 },
        0x49 => INSTRUCTION { opcode: Mnemonic::EOR, addr_mode: AddrMode::IMM, cycles: 2 },
        0x4A => INSTRUCTION { opcode: Mnemonic::LSR, addr_mode: AddrMode::IMP, cycles: 2 },
        0x4C => INSTRUCTION { opcode: Mnemonic::JMP, addr_mode: AddrMode::ABS, cycles: 3 },
        0x4D => INSTRUCTION { opcode: Mnemonic::EOR, addr_mode: AddrMode::ABS, cycles: 4 },
        0x4E => INSTRUCTION { opcode: Mnemonic::LSR, addr_mode: AddrMode::ABS, cycles: 6 },
        0x50 => INSTRUCTION { opcode: Mnemonic::BVC, addr_mode: AddrMode::REL, cycles: 2 },
        0x51 => INSTRUCTION { opcode: Mnemonic::EOR, addr_mode: AddrMode::IZY, cycles: 5 },
        0x55 => INSTRUCTION { opcode: Mnemonic::EOR, addr_mode: AddrMode::ZPX, cycles: 4 },
        0x56 => INSTRUCTION { opcode: Mnemonic::LSR, addr_mode: AddrMode::ZPX, cycles: 6 },
        0x58 => INSTRUCTION { opcode: Mnemonic::CLI, addr_mode: AddrMode::IMP, cycles: 2 },
        0x59 => INSTRUCTION { opcode: Mnemonic::EOR, addr_mode: AddrMode::ABY, cycles: 4 },
        0x5D => INSTRUCTION { opcode: Mnemonic::EOR, addr_mode: AddrMode::ABX, cycles: 4 },
        0x5E => INSTRUCTION { opcode: Mnemonic::LSR, addr_mode: AddrMode::ABX, cycles: 7 },
        0x60 => INSTRUCTION { opcode: Mnemonic::RTS, addr_mode: AddrMode::IMP, cycles: 6 },
        0x61 => INSTRUCTION { opcode: Mnemonic::ADC, addr_mode: AddrMode::IZX, cycles: 6 },
        0x65 => INSTRUCTION { opcode: Mnemonic::ADC, addr_mode: AddrMode::ZP0, cycles: 3 },
        0x66 => INSTRUCTION { opcode: Mnemonic::ROR, addr_mode: AddrMode::ZP0, cycles: 5 },
        0x68 => INSTRUCTION { opcode: Mnemonic::PLA, addr_mode: AddrMode::IMP, cycles: 4 },
        0x69 => INSTRUCTION { opcode: Mnemonic::ADC, addr_mode: AddrMode::IMM, cycles: 2 },
        0x6A => INSTRUCTION { opcode: Mnemonic::ROR, addr_mode: AddrMode::IMP, cycles: 2 },
        0x6C => INSTRUCTION { opcode: Mnemonic::JMP, addr_mode: AddrMode::IND, cycles: 5 },
        0x6D => INSTRUCTION { opcode: Mnemonic::ADC, addr_mode: AddrMode::ABS, cycles: 4 },
        0x6E => INSTRUCTION { opcode: Mnemonic::ROR, addr_mode: AddrMode::ABS, cycles: 6 },
        0x70 => INSTRUCTION { opcode: Mnemonic::BVS, addr_mode: AddrMode::REL, cycles: 2 },
        0x71 => INSTRUCTION { opcode: Mnemonic::ADC, addr_mode: AddrMode::IZY, cycles: 5 },
        0x75 => INSTRUCTION { opcode: Mnemonic::ADC, addr_mode: AddrMode::ZPX, cycles: 4 },
        0x76 => INSTRUCTION { opcode: Mnemonic::ROR, addr_mode: AddrMode::ZPX, cycles: 6 },
        0x78 => INSTRUCTION { opcode: Mnemonic::SEI, addr_mode: AddrMode::IMP, cycles: 2 },
        0x79 => INSTRUCTION { opcode: Mnemonic::ADC, addr_mode: AddrMode::ABY, cycles: 4 },
        0x7D => INSTRUCTION { opcode: Mnemonic::ADC, addr_mode: AddrMode::ABX, cycles: 4 },
        0x7E => INSTRUCTION { opcode: Mnemonic::ROR, addr_mode: AddrMode::ABX, cycles: 7 },
        0x81 => INSTRUCTION { opcode: Mnemonic::STA, addr_mode: AddrMode::IZX, cycles: 6 },
        0x84 => INSTRUCTION { opcode: Mnemonic::STY, addr_mode: AddrMode::ZP0, cycles: 3 },
        0x85 => INSTRUCTION { opcode: Mnemonic::STA, addr_mode: AddrMode::ZP0, cycles: 3 },
        0x86 => INSTRUCTION { opcode: Mnemonic::STX, addr_mode: AddrMode::ZP0, cycles: 3 },
        0x88 => INSTRUCTION { opcode: Mnemonic::DEY, addr_mode: AddrMode::IMP, cycles: 2 },
        0x8A => INSTRUCTION { opcode: Mnemonic::TXA, addr_mode: AddrMode::IMP, cycles: 2 },
        0x8C => INSTRUCTION { opcode: Mnemonic::STY, addr_mode: AddrMode::ABS, cycles: 4 },
        0x8D => INSTRUCTION { opcode: Mnemonic::STA, addr_mode: AddrMode::ABS, cycles: 4 },
        0x8E => INSTRUCTION { opcode: Mnemonic::STX, addr_mode: AddrMode::ABS, cycles: 4 },
        0x90 => INSTRUCTION { opcode: Mnemonic::BCC, addr_mode: AddrMode::REL, cycles: 2 },
        0x91 => INSTRUCTION { opcode: Mnemonic::STA, addr_mode: AddrMode::IZY, cycles: 6 },
        0x94 => INSTRUCTION { opcode: Mnemonic::STY, addr_mode: AddrMode::ZPX, cycles: 4 },
        0x95 => INSTRUCTION { opcode: Mnemonic::STA, addr_mode: AddrMode::ZPX, cycles: 4 },
        0x96 => INSTRUCTION { opcode: Mnemonic::STX, addr_mode: AddrMode::ZPY, cycles: 4 },
        0x98 => INSTRUCTION { opcode: Mnemonic::TYA, addr_mode: AddrMode::IMP, cycles: 2 },
        0x99 => INSTRUCTION { opcode: Mnemonic::STA, addr_mode: AddrMode::ABY, cycles: 5 },
        0x9A => INSTRUCTION { opcode: Mnemonic::TXS, addr_mode: AddrMode::IMP, cycles: 2 },
        0x9D => INSTRUCTION { opcode: Mnemonic::STA, addr_mode: AddrMode::ABX, cycles: 5 },
        0xA0 => INSTRUCTION { opcode: Mnemonic::LDY, addr_mode: AddrMode::IMM, cycles: 2 },
        0xA1 => INSTRUCTION { opcode: Mnemonic::LDA, addr_mode: AddrMode::IZX, cycles: 6 },
        0xA2 => INSTRUCTION { opcode: Mnemonic::LDX, addr_mode: AddrMode::IMM, cycles: 2 },
        0xA4 => INSTRUCTION { opcode: Mnemonic::LDY, addr_mode: AddrMode::ZP0, cycles: 3 },
        0xA5 => INSTRUCTION { opcode: Mnemonic::LDA, addr_mode: AddrMode::ZP0, cycles: 3 },
        0xA6 => INSTRUCTION { opcode: Mnemonic::LDX, addr_mode: AddrMode::ZP0, cycles: 3 },
        0xA8 => INSTRUCTION { opcode: Mnemonic::TAY, addr_mode: AddrMode::IMP, cycles: 2 },
        0xA9 => INSTRUCTION { opcode: Mnemonic::LDA, addr_mode: AddrMode::IMM, cycles: 2 },
        0xAA => INSTRUCTION { opcode: Mnemonic::TAX, addr_mode: AddrMode::IMP, cycles: 2 },
        0xAC => INSTRUCTION { opcode: Mnemonic::LDY, addr_mode: AddrMode::ABS, cycles: 4 },
        0xAD => INSTRUCTION { opcode: Mnemonic::LDA, addr_mode: AddrMode::ABS, cycles: 4 },
        0xAE => INSTRUCTION { opcode: Mnemonic::LDX, addr_mode: AddrMode::ABS, cycles: 4 },
        0xB0 => INSTRUCTION { opcode: Mnemonic::BCS, addr_mode: AddrMode::REL, cycles: 2 },
        0xB1 => INSTRUCTION { opcode: Mnemonic::LDA, addr_mode: AddrMode::IZY, cycles: 5 },
        0xB4 => INSTRUCTION { opcode: Mnemonic::LDY, addr_mode: AddrMode::ZPX, cycles: 4 },
        0xB5 => INSTRUCTION { opcode: Mnemonic::LDA, addr_mode: AddrMode::ZPX, cycles: 4 },
        0xB6 => INSTRUCTION { opcode: Mnemonic::LDX, addr_mode: AddrMode::ZPY, cycles: 4 },
        0xB8 => INSTRUCTION { opcode: Mnemonic::CLV, addr_mode: AddrMode::IMP, cycles: 2 },
        0xB9 => INSTRUCTION { opcode: Mnemonic::LDA, addr_mode: AddrMode::ABY, cycles: 4 },
        0xBA => INSTRUCTION { opcode: Mnemonic::TSX, addr_mode: AddrMode::IMP, cycles: 2 },
        0xBC => INSTRUCTION { opcode: Mnemonic::LDY, addr_mode: AddrMode::ABX, cycles: 4 },
        0xBD => INSTRUCTION { opcode: Mnemonic::LDA, addr_mode: AddrMode::ABX, cycles: 4 },
        0xBE => INSTRUCTION { opcode: Mnemonic::LDX, addr_mode: AddrMode::ABY, cycles: 4 },
        0xC0 => INSTRUCTION { opcode: Mnemonic::CPY, addr_mode: AddrMode::IMM, cycles: 2 },
        0xC1 => INSTRUCTION { opcode: Mnemonic::CMP, addr_mode: AddrMode::IZX, cycles: 6 },
        0xC4 => INSTRUCTION { opcode: Mnemonic::CPY, addr_mode: AddrMode::ZP0, cycles: 3 },
        0xC5 => INSTRUCTION { opcode: Mnemonic::CMP, addr_mode: AddrMode::ZP0, cycles: 3 },
        0xC6 => INSTRUCTION { opcode: Mnemonic::DEC, addr_mode: AddrMode::ZP0, cycles: 5 },
        0xC8 => INSTRUCTION { opcode: Mnemonic::INY, addr_mode: AddrMode::IMP, cycles: 2 },
        0xC9 => INSTRUCTION { opcode: Mnemonic::CMP, addr_mode: AddrMode::IMM, cycles: 2 },
        0xCA => INSTRUCTION { opcode: Mnemonic::DEX, addr_mode: AddrMode::IMP, cycles: 2 },
        0xCC => INSTRUCTION { opcode: Mnemonic::CPY, addr_mode: AddrMode::ABS, cycles: 4 },
        0xCD => INSTRUCTION { opcode: Mnemonic::CMP, addr_mode: AddrMode::ABS, cycles: 4 },
        0xCE => INSTRUCTION { opcode: Mnemonic::DEC, addr_mode: AddrMode::ABS, cycles: 6 },
        0xD0 => INSTRUCTION { opcode: Mnemonic::BNE, addr_mode: AddrMode::REL, cycles: 2 },
        0xD1 => INSTRUCTION { opcode: Mnemonic::CMP, addr_mode: AddrMode::IZY, cycles: 5 },
        0xD5 => INSTRUCTION { opcode: Mnemonic::CMP, addr_mode: AddrMode::ZPX, cycles: 4 },
        0xD6 => INSTRUCTION { opcode: Mnemonic::DEC, addr_mode: AddrMode::ZPX, cycles: 6 },
        0xD8 => INSTRUCTION { opcode: Mnemonic::CLD, addr_mode: AddrMode::IMP, cycles: 2 },
        0xD9 => INSTRUCTION { opcode: Mnemonic::CMP, addr_mode: AddrMode::ABY, cycles: 4 },
        0xDD => INSTRUCTION { opcode: Mnemonic::CMP, addr_mode: AddrMode::ABX, cycles: 4 },
        0xDE => INSTRUCTION { opcode: Mnemonic::DEC, addr_mode: AddrMode::ABX, cycles: 7 },
        0xE0 => INSTRUCTION { opcode: Mnemonic::CPX, addr_mode: AddrMode::IMM, cycles: 2 },
        0xE1 => INSTRUCTION { opcode: Mnemonic::SBC, addr_mode: AddrMode::IZX, cycles: 6 },
        0xE4 => INSTRUCTION { opcode: Mnemonic::CPX, addr_mode: AddrMode::ZP0, cycles: 3 },
        0xE5 => INSTRUCTION { opcode: Mnemonic::SBC, addr_mode: AddrMode::ZP0, cycles: 3 },
        0xE6 => INSTRUCTION { opcode: Mnemonic::INC, addr_mode: AddrMode::ZP0, cycles: 5 },
        0xE8 => INSTRUCTION { opcode: Mnemonic::INX, addr_mode: AddrMode::IMP, cycles: 2 },
        0xE9 => INSTRUCTION { opcode: Mnemonic::SBC, addr_mode: AddrMode::IMM, cycles: 2 },
        0xEA => INSTRUCTION { opcode: Mnemonic::NOP, addr_mode: AddrMode::IMP, cycles: 2 },
        0xEC => INSTRUCTION { opcode: Mnemonic::CPX, addr_mode: AddrMode::ABS, cycles: 4 },
        0xED => INSTRUCTION { opcode: Mnemonic::SBC, addr_mode: AddrMode::ABS, cycles: 4 },
        0xEE => INSTRUCTION { opcode: Mnemonic::INC, addr_mode: AddrMode::ABS, cycles: 6 },
        0xF0 => INSTRUCTION { opcode: Mnemonic::BEQ, addr_mode: AddrMode::REL, cycles: 2 },
        0xF1 => INSTRUCTION { opcode: Mnemonic::SBC, addr_mode: AddrMode::IZY, cycles: 5 },
        0xF5 => INSTRUCTION { opcode: Mnemonic::SBC, addr_mode: AddrMode::ZPX, cycles: 4 },
        0xF6 => INSTRUCTION { opcode: Mnemonic::INC, addr_mode: AddrMode::ZPX, cycles: 6 },
        0xF8 => INSTRUCTION { opcode: Mnemonic::SED, addr_mode: AddrMode::IMP, cycles: 2 },
        0xF9 => INSTRUCTION { opcode: Mnemonic::SBC, addr_mode: AddrMode::ABY, cycles: 4 },
        0xFD => INSTRUCTION { opcode: Mnemonic::SBC, addr_mode: AddrMode::ABX, cycles: 4 },
        0xFE => INSTRUCTION { opcode: Mnemonic::INC, addr_mode: AddrMode::ABX, cycles: 7 },
        _ => INSTRUCTION { opcode: Mnemonic::XXX, addr_mode: AddrMode::UNK, cycles: 0 },
    }
}

/// The table entry for one opcode byte.
pub fn instruction_entry(op: u8) -> (r: INSTRUCTION)
    ensures
        r == spec_instruction(op),
{
    match op {
        0x00 => INSTRUCTION { opcode: Mnemonic::BRK, addr_mode: AddrMode::IMM, cycles: 7 },
        0x01 => INSTRUCTION { opcode: Mnemonic::ORA, addr_mode: AddrMode::IZX, cycles: 6 },
        0x05 => INSTRUCTION { opcode: Mnemonic::ORA, addr_mode: AddrMode::ZP0, cycles: 3 },
        0x06 => INSTRUCTION { opcode: Mnemonic::ASL, addr_mode: AddrMode::ZP0, cycles: 5 },
        0x08 => INSTRUCTION { opcode: Mnemonic::PHP, addr_mode: AddrMode::IMP, cycles: 3 },
        0x09 => INSTRUCTION { opcode: Mnemonic::ORA, addr_mode: AddrMode::IMM, cycles: 2 },
        0x0A => INSTRUCTION { opcode: Mnemonic::ASL, addr_mode: AddrMode::IMP, cycles: 2 },
        0x0D => INSTRUCTION { opcode: Mnemonic::ORA, addr_mode: AddrMode::ABS, cycles: 4 },
        0x0E => INSTRUCTION { opcode: Mnemonic::ASL, addr_mode: AddrMode::ABS, cycles: 6 },
        0x10 => INSTRUCTION { opcode: Mnemonic::BPL, addr_mode: AddrMode::REL, cycles: 2 },
        0x11 => INSTRUCTION { opcode: Mnemonic::ORA, addr_mode: AddrMode::IZY, cycles: 5 },
        0x15 => INSTRUCTION { opcode: Mnemonic::ORA, addr_mode: AddrMode::ZPX, cycles: 4 },
        0x16 => INSTRUCTION { opcode: Mnemonic::ASL, addr_mode: AddrMode::ZPX, cycles: 6 },
        0x18 => INSTRUCTION { opcode: Mnemonic::CLC, addr_mode: AddrMode::IMP, cycles: 2 },
        0x19 => INSTRUCTION { opcode: Mnemonic::ORA, addr_mode: AddrMode::ABY, cycles: 4 },
        0x1D => INSTRUCTION { opcode: Mnemonic::ORA, addr_mode: AddrMode::ABX, cycles: 4 },
        0x1E => INSTRUCTION { opcode: Mnemonic::ASL, addr_mode: AddrMode::ABX, cycles: 7 },
        0x20 => INSTRUCTION { opcode: Mnemonic::JSR, addr_mode: AddrMode::ABS, cycles: 6 },
        0x21 => INSTRUCTION { opcode: Mnemonic::AND, addr_mode: AddrMode::IZX, cycles: 6 },
        0x24 => INSTRUCTION { opcode: Mnemonic::BIT, addr_mode: AddrMode::ZP0, cycles: 3 },
        0x25 => INSTRUCTION { opcode: Mnemonic::AND, addr_mode: AddrMode::ZP0, cycles: 3 },
        0x26 => INSTRUCTION { opcode: Mnemonic::ROL, addr_mode: AddrMode::ZP0, cycles: 5 },
        0x28 => INSTRUCTION { opcode: Mnemonic::PLP, addr_mode: AddrMode::IMP, cycles: 4 },
        0x29 => INSTRUCTION { opcode: Mnemonic::AND, addr_mode: AddrMode::IMM, cycles: 2 },
        0x2A => INSTRUCTION { opcode: Mnemonic::ROL, addr_mode: AddrMode::IMP, cycles: 2 },
        0x2C => INSTRUCTION { opcode: Mnemonic::BIT, addr_mode: AddrMode::ABS, cycles: 4 },
        0x2D => INSTRUCTION { opcode: Mnemonic::AND, addr_mode: AddrMode::ABS, cycles: 4 },
        0x2E => INSTRUCTION { opcode: Mnemonic::ROL, addr_mode: AddrMode::ABS, cycles: 6 },
        0x30 => INSTRUCTION { opcode: Mnemonic::BMI, addr_mode: AddrMode::REL, cycles: 2 },
        0x31 => INSTRUCTION { opcode: Mnemonic::AND, addr_mode: AddrMode::IZY, cycles: 5 },
        0x35 => INSTRUCTION { opcode: Mnemonic::AND, addr_mode: AddrMode::ZPX, cycles: 4 },
        0x36 => INSTRUCTION { opcode: Mnemonic::ROL, addr_mode: AddrMode::ZPX, cycles: 6 },
        0x38 => INSTRUCTION { opcode: Mnemonic::SEC, addr_mode: AddrMode::IMP, cycles: 2 },
        0x39 => INSTRUCTION { opcode: Mnemonic::AND, addr_mode: AddrMode::ABY, cycles: 4 },
        0x3D => INSTRUCTION { opcode: Mnemonic::AND, addr_mode: AddrMode::ABX, cycles: 4 },
        0x3E => INSTRUCTION { opcode: Mnemonic::ROL, addr_mode: AddrMode::ABX, cycles: 7 },
        0x40 => INSTRUCTION { opcode: Mnemonic::RTI, addr_mode: AddrMode::IMP, cycles: 6 },
        0x41 => INSTRUCTION { opcode: Mnemonic::EOR, addr_mode: AddrMode::IZX, cycles: 6 },
        0x45 => INSTRUCTION { opcode: Mnemonic::EOR, addr_mode: AddrMode::ZP0, cycles: 3 },
        0x46 => INSTRUCTION { opcode: Mnemonic::LSR, addr_mode: AddrMode::ZP0, cycles: 5 },
        0x48 => INSTRUCTION { opcode: Mnemonic::PHA, addr_mode: AddrMode::IMP, cycles: 3 },
        0x49 => INSTRUCTION { opcode: Mnemonic::EOR, addr_mode: AddrMode::IMM, cycles: 2 },
        0x4A => INSTRUCTION { opcode: Mnemonic::LSR, addr_mode: AddrMode::IMP, cycles: 2 },
        0x4C => INSTRUCTION { opcode: Mnemonic::JMP, addr_mode: AddrMode::ABS, cycles: 3 },
        0x4D => INSTRUCTION { opcode: Mnemonic::EOR, addr_mode: AddrMode::ABS, cycles: 4 },
        0x4E => INSTRUCTION { opcode: Mnemonic::LSR, addr_mode: AddrMode::ABS, cycles: 6 },
        0x50 => INSTRUCTION { opcode: Mnemonic::BVC, addr_mode: AddrMode::REL, cycles: 2 },
        0x51 => INSTRUCTION { opcode: Mnemonic::EOR, addr_mode: AddrMode::IZY, cycles: 5 },
        0x55 => INSTRUCTION { opcode: Mnemonic::EOR, addr_mode: AddrMode::ZPX, cycles: 4 },
        0x56 => INSTRUCTION { opcode: Mnemonic::LSR, addr_mode: AddrMode::ZPX, cycles: 6 },
        0x58 => INSTRUCTION { opcode: Mnemonic::CLI, addr_mode: AddrMode::IMP, cycles: 2 },
        0x59 => INSTRUCTION { opcode: Mnemonic::EOR, addr_mode: AddrMode::ABY, cycles: 4 },
        0x5D => INSTRUCTION { opcode: Mnemonic::EOR, addr_mode: AddrMode::ABX, cycles: 4 },
        0x5E => INSTRUCTION { opcode: Mnemonic::LSR, addr_mode: AddrMode::ABX, cycles: 7 },
        0x60 => INSTRUCTION { opcode: Mnemonic::RTS, addr_mode: AddrMode::IMP, cycles: 6 },
        0x61 => INSTRUCTION { opcode: Mnemonic::ADC, addr_mode: AddrMode::IZX, cycles: 6 },
        0x65 => INSTRUCTION { opcode: Mnemonic::ADC, addr_mode: AddrMode::ZP0, cycles: 3 },
        0x66 => INSTRUCTION { opcode: Mnemonic::ROR, addr_mode: AddrMode::ZP0, cycles: 5 },
        0x68 => INSTRUCTION { opcode: Mnemonic::PLA, addr_mode: AddrMode::IMP, cycles: 4 },
        0x69 => INSTRUCTION { opcode: Mnemonic::ADC, addr_mode: AddrMode::IMM, cycles: 2 },
        0x6A => INSTRUCTION { opcode: Mnemonic::ROR, addr_mode: AddrMode::IMP, cycles: 2 },
        0x6C => INSTRUCTION { opcode: Mnemonic::JMP, addr_mode: AddrMode::IND, cycles: 5 },
        0x6D => INSTRUCTION { opcode: Mnemonic::ADC, addr_mode: AddrMode::ABS, cycles: 4 },
        0x6E => INSTRUCTION { opcode: Mnemonic::ROR, addr_mode: AddrMode::ABS, cycles: 6 },
        0x70 => INSTRUCTION { opcode: Mnemonic::BVS, addr_mode: AddrMode::REL, cycles: 2 },
        0x71 => INSTRUCTION { opcode: Mnemonic::ADC, addr_mode: AddrMode::IZY, cycles: 5 },
        0x75 => INSTRUCTION { opcode: Mnemonic::ADC, addr_mode: AddrMode::ZPX, cycles: 4 },
        0x76 => INSTRUCTION { opcode: Mnemonic::ROR, addr_mode: AddrMode::ZPX, cycles: 6 },
        0x78 => INSTRUCTION { opcode: Mnemonic::SEI, addr_mode: AddrMode::IMP, cycles: 2 },
        0x79 => INSTRUCTION { opcode: Mnemonic::ADC, addr_mode: AddrMode::ABY, cycles: 4 },
        0x7D => INSTRUCTION { opcode: Mnemonic::ADC, addr_mode: AddrMode::ABX, cycles: 4 },
        0x7E => INSTRUCTION { opcode: Mnemonic::ROR, addr_mode: AddrMode::ABX, cycles: 7 },
        0x81 => INSTRUCTION { opcode: Mnemonic::STA, addr_mode: AddrMode::IZX, cycles: 6 },
        0x84 => INSTRUCTION { opcode: Mnemonic::STY, addr_mode: AddrMode::ZP0, cycles: 3 },
        0x85 => INSTRUCTION { opcode: Mnemonic::STA, addr_mode: AddrMode::ZP0, cycles: 3 },
        0x86 => INSTRUCTION { opcode: Mnemonic::STX, addr_mode: AddrMode::ZP0, cycles: 3 },
        0x88 => INSTRUCTION { opcode: Mnemonic::DEY, addr_mode: AddrMode::IMP, cycles: 2 },
        0x8A => INSTRUCTION { opcode: Mnemonic::TXA, addr_mode: AddrMode::IMP, cycles: 2 },
        0x8C => INSTRUCTION { opcode: Mnemonic::STY, addr_mode: AddrMode::ABS, cycles: 4 },
        0x8D => INSTRUCTION { opcode: Mnemonic::STA, addr_mode: AddrMode::ABS, cycles: 4 },
        0x8E => INSTRUCTION { opcode: Mnemonic::STX, addr_mode: AddrMode::ABS, cycles: 4 },
        0x90 => INSTRUCTION { opcode: Mnemonic::BCC, addr_mode: AddrMode::REL, cycles: 2 },
        0x91 => INSTRUCTION { opcode: Mnemonic::STA, addr_mode: AddrMode::IZY, cycles: 6 },
        0x94 => INSTRUCTION { opcode: Mnemonic::STY, addr_mode: AddrMode::ZPX, cycles: 4 },
        0x95 => INSTRUCTION { opcode: Mnemonic::STA, addr_mode: AddrMode::ZPX, cycles: 4 },
        0x96 => INSTRUCTION { opcode: Mnemonic::STX, addr_mode: AddrMode::ZPY, cycles: 4 },
        0x98 => INSTRUCTION { opcode: Mnemonic::TYA, addr_mode: AddrMode::IMP, cycles: 2 },
        0x99 => INSTRUCTION { opcode: Mnemonic::STA, addr_mode: AddrMode::ABY, cycles: 5 },
        0x9A => INSTRUCTION { opcode: Mnemonic::TXS, addr_mode: AddrMode::IMP, cycles: 2 },
        0x9D => INSTRUCTION { opcode: Mnemonic::STA, addr_mode: AddrMode::ABX, cycles: 5 },
        0xA0 => INSTRUCTION { opcode: Mnemonic::LDY, addr_mode: AddrMode::IMM, cycles: 2 },
        0xA1 => INSTRUCTION { opcode: Mnemonic::LDA, addr_mode: AddrMode::IZX, cycles: 6 },
        0xA2 => INSTRUCTION { opcode: Mnemonic::LDX, addr_mode: AddrMode::IMM, cycles: 2 },
        0xA4 => INSTRUCTION { opcode: Mnemonic::LDY, addr_mode: AddrMode::ZP0, cycles: 3 },
        0xA5 => INSTRUCTION { opcode: Mnemonic::LDA, addr_mode: AddrMode::ZP0, cycles: 3 },
        0xA6 => INSTRUCTION { opcode: Mnemonic::LDX, addr_mode: AddrMode::ZP0, cycles: 3 },
        0xA8 => INSTRUCTION { opcode: Mnemonic::TAY, addr_mode: AddrMode::IMP, cycles: 2 },
        0xA9 => INSTRUCTION { opcode: Mnemonic::LDA, addr_mode: AddrMode::IMM, cycles: 2 },
        0xAA => INSTRUCTION { opcode: Mnemonic::TAX, addr_mode: AddrMode::IMP, cycles: 2 },
        0xAC => INSTRUCTION { opcode: Mnemonic::LDY, addr_mode: AddrMode::ABS, cycles: 4 },
        0xAD => INSTRUCTION { opcode: Mnemonic::LDA, addr_mode: AddrMode::ABS, cycles: 4 },
        0xAE => INSTRUCTION { opcode: Mnemonic::LDX, addr_mode: AddrMode::ABS, cycles: 4 },
        0xB0 => INSTRUCTION { opcode: Mnemonic::BCS, addr_mode: AddrMode::REL, cycles: 2 },
        0xB1 => INSTRUCTION { opcode: Mnemonic::LDA, addr_mode: AddrMode::IZY, cycles: 5 },
        0xB4 => INSTRUCTION { opcode: Mnemonic::LDY, addr_mode: AddrMode::ZPX, cycles: 4 },
        0xB5 => INSTRUCTION { opcode: Mnemonic::LDA, addr_mode: AddrMode::ZPX, cycles: 4 },
        0xB6 => INSTRUCTION { opcode: Mnemonic::LDX, addr_mode: AddrMode::ZPY, cycles: 4 },
        0xB8 => INSTRUCTION { opcode: Mnemonic::CLV, addr_mode: AddrMode::IMP, cycles: 2 },
        0xB9 => INSTRUCTION { opcode: Mnemonic::LDA, addr_mode: AddrMode::ABY, cycles: 4 },
        0xBA => INSTRUCTION { opcode: Mnemonic::TSX, addr_mode: AddrMode::IMP, cycles: 2 },
        0xBC => INSTRUCTION { opcode: Mnemonic::LDY, addr_mode: AddrMode::ABX, cycles: 4 },
        0xBD => INSTRUCTION { opcode: Mnemonic::LDA, addr_mode: AddrMode::ABX, cycles: 4 },
        0xBE => INSTRUCTION { opcode: Mnemonic::LDX, addr_mode: AddrMode::ABY, cycles: 4 },
        0xC0 => INSTRUCTION { opcode: Mnemonic::CPY, addr_mode: AddrMode::IMM, cycles: 2 },
        0xC1 => INSTRUCTION { opcode: Mnemonic::CMP, addr_mode: AddrMode::IZX, cycles: 6 },
        0xC4 => INSTRUCTION { opcode: Mnemonic::CPY, addr_mode: AddrMode::ZP0, cycles: 3 },
        0xC5 => INSTRUCTION { opcode: Mnemonic::CMP, addr_mode: AddrMode::ZP0, cycles: 3 },
        0xC6 => INSTRUCTION { opcode: Mnemonic::DEC, addr_mode: AddrMode::ZP0, cycles: 5 },
        0xC8 => INSTRUCTION { opcode: Mnemonic::INY, addr_mode: AddrMode::IMP, cycles: 2 },
        0xC9 => INSTRUCTION { opcode: Mnemonic::CMP, addr_mode: AddrMode::IMM, cycles: 2 },
        0xCA => INSTRUCTION { opcode: Mnemonic::DEX, addr_mode: AddrMode::IMP, cycles: 2 },
        0xCC => INSTRUCTION { opcode: Mnemonic::CPY, addr_mode: AddrMode::ABS, cycles: 4 },
        0xCD => INSTRUCTION { opcode: Mnemonic::CMP, addr_mode: AddrMode::ABS, cycles: 4 },
        0xCE => INSTRUCTION { opcode: Mnemonic::DEC, addr_mode: AddrMode::ABS, cycles: 6 },
        0xD0 => INSTRUCTION { opcode: Mnemonic::BNE, addr_mode: AddrMode::REL, cycles: 2 },
        0xD1 => INSTRUCTION { opcode: Mnemonic::CMP, addr_mode: AddrMode::IZY, cycles: 5 },
        0xD5 => INSTRUCTION { opcode: Mnemonic::CMP, addr_mode: AddrMode::ZPX, cycles: 4 },
        0xD6 => INSTRUCTION { opcode: Mnemonic::DEC, addr_mode: AddrMode::ZPX, cycles: 6 },
        0xD8 => INSTRUCTION { opcode: Mnemonic::CLD, addr_mode: AddrMode::IMP, cycles: 2 },
        0xD9 => INSTRUCTION { opcode: Mnemonic::CMP, addr_mode: AddrMode::ABY, cycles: 4 },
        0xDD => INSTRUCTION { opcode: Mnemonic::CMP, addr_mode: AddrMode::ABX, cycles: 4 },
        0xDE => INSTRUCTION { opcode: Mnemonic::DEC, addr_mode: AddrMode::ABX, cycles: 7 },
        0xE0 => INSTRUCTION { opcode: Mnemonic::CPX, addr_mode: AddrMode::IMM, cycles: 2 },
        0xE1 => INSTRUCTION { opcode: Mnemonic::SBC, addr_mode: AddrMode::IZX, cycles: 6 },
        0xE4 => INSTRUCTION { opcode: Mnemonic::CPX, addr_mode: AddrMode::ZP0, cycles: 3 },
        0xE5 => INSTRUCTION { opcode: Mnemonic::SBC, addr_mode: AddrMode::ZP0, cycles: 3 },
        0xE6 => INSTRUCTION { opcode: Mnemonic::INC, addr_mode: AddrMode::ZP0, cycles: 5 },
        0xE8 => INSTRUCTION { opcode: Mnemonic::INX, addr_mode: AddrMode::IMP, cycles: 2 },
        0xE9 => INSTRUCTION { opcode: Mnemonic::SBC, addr_mode: AddrMode::IMM, cycles: 2 },
        0xEA => INSTRUCTION { opcode: Mnemonic::NOP, addr_mode: AddrMode::IMP, cycles: 2 },
        0xEC => INSTRUCTION { opcode: Mnemonic::CPX, addr_mode: AddrMode::ABS, cycles: 4 },
        0xED => INSTRUCTION { opcode: Mnemonic::SBC, addr_mode: AddrMode::ABS, cycles: 4 },
        0xEE => INSTRUCTION { opcode: Mnemonic::INC, addr_mode: AddrMode::ABS, cycles: 6 },
        0xF0 => INSTRUCTION { opcode: Mnemonic::BEQ, addr_mode: AddrMode::REL, cycles: 2 },
        0xF1 => INSTRUCTION { opcode: Mnemonic::SBC, addr_mode: AddrMode::IZY, cycles: 5 },
        0xF5 => INSTRUCTION { opcode: Mnemonic::SBC, addr_mode: AddrMode::ZPX, cycles: 4 },
        0xF6 => INSTRUCTION { opcode: Mnemonic::INC, addr_mode: AddrMode::ZPX, cycles: 6 },
        0xF8 => INSTRUCTION { opcode: Mnemonic::SED, addr_mode: AddrMode::IMP, cycles: 2 },
        0xF9 => INSTRUCTION { opcode: Mnemonic::SBC, addr_mode: AddrMode::ABY, cycles: 4 },
        0xFD => INSTRUCTION { opcode: Mnemonic::SBC, addr_mode: AddrMode::ABX, cycles: 4 },
        0xFE => INSTRUCTION { opcode: Mnemonic::INC, addr_mode: AddrMode::ABX, cycles: 7 },
        _ => INSTRUCTION { opcode: Mnemonic::XXX, addr_mode: AddrMode::UNK, cycles: 0 },
    }
}

/// Builds the full 256-entry lookup table, indexed by the opcode byte.
pub fn get_lookup_list() -> (r: Vec<INSTRUCTION>)
    ensures
        r@.len() == 256,
        forall|i: int| 0 <= i < 256 ==> r@[i] == spec_instruction(i as u8),
{
    let mut v: Vec<INSTRUCTION> = Vec::new();
    let mut i: usize = 0;
    while i < 256
        invariant
            i <= 256,
            v@.len() == i,
            forall|j: int| 0 <= j < i ==> v@[j] == spec_instruction(j as u8),
        decreases 256 - i,
    {
        v.push(instruction_entry(i as u8));
        i = i + 1;
    }
    v
}

} // verus!
