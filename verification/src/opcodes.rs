//! The instruction set: which operation and which addressing mode each
//! opcode byte stands for, and how many cycles it takes at least.

use vstd::prelude::*;
use crate::memory::AddressingMode;

verus! {

/// The operations of the processor, by their mnemonics.
#[derive(Clone, Copy, Debug, PartialEq, Eq, Structural)]
pub enum Instruction {
    ADC,
    AND,
    ASL,
    BCC,
    BCS,
    BEQ,
    BIT,
    BMI,
    BNE,
    BPL,
    BRK,
    BVC,
    BVS,
    CLC,
    CLD,
    CLI,
    CLV,
    CMP,
    CPX,
    CPY,
    DEC,
    DEX,
    DEY,
    EOR,
    INC,
    INX,
    INY,
    JMP,
    JSR,
    LDA,
    LDX,
    LDY,
    LSR,
    NOP,
    ORA,
    PHA,
    PHP,
    PLA,
    PLP,
    ROL,
    ROR,
    RTI,
    RTS,
    SBC,
    SEC,
    SED,
    SEI,
    STA,
    STX,
    STY,
    TAX,
    TAY,
    TSX,
    TXA,
    TXS,
    TYA,
}

/// What an opcode byte decodes to.
#[derive(Clone, Copy, Debug, PartialEq, Eq, Structural)]
pub struct Opcode {
    pub instruction: Instruction,
    pub mode: AddressingMode,
    /// Cycles the instruction takes before any penalty.
    pub cycles: u8,
}

/// An entry of the opcode table.
pub open spec fn entry(instruction: Instruction, mode: AddressingMode, cycles: u8) -> Option<
    Opcode,
> {
    Some(Opcode { instruction, mode, cycles })
}

/// The opcode table: the entry of `opcode`, or `None` for a byte that is no
/// instruction of the documented set.
pub open spec fn decode_spec(opcode: u8) -> Option<Opcode> {
    match opcode {
        0x00 => entry(Instruction::BRK, AddressingMode::Implied, 7),
        0x01 => entry(Instruction::ORA, AddressingMode::IndexedIndirect, 6),
        0x05 => entry(Instruction::ORA, AddressingMode::ZeroPage, 3),
        0x06 => entry(Instruction::ASL, AddressingMode::ZeroPage, 5),
        0x08 => entry(Instruction::PHP, AddressingMode::Implied, 3),
        0x09 => entry(Instruction::ORA, AddressingMode::Immediate, 2),
        0x0A => entry(Instruction::ASL, AddressingMode::Accumulator, 2),
        0x0D => entry(Instruction::ORA, AddressingMode::Absolute, 4),
        0x0E => entry(Instruction::ASL, AddressingMode::Absolute, 6),
        0x10 => entry(Instruction::BPL, AddressingMode::Relative, 2),
        0x11 => entry(Instruction::ORA, AddressingMode::IndirectIndexed, 5),
        0x15 => entry(Instruction::ORA, AddressingMode::ZeroPageX, 4),
        0x16 => entry(Instruction::ASL, AddressingMode::ZeroPageX, 6),
        0x18 => entry(Instruction::CLC, AddressingMode::Implied, 2),
        0x19 => entry(Instruction::ORA, AddressingMode::AbsoluteY, 4),
        0x1D => entry(Instruction::ORA, AddressingMode::AbsoluteX, 4),
        0x1E => entry(Instruction::ASL, AddressingMode::AbsoluteX, 7),
        0x20 => entry(Instruction::JSR, AddressingMode::Absolute, 6),
        0x21 => entry(Instruction::AND, AddressingMode::IndexedIndirect, 6),
        0x24 => entry(Instruction::BIT, AddressingMode::ZeroPage, 3),
        0x25 => entry(Instruction::AND, AddressingMode::ZeroPage, 3),
        0x26 => entry(Instruction::ROL, AddressingMode::ZeroPage, 5),
        0x28 => entry(Instruction::PLP, AddressingMode::Implied, 4),
        0x29 => entry(Instruction::AND, AddressingMode::Immediate, 2),
        0x2A => entry(Instruction::ROL, AddressingMode::Accumulator, 2),
        0x2C => entry(Instruction::BIT, AddressingMode::Absolute, 4),
        0x2D => entry(Instruction::AND, AddressingMode::Absolute, 4),
        0x2E => entry(Instruction::ROL, AddressingMode::Absolute, 6),
        0x30 => entry(Instruction::BMI, AddressingMode::Relative, 2),
        0x31 => entry(Instruction::AND, AddressingMode::IndirectIndexed, 5),
        0x35 => entry(Instruction::AND, AddressingMode::ZeroPageX, 4),
        0x36 => entry(Instruction::ROL, AddressingMode::ZeroPageX, 6),
        0x38 => entry(Instruction::SEC, AddressingMode::Implied, 2),
        0x39 => entry(Instruction::AND, AddressingMode::AbsoluteY, 4),
        0x3D => entry(Instruction::AND, AddressingMode::AbsoluteX, 4),
        0x3E => entry(Instruction::ROL, AddressingMode::AbsoluteX, 7),
        0x40 => entry(Instruction::RTI, AddressingMode::Implied, 6),
        0x41 => entry(Instruction::EOR, AddressingMode::IndexedIndirect, 6),
        0x45 => entry(Instruction::EOR, AddressingMode::ZeroPage, 3),
        0x46 => entry(Instruction::LSR, AddressingMode::ZeroPage, 5),
        0x48 => entry(Instruction::PHA, AddressingMode::Implied, 3),
        0x49 => entry(Instruction::EOR, AddressingMode::Immediate, 2),
        0x4A => entry(Instruction::LSR, AddressingMode::Accumulator, 2),
        0x4C => entry(Instruction::JMP, AddressingMode::Absolute, 3),
        0x4D => entry(Instruction::EOR, AddressingMode::Absolute, 4),
        0x4E => entry(Instruction::LSR, AddressingMode::Absolute, 6),
        0x50 => entry(Instruction::BVC, AddressingMode::Relative, 2),
        0x51 => entry(Instruction::EOR, AddressingMode::IndirectIndexed, 5),
        0x55 => entry(Instruction::EOR, AddressingMode::ZeroPageX, 4),
        0x56 => entry(Instruction::LSR, AddressingMode::ZeroPageX, 6),
        0x58 => entry(Instruction::CLI, AddressingMode::Implied, 2),
        0x59 => entry(Instruction::EOR, AddressingMode::AbsoluteY, 4),
        0x5D => entry(Instruction::EOR, AddressingMode::AbsoluteX, 4),
        0x5E => entry(Instruction::LSR, AddressingMode::AbsoluteX, 7),
        0x60 => entry(Instruction::RTS, AddressingMode::Implied, 6),
        0x61 => entry(Instruction::ADC, AddressingMode::IndexedIndirect, 6),
        0x65 => entry(Instruction::ADC, AddressingMode::ZeroPage, 3),
        0x66 => entry(Instruction::ROR, AddressingMode::ZeroPage, 5),
        0x68 => entry(Instruction::PLA, AddressingMode::Implied, 4),
        0x69 => entry(Instruction::ADC, AddressingMode::Immediate, 2),
        0x6A => entry(Instruction::ROR, AddressingMode::Accumulator, 2),
        0x6C => entry(Instruction::JMP, AddressingMode::Indirect, 5),
        0x6D => entry(Instruction::ADC, AddressingMode::Absolute, 4),
        0x6E => entry(Instruction::ROR, AddressingMode::Absolute, 6),
        0x70 => entry(Instruction::BVS, AddressingMode::Relative, 2),
        0x71 => entry(Instruction::ADC, AddressingMode::IndirectIndexed, 5),
        0x75 => entry(Instruction::ADC, AddressingMode::ZeroPageX, 4),
        0x76 => entry(Instruction::ROR, AddressingMode::ZeroPageX, 6),
        0x78 => entry(Instruction::SEI, AddressingMode::Implied, 2),
        0x79 => entry(Instruction::ADC, AddressingMode::AbsoluteY, 4),
        0x7D => entry(Instruction::ADC, AddressingMode::AbsoluteX, 4),
        0x7E => entry(Instruction::ROR, AddressingMode::AbsoluteX, 7),
        0x81 => entry(Instruction::STA, AddressingMode::IndexedIndirect, 6),
        0x84 => entry(Instruction::STY, AddressingMode::ZeroPage, 3),
        0x85 => entry(Instruction::STA, AddressingMode::ZeroPage, 3),
        0x86 => entry(Instruction::STX, AddressingMode::ZeroPage, 3),
        0x88 => entry(Instruction::DEY, AddressingMode::Implied, 2),
        0x8A => entry(Instruction::TXA, AddressingMode::Implied, 2),
        0x8C => entry(Instruction::STY, AddressingMode::Absolute, 4),
        0x8D => entry(Instruction::STA, AddressingMode::Absolute, 4),
        0x8E => entry(Instruction::STX, AddressingMode::Absolute, 4),
        0x90 => entry(Instruction::BCC, AddressingMode::Relative, 2),
        0x91 => entry(Instruction::STA, AddressingMode::IndirectIndexed, 6),
        0x94 => entry(Instruction::STY, AddressingMode::ZeroPageX, 4),
        0x95 => entry(Instruction::STA, AddressingMode::ZeroPageX, 4),
        0x96 => entry(Instruction::STX, AddressingMode::ZeroPageY, 4),
        0x98 => entry(Instruction::TYA, AddressingMode::Implied, 2),
        0x99 => entry(Instruction::STA, AddressingMode::AbsoluteY, 5),
        0x9A => entry(Instruction::TXS, AddressingMode::Implied, 2),
        0x9D => entry(Instruction::STA, AddressingMode::AbsoluteX, 5),
        0xA0 => entry(Instruction::LDY, AddressingMode::Immediate, 2),
        0xA1 => entry(Instruction::LDA, AddressingMode::IndexedIndirect, 6),
        0xA2 => entry(Instruction::LDX, AddressingMode::Immediate, 2),
        0xA4 => entry(Instruction::LDY, AddressingMode::ZeroPage, 3),
        0xA5 => entry(Instruction::LDA, AddressingMode::ZeroPage, 3),
        0xA6 => entry(Instruction::LDX, AddressingMode::ZeroPage, 3),
        0xA8 => entry(Instruction::TAY, AddressingMode::Implied, 2),
        0xA9 => entry(Instruction::LDA, AddressingMode::Immediate, 2),
        0xAA => entry(Instruction::TAX, AddressingMode::Implied, 2),
        0xAC => entry(Instruction::LDY, AddressingMode::Absolute, 4),
        0xAD => entry(Instruction::LDA, AddressingMode::Absolute, 4),
        0xAE => entry(Instruction::LDX, AddressingMode::Absolute, 4),
        0xB0 => entry(Instruction::BCS, AddressingMode::Relative, 2),
        0xB1 => entry(Instruction::LDA, AddressingMode::IndirectIndexed, 5),
        0xB4 => entry(Instruction::LDY, AddressingMode::ZeroPageX, 4),
        0xB5 => entry(Instruction::LDA, AddressingMode::ZeroPageX, 4),
        0xB6 => entry(Instruction::LDX, AddressingMode::ZeroPageY, 4),
        0xB8 => entry(Instruction::CLV, AddressingMode::Implied, 2),
        0xB9 => entry(Instruction::LDA, AddressingMode::AbsoluteY, 4),
        0xBA => entry(Instruction::TSX, AddressingMode::Implied, 2),
        0xBC => entry(Instruction::LDY, AddressingMode::AbsoluteX, 4),
        0xBD => entry(Instruction::LDA, AddressingMode::AbsoluteX, 4),
        0xBE => entry(Instruction::LDX, AddressingMode::AbsoluteY, 4),
        0xC0 => entry(Instruction::CPY, AddressingMode::Immediate, 2),
        0xC1 => entry(Instruction::CMP, AddressingMode::IndexedIndirect, 6),
        0xC4 => entry(Instruction::CPY, AddressingMode::ZeroPage, 3),
        0xC5 => entry(Instruction::CMP, AddressingMode::ZeroPage, 3),
        0xC6 => entry(Instruction::DEC, AddressingMode::ZeroPage, 5),
        0xC8 => entry(Instruction::INY, AddressingMode::Implied, 2),
        0xC9 => entry(Instruction::CMP, AddressingMode::Immediate, 2),
        0xCA => entry(Instruction::DEX, AddressingMode::Implied, 2),
        0xCC => entry(Instruction::CPY, AddressingMode::Absolute, 4),
        0xCD => entry(Instruction::CMP, AddressingMode::Absolute, 4),
        0xCE => entry(Instruction::DEC, AddressingMode::Absolute, 6),
        0xD0 => entry(Instruction::BNE, AddressingMode::Relative, 2),
        0xD1 => entry(Instruction::CMP, AddressingMode::IndirectIndexed, 5),
        0xD5 => entry(Instruction::CMP, AddressingMode::ZeroPageX, 4),
        0xD6 => entry(Instruction::DEC, AddressingMode::ZeroPageX, 6),
        0xD8 => entry(Instruction::CLD, AddressingMode::Implied, 2),
        0xD9 => entry(Instruction::CMP, AddressingMode::AbsoluteY, 4),
        0xDD => entry(Instruction::CMP, AddressingMode::AbsoluteX, 4),
        0xDE => entry(Instruction::DEC, AddressingMode::AbsoluteX, 7),
        0xE0 => entry(Instruction::CPX, AddressingMode::Immediate, 2),
        0xE1 => entry(Instruction::SBC, AddressingMode::IndexedIndirect, 6),
        0xE4 => entry(Instruction::CPX, AddressingMode::ZeroPage, 3),
        0xE5 => entry(Instruction::SBC, AddressingMode::ZeroPage, 3),
        0xE6 => entry(Instruction::INC, AddressingMode::ZeroPage, 5),
        0xE8 => entry(Instruction::INX, AddressingMode::Implied, 2),
        0xE9 => entry(Instruction::SBC, AddressingMode::Immediate, 2),
        0xEA => entry(Instruction::NOP, AddressingMode::Implied, 2),
        0xEC => entry(Instruction::CPX, AddressingMode::Absolute, 4),
        0xED => entry(Instruction::SBC, AddressingMode::Absolute, 4),
        0xEE => entry(Instruction::INC, AddressingMode::Absolute, 6),
        0xF0 => entry(Instruction::BEQ, AddressingMode::Relative, 2),
        0xF1 => entry(Instruction::SBC, AddressingMode::IndirectIndexed, 5),
        0xF5 => entry(Instruction::SBC, AddressingMode::ZeroPageX, 4),
        0xF6 => entry(Instruction::INC, AddressingMode::ZeroPageX, 6),
        0xF8 => entry(Instruction::SED, AddressingMode::Implied, 2),
        0xF9 => entry(Instruction::SBC, AddressingMode::AbsoluteY, 4),
        0xFD => entry(Instruction::SBC, AddressingMode::AbsoluteX, 4),
        0xFE => entry(Instruction::INC, AddressingMode::AbsoluteX, 7),
        _ => None,
    }
}

/// Bytes that an instruction occupies: the opcode and its operand.
pub open spec fn instruction_length(mode: AddressingMode) -> u16 {
    match mode {
        AddressingMode::Implied | AddressingMode::Accumulator => 1,
        AddressingMode::Immediate
        | AddressingMode::ZeroPage
        | AddressingMode::ZeroPageX
        | AddressingMode::ZeroPageY
        | AddressingMode::IndexedIndirect
        | AddressingMode::IndirectIndexed
        | AddressingMode::Relative => 2,
        AddressingMode::Absolute
        | AddressingMode::AbsoluteX
        | AddressingMode::AbsoluteY
        | AddressingMode::Indirect => 3,
    }
}

/// Whether `instruction` is one of the eight conditional branches.
pub open spec fn is_branch(instruction: Instruction) -> bool {
    match instruction {
        Instruction::BCC
        | Instruction::BCS
        | Instruction::BEQ
        | Instruction::BMI
        | Instruction::BNE
        | Instruction::BPL
        | Instruction::BVC
        | Instruction::BVS => true,
        _ => false,
    }
}

/// Whether `instruction` sets the program counter itself, so that it is not
/// advanced past the instruction afterwards.
pub open spec fn sets_program_counter(instruction: Instruction) -> bool {
    match instruction {
        Instruction::BRK
        | Instruction::JMP
        | Instruction::JSR
        | Instruction::RTI
        | Instruction::RTS => true,
        _ => false,
    }
}

/// Whether `instruction` takes one cycle more when indexing moves its
/// operand address to another page. These are the instructions that only
/// read their operand; stores and read-modify-write instructions have the
/// extra cycle in their base count.
pub open spec fn pays_page_penalty(instruction: Instruction) -> bool {
    match instruction {
        Instruction::ADC
        | Instruction::AND
        | Instruction::CMP
        | Instruction::EOR
        | Instruction::LDA
        | Instruction::LDX
        | Instruction::LDY
        | Instruction::ORA
        | Instruction::SBC => true,
        _ => false,
    }
}

fn known(instruction: Instruction, mode: AddressingMode, cycles: u8) -> (found: Option<Opcode>)
    ensures
        found == entry(instruction, mode, cycles),
{
    Some(Opcode { instruction, mode, cycles })
}

/// Look `opcode` up in the opcode table.
pub fn decode(opcode: u8) -> (found: Option<Opcode>)
    ensures
        found == decode_spec(opcode),
{
    match opcode {
        0x00 => known(Instruction::BRK, AddressingMode::Implied, 7),
        0x01 => known(Instruction::ORA, AddressingMode::IndexedIndirect, 6),
        0x05 => known(Instruction::ORA, AddressingMode::ZeroPage, 3),
        0x06 => known(Instruction::ASL, AddressingMode::ZeroPage, 5),
        0x08 => known(Instruction::PHP, AddressingMode::Implied, 3),
        0x09 => known(Instruction::ORA, AddressingMode::Immediate, 2),
        0x0A => known(Instruction::ASL, AddressingMode::Accumulator, 2),
        0x0D => known(Instruction::ORA, AddressingMode::Absolute, 4),
        0x0E => known(Instruction::ASL, AddressingMode::Absolute, 6),
        0x10 => known(Instruction::BPL, AddressingMode::Relative, 2),
        0x11 => known(Instruction::ORA, AddressingMode::IndirectIndexed, 5),
        0x15 => known(Instruction::ORA, AddressingMode::ZeroPageX, 4),
        0x16 => known(Instruction::ASL, AddressingMode::ZeroPageX, 6),
        0x18 => known(Instruction::CLC, AddressingMode::Implied, 2),
        0x19 => known(Instruction::ORA, AddressingMode::AbsoluteY, 4),
        0x1D => known(Instruction::ORA, AddressingMode::AbsoluteX, 4),
        0x1E => known(Instruction::ASL, AddressingMode::AbsoluteX, 7),
        0x20 => known(Instruction::JSR, AddressingMode::Absolute, 6),
        0x21 => known(Instruction::AND, AddressingMode::IndexedIndirect, 6),
        0x24 => known(Instruction::BIT, AddressingMode::ZeroPage, 3),
        0x25 => known(Instruction::AND, AddressingMode::ZeroPage, 3),
        0x26 => known(Instruction::ROL, AddressingMode::ZeroPage, 5),
        0x28 => known(Instruction::PLP, AddressingMode::Implied, 4),
        0x29 => known(Instruction::AND, AddressingMode::Immediate, 2),
        0x2A => known(Instruction::ROL, AddressingMode::Accumulator, 2),
        0x2C => known(Instruction::BIT, AddressingMode::Absolute, 4),
        0x2D => known(Instruction::AND, AddressingMode::Absolute, 4),
        0x2E => known(Instruction::ROL, AddressingMode::Absolute, 6),
        0x30 => known(Instruction::BMI, AddressingMode::Relative, 2),
        0x31 => known(Instruction::AND, AddressingMode::IndirectIndexed, 5),
        0x35 => known(Instruction::AND, AddressingMode::ZeroPageX, 4),
        0x36 => known(Instruction::ROL, AddressingMode::ZeroPageX, 6),
        0x38 => known(Instruction::SEC, AddressingMode::Implied, 2),
        0x39 => known(Instruction::AND, AddressingMode::AbsoluteY, 4),
        0x3D => known(Instruction::AND, AddressingMode::AbsoluteX, 4),
        0x3E => known(Instruction::ROL, AddressingMode::AbsoluteX, 7),
        0x40 => known(Instruction::RTI, AddressingMode::Implied, 6),
        0x41 => known(Instruction::EOR, AddressingMode::IndexedIndirect, 6),
        0x45 => known(Instruction::EOR, AddressingMode::ZeroPage, 3),
        0x46 => known(Instruction::LSR, AddressingMode::ZeroPage, 5),
        0x48 => known(Instruction::PHA, AddressingMode::Implied, 3),
        0x49 => known(Instruction::EOR, AddressingMode::Immediate, 2),
        0x4A => known(Instruction::LSR, AddressingMode::Accumulator, 2),
        0x4C => known(Instruction::JMP, AddressingMode::Absolute, 3),
        0x4D => known(Instruction::EOR, AddressingMode::Absolute, 4),
        0x4E => known(Instruction::LSR, AddressingMode::Absolute, 6),
        0x50 => known(Instruction::BVC, AddressingMode::Relative, 2),
        0x51 => known(Instruction::EOR, AddressingMode::IndirectIndexed, 5),
        0x55 => known(Instruction::EOR, AddressingMode::ZeroPageX, 4),
        0x56 => known(Instruction::LSR, AddressingMode::ZeroPageX, 6),
        0x58 => known(Instruction::CLI, AddressingMode::Implied, 2),
        0x59 => known(Instruction::EOR, AddressingMode::AbsoluteY, 4),
        0x5D => known(Instruction::EOR, AddressingMode::AbsoluteX, 4),
        0x5E => known(Instruction::LSR, AddressingMode::AbsoluteX, 7),
        0x60 => known(Instruction::RTS, AddressingMode::Implied, 6),
        0x61 => known(Instruction::ADC, AddressingMode::IndexedIndirect, 6),
        0x65 => known(Instruction::ADC, AddressingMode::ZeroPage, 3),
        0x66 => known(Instruction::ROR, AddressingMode::ZeroPage, 5),
        0x68 => known(Instruction::PLA, AddressingMode::Implied, 4),
        0x69 => known(Instruction::ADC, AddressingMode::Immediate, 2),
        0x6A => known(Instruction::ROR, AddressingMode::Accumulator, 2),
        0x6C => known(Instruction::JMP, AddressingMode::Indirect, 5),
        0x6D => known(Instruction::ADC, AddressingMode::Absolute, 4),
        0x6E => known(Instruction::ROR, AddressingMode::Absolute, 6),
        0x70 => known(Instruction::BVS, AddressingMode::Relative, 2),
        0x71 => known(Instruction::ADC, AddressingMode::IndirectIndexed, 5),
        0x75 => known(Instruction::ADC, AddressingMode::ZeroPageX, 4),
        0x76 => known(Instruction::ROR, AddressingMode::ZeroPageX, 6),
        0x78 => known(Instruction::SEI, AddressingMode::Implied, 2),
        0x79 => known(Instruction::ADC, AddressingMode::AbsoluteY, 4),
        0x7D => known(Instruction::ADC, AddressingMode::AbsoluteX, 4),
        0x7E => known(Instruction::ROR, AddressingMode::AbsoluteX, 7),
        0x81 => known(Instruction::STA, AddressingMode::IndexedIndirect, 6),
        0x84 => known(Instruction::STY, AddressingMode::ZeroPage, 3),
        0x85 => known(Instruction::STA, AddressingMode::ZeroPage, 3),
        0x86 => known(Instruction::STX, AddressingMode::ZeroPage, 3),
        0x88 => known(Instruction::DEY, AddressingMode::Implied, 2),
        0x8A => known(Instruction::TXA, AddressingMode::Implied, 2),
        0x8C => known(Instruction::STY, AddressingMode::Absolute, 4),
        0x8D => known(Instruction::STA, AddressingMode::Absolute, 4),
        0x8E => known(Instruction::STX, AddressingMode::Absolute, 4),
        0x90 => known(Instruction::BCC, AddressingMode::Relative, 2),
        0x91 => known(Instruction::STA, AddressingMode::IndirectIndexed, 6),
        0x94 => known(Instruction::STY, AddressingMode::ZeroPageX, 4),
        0x95 => known(Instruction::STA, AddressingMode::ZeroPageX, 4),
        0x96 => known(Instruction::STX, AddressingMode::ZeroPageY, 4),
        0x98 => known(Instruction::TYA, AddressingMode::Implied, 2),
        0x99 => known(Instruction::STA, AddressingMode::AbsoluteY, 5),
        0x9A => known(Instruction::TXS, AddressingMode::Implied, 2),
        0x9D => known(Instruction::STA, AddressingMode::AbsoluteX, 5),
        0xA0 => known(Instruction::LDY, AddressingMode::Immediate, 2),
        0xA1 => known(Instruction::LDA, AddressingMode::IndexedIndirect, 6),
        0xA2 => known(Instruction::LDX, AddressingMode::Immediate, 2),
        0xA4 => known(Instruction::LDY, AddressingMode::ZeroPage, 3),
        0xA5 => known(Instruction::LDA, AddressingMode::ZeroPage, 3),
        0xA6 => known(Instruction::LDX, AddressingMode::ZeroPage, 3),
        0xA8 => known(Instruction::TAY, AddressingMode::Implied, 2),
        0xA9 => known(Instruction::LDA, AddressingMode::Immediate, 2),
        0xAA => known(Instruction::TAX, AddressingMode::Implied, 2),
        0xAC => known(Instruction::LDY, AddressingMode::Absolute, 4),
        0xAD => known(Instruction::LDA, AddressingMode::Absolute, 4),
        0xAE => known(Instruction::LDX, AddressingMode::Absolute, 4),
        0xB0 => known(Instruction::BCS, AddressingMode::Relative, 2),
        0xB1 => known(Instruction::LDA, AddressingMode::IndirectIndexed, 5),
        0xB4 => known(Instruction::LDY, AddressingMode::ZeroPageX, 4),
        0xB5 => known(Instruction::LDA, AddressingMode::ZeroPageX, 4),
        0xB6 => known(Instruction::LDX, AddressingMode::ZeroPageY, 4),
        0xB8 => known(Instruction::CLV, AddressingMode::Implied, 2),
        0xB9 => known(Instruction::LDA, AddressingMode::AbsoluteY, 4),
        0xBA => known(Instruction::TSX, AddressingMode::Implied, 2),
        0xBC => known(Instruction::LDY, AddressingMode::AbsoluteX, 4),
        0xBD => known(Instruction::LDA, AddressingMode::AbsoluteX, 4),
        0xBE => known(Instruction::LDX, AddressingMode::AbsoluteY, 4),
        0xC0 => known(Instruction::CPY, AddressingMode::Immediate, 2),
        0xC1 => known(Instruction::CMP, AddressingMode::IndexedIndirect, 6),
        0xC4 => known(Instruction::CPY, AddressingMode::ZeroPage, 3),
        0xC5 => known(Instruction::CMP, AddressingMode::ZeroPage, 3),
        0xC6 => known(Instruction::DEC, AddressingMode::ZeroPage, 5),
        0xC8 => known(Instruction::INY, AddressingMode::Implied, 2),
        0xC9 => known(Instruction::CMP, AddressingMode::Immediate, 2),
        0xCA => known(Instruction::DEX, AddressingMode::Implied, 2),
        0xCC => known(Instruction::CPY, AddressingMode::Absolute, 4),
        0xCD => known(Instruction::CMP, AddressingMode::Absolute, 4),
        0xCE => known(Instruction::DEC, AddressingMode::Absolute, 6),
        0xD0 => known(Instruction::BNE, AddressingMode::Relative, 2),
        0xD1 => known(Instruction::CMP, AddressingMode::IndirectIndexed, 5),
        0xD5 => known(Instruction::CMP, AddressingMode::ZeroPageX, 4),
        0xD6 => known(Instruction::DEC, AddressingMode::ZeroPageX, 6),
        0xD8 => known(Instruction::CLD, AddressingMode::Implied, 2),
        0xD9 => known(Instruction::CMP, AddressingMode::AbsoluteY, 4),
        0xDD => known(Instruction::CMP, AddressingMode::AbsoluteX, 4),
        0xDE => known(Instruction::DEC, AddressingMode::AbsoluteX, 7),
        0xE0 => known(Instruction::CPX, AddressingMode::Immediate, 2),
        0xE1 => known(Instruction::SBC, AddressingMode::IndexedIndirect, 6),
        0xE4 => known(Instruction::CPX, AddressingMode::ZeroPage, 3),
        0xE5 => known(Instruction::SBC, AddressingMode::ZeroPage, 3),
        0xE6 => known(Instruction::INC, AddressingMode::ZeroPage, 5),
        0xE8 => known(Instruction::INX, AddressingMode::Implied, 2),
        0xE9 => known(Instruction::SBC, AddressingMode::Immediate, 2),
        0xEA => known(Instruction::NOP, AddressingMode::Implied, 2),
        0xEC => known(Instruction::CPX, AddressingMode::Absolute, 4),
        0xED => known(Instruction::SBC, AddressingMode::Absolute, 4),
        0xEE => known(Instruction::INC, AddressingMode::Absolute, 6),
        0xF0 => known(Instruction::BEQ, AddressingMode::Relative, 2),
        0xF1 => known(Instruction::SBC, AddressingMode::IndirectIndexed, 5),
        0xF5 => known(Instruction::SBC, AddressingMode::ZeroPageX, 4),
        0xF6 => known(Instruction::INC, AddressingMode::ZeroPageX, 6),
        0xF8 => known(Instruction::SED, AddressingMode::Implied, 2),
        0xF9 => known(Instruction::SBC, AddressingMode::AbsoluteY, 4),
        0xFD => known(Instruction::SBC, AddressingMode::AbsoluteX, 4),
        0xFE => known(Instruction::INC, AddressingMode::AbsoluteX, 7),
        _ => None,
    }
}

impl Instruction {
    /// Whether the instruction sets the program counter itself.
    pub fn sets_program_counter(self) -> (sets: bool)
        ensures
            sets == sets_program_counter(self),
    {
        match self {
            Instruction::BRK
            | Instruction::JMP
            | Instruction::JSR
            | Instruction::RTI
            | Instruction::RTS => true,
            _ => false,
        }
    }

    /// Whether the instruction takes one cycle more when indexing crosses a
    /// page.
    pub fn pays_page_penalty(self) -> (pays: bool)
        ensures
            pays == pays_page_penalty(self),
    {
        match self {
            Instruction::ADC
            | Instruction::AND
            | Instruction::CMP
            | Instruction::EOR
            | Instruction::LDA
            | Instruction::LDX
            | Instruction::LDY
            | Instruction::ORA
            | Instruction::SBC => true,
            _ => false,
        }
    }
}

/// Bytes that an instruction with this addressing mode occupies.
pub fn length_of(mode: AddressingMode) -> (length: u16)
    ensures
        length == instruction_length(mode),
{
    match mode {
        AddressingMode::Implied | AddressingMode::Accumulator => 1,
        AddressingMode::Immediate
        | AddressingMode::ZeroPage
        | AddressingMode::ZeroPageX
        | AddressingMode::ZeroPageY
        | AddressingMode::IndexedIndirect
        | AddressingMode::IndirectIndexed
        | AddressingMode::Relative => 2,
        AddressingMode::Absolute
        | AddressingMode::AbsoluteX
        | AddressingMode::AbsoluteY
        | AddressingMode::Indirect => 3,
    }
}

/// The opcode byte that stands for `instruction` with addressing `mode`,
/// or `None` where the instruction has no such form.
pub open spec fn opcode_of(instruction: Instruction, mode: AddressingMode) -> Option<u8> {
    match instruction {
        Instruction::ADC => match mode {
            AddressingMode::Immediate => Some(0x69),
            AddressingMode::ZeroPage => Some(0x65),
            AddressingMode::ZeroPageX => Some(0x75),
            AddressingMode::Absolute => Some(0x6D),
            AddressingMode::AbsoluteX => Some(0x7D),
            AddressingMode::AbsoluteY => Some(0x79),
            AddressingMode::IndexedIndirect => Some(0x61),
            AddressingMode::IndirectIndexed => Some(0x71),
            _ => None,
        },
        Instruction::AND => match mode {
            AddressingMode::Immediate => Some(0x29),
            AddressingMode::ZeroPage => Some(0x25),
            AddressingMode::ZeroPageX => Some(0x35),
            AddressingMode::Absolute => Some(0x2D),
            AddressingMode::AbsoluteX => Some(0x3D),
            AddressingMode::AbsoluteY => Some(0x39),
            AddressingMode::IndexedIndirect => Some(0x21),
            AddressingMode::IndirectIndexed => Some(0x31),
            _ => None,
        },
        Instruction::ASL => match mode {
            AddressingMode::Accumulator => Some(0x0A),
            AddressingMode::ZeroPage => Some(0x06),
            AddressingMode::ZeroPageX => Some(0x16),
            AddressingMode::Absolute => Some(0x0E),
            AddressingMode::AbsoluteX => Some(0x1E),
            _ => None,
        },
        Instruction::BCC => match mode {
            AddressingMode::Relative => Some(0x90),
            _ => None,
        },
        Instruction::BCS => match mode {
            AddressingMode::Relative => Some(0xB0),
            _ => None,
        },
        Instruction::BEQ => match mode {
            AddressingMode::Relative => Some(0xF0),
            _ => None,
        },
        Instruction::BIT => match mode {
            AddressingMode::ZeroPage => Some(0x24),
            AddressingMode::Absolute => Some(0x2C),
            _ => None,
        },
        Instruction::BMI => match mode {
            AddressingMode::Relative => Some(0x30),
            _ => None,
        },
        Instruction::BNE => match mode {
            AddressingMode::Relative => Some(0xD0),
            _ => None,
        },
        Instruction::BPL => match mode {
            AddressingMode::Relative => Some(0x10),
            _ => None,
        },
        Instruction::BRK => match mode {
            AddressingMode::Implied => Some(0x00),
            _ => None,
        },
        Instruction::BVC => match mode {
            AddressingMode::Relative => Some(0x50),
            _ => None,
        },
        Instruction::BVS => match mode {
            AddressingMode::Relative => Some(0x70),
            _ => None,
        },
        Instruction::CLC => match mode {
            AddressingMode::Implied => Some(0x18),
            _ => None,
        },
        Instruction::CLD => match mode {
            AddressingMode::Implied => Some(0xD8),
            _ => None,
        },
        Instruction::CLI => match mode {
            AddressingMode::Implied => Some(0x58),
            _ => None,
        },
        Instruction::CLV => match mode {
            AddressingMode::Implied => Some(0xB8),
            _ => None,
        },
        Instruction::CMP => match mode {
            AddressingMode::Immediate => Some(0xC9),
            AddressingMode::ZeroPage => Some(0xC5),
            AddressingMode::ZeroPageX => Some(0xD5),
            AddressingMode::Absolute => Some(0xCD),
            AddressingMode::AbsoluteX => Some(0xDD),
            AddressingMode::AbsoluteY => Some(0xD9),
            AddressingMode::IndexedIndirect => Some(0xC1),
            AddressingMode::IndirectIndexed => Some(0xD1),
            _ => None,
        },
        Instruction::CPX => match mode {
            AddressingMode::Immediate => Some(0xE0),
            AddressingMode::ZeroPage => Some(0xE4),
            AddressingMode::Absolute => Some(0xEC),
            _ => None,
        },
        Instruction::CPY => match mode {
            AddressingMode::Immediate => Some(0xC0),
            AddressingMode::ZeroPage => Some(0xC4),
            AddressingMode::Absolute => Some(0xCC),
            _ => None,
        },
        Instruction::DEC => match mode {
            AddressingMode::ZeroPage => Some(0xC6),
            AddressingMode::ZeroPageX => Some(0xD6),
            AddressingMode::Absolute => Some(0xCE),
            AddressingMode::AbsoluteX => Some(0xDE),
            _ => None,
        },
        Instruction::DEX => match mode {
            AddressingMode::Implied => Some(0xCA),
            _ => None,
        },
        Instruction::DEY => match mode {
            AddressingMode::Implied => Some(0x88),
            _ => None,
        },
        Instruction::EOR => match mode {
            AddressingMode::Immediate => Some(0x49),
            AddressingMode::ZeroPage => Some(0x45),
            AddressingMode::ZeroPageX => Some(0x55),
            AddressingMode::Absolute => Some(0x4D),
            AddressingMode::AbsoluteX => Some(0x5D),
            AddressingMode::AbsoluteY => Some(0x59),
            AddressingMode::IndexedIndirect => Some(0x41),
            AddressingMode::IndirectIndexed => Some(0x51),
            _ => None,
        },
        Instruction::INC => match mode {
            AddressingMode::ZeroPage => Some(0xE6),
            AddressingMode::ZeroPageX => Some(0xF6),
            AddressingMode::Absolute => Some(0xEE),
            AddressingMode::AbsoluteX => Some(0xFE),
            _ => None,
        },
        Instruction::INX => match mode {
            AddressingMode::Implied => Some(0xE8),
            _ => None,
        },
        Instruction::INY => match mode {
            AddressingMode::Implied => Some(0xC8),
            _ => None,
        },
        Instruction::JMP => match mode {
            AddressingMode::Absolute => Some(0x4C),
            AddressingMode::Indirect => Some(0x6C),
            _ => None,
        },
        Instruction::JSR => match mode {
            AddressingMode::Absolute => Some(0x20),
            _ => None,
        },
        Instruction::LDA => match mode {
            AddressingMode::Immediate => Some(0xA9),
            AddressingMode::ZeroPage => Some(0xA5),
            AddressingMode::ZeroPageX => Some(0xB5),
            AddressingMode::Absolute => Some(0xAD),
            AddressingMode::AbsoluteX => Some(0xBD),
            AddressingMode::AbsoluteY => Some(0xB9),
            AddressingMode::IndexedIndirect => Some(0xA1),
            AddressingMode::IndirectIndexed => Some(0xB1),
            _ => None,
        },
        Instruction::LDX => match mode {
            AddressingMode::Immediate => Some(0xA2),
            AddressingMode::ZeroPage => Some(0xA6),
            AddressingMode::ZeroPageY => Some(0xB6),
            AddressingMode::Absolute => Some(0xAE),
            AddressingMode::AbsoluteY => Some(0xBE),
            _ => None,
        },
        Instruction::LDY => match mode {
            AddressingMode::Immediate => Some(0xA0),
            AddressingMode::ZeroPage => Some(0xA4),
            AddressingMode::ZeroPageX => Some(0xB4),
            AddressingMode::Absolute => Some(0xAC),
            AddressingMode::AbsoluteX => Some(0xBC),
            _ => None,
        },
        Instruction::LSR => match mode {
            AddressingMode::Accumulator => Some(0x4A),
            AddressingMode::ZeroPage => Some(0x46),
            AddressingMode::ZeroPageX => Some(0x56),
            AddressingMode::Absolute => Some(0x4E),
            AddressingMode::AbsoluteX => Some(0x5E),
            _ => None,
        },
        Instruction::NOP => match mode {
            AddressingMode::Implied => Some(0xEA),
            _ => None,
        },
        Instruction::ORA => match mode {
            AddressingMode::Immediate => Some(0x09),
            AddressingMode::ZeroPage => Some(0x05),
            AddressingMode::ZeroPageX => Some(0x15),
            AddressingMode::Absolute => Some(0x0D),
            AddressingMode::AbsoluteX => Some(0x1D),
            AddressingMode::AbsoluteY => Some(0x19),
            AddressingMode::IndexedIndirect => Some(0x01),
            AddressingMode::IndirectIndexed => Some(0x11),
            _ => None,
        },
        Instruction::PHA => match mode {
            AddressingMode::Implied => Some(0x48),
            _ => None,
        },
        Instruction::PHP => match mode {
            AddressingMode::Implied => Some(0x08),
            _ => None,
        },
        Instruction::PLA => match mode {
            AddressingMode::Implied => Some(0x68),
            _ => None,
        },
        Instruction::PLP => match mode {
            AddressingMode::Implied => Some(0x28),
            _ => None,
        },
        Instruction::ROL => match mode {
            AddressingMode::Accumulator => Some(0x2A),
            AddressingMode::ZeroPage => Some(0x26),
            AddressingMode::ZeroPageX => Some(0x36),
            AddressingMode::Absolute => Some(0x2E),
            AddressingMode::AbsoluteX => Some(0x3E),
            _ => None,
        },
        Instruction::ROR => match mode {
            AddressingMode::Accumulator => Some(0x6A),
            AddressingMode::ZeroPage => Some(0x66),
            AddressingMode::ZeroPageX => Some(0x76),
            AddressingMode::Absolute => Some(0x6E),
            AddressingMode::AbsoluteX => Some(0x7E),
            _ => None,
        },
        Instruction::RTI => match mode {
            AddressingMode::Implied => Some(0x40),
            _ => None,
        },
        Instruction::RTS => match mode {
            AddressingMode::Implied => Some(0x60),
            _ => None,
        },
        Instruction::SBC => match mode {
            AddressingMode::Immediate => Some(0xE9),
            AddressingMode::ZeroPage => Some(0xE5),
            AddressingMode::ZeroPageX => Some(0xF5),
            AddressingMode::Absolute => Some(0xED),
            AddressingMode::AbsoluteX => Some(0xFD),
            AddressingMode::AbsoluteY => Some(0xF9),
            AddressingMode::IndexedIndirect => Some(0xE1),
            AddressingMode::IndirectIndexed => Some(0xF1),
            _ => None,
        },
        Instruction::SEC => match mode {
            AddressingMode::Implied => Some(0x38),
            _ => None,
        },
        Instruction::SED => match mode {
            AddressingMode::Implied => Some(0xF8),
            _ => None,
        },
        Instruction::SEI => match mode {
            AddressingMode::Implied => Some(0x78),
            _ => None,
        },
        Instruction::STA => match mode {
            AddressingMode::ZeroPage => Some(0x85),
            AddressingMode::ZeroPageX => Some(0x95),
            AddressingMode::Absolute => Some(0x8D),
            AddressingMode::AbsoluteX => Some(0x9D),
            AddressingMode::AbsoluteY => Some(0x99),
            AddressingMode::IndexedIndirect => Some(0x81),
            AddressingMode::IndirectIndexed => Some(0x91),
            _ => None,
        },
        Instruction::STX => match mode {
            AddressingMode::ZeroPage => Some(0x86),
            AddressingMode::ZeroPageY => Some(0x96),
            AddressingMode::Absolute => Some(0x8E),
            _ => None,
        },
        Instruction::STY => match mode {
            AddressingMode::ZeroPage => Some(0x84),
            AddressingMode::ZeroPageX => Some(0x94),
            AddressingMode::Absolute => Some(0x8C),
            _ => None,
        },
        Instruction::TAX => match mode {
            AddressingMode::Implied => Some(0xAA),
            _ => None,
        },
        Instruction::TAY => match mode {
            AddressingMode::Implied => Some(0xA8),
            _ => None,
        },
        Instruction::TSX => match mode {
            AddressingMode::Implied => Some(0xBA),
            _ => None,
        },
        Instruction::TXA => match mode {
            AddressingMode::Implied => Some(0x8A),
            _ => None,
        },
        Instruction::TXS => match mode {
            AddressingMode::Implied => Some(0x9A),
            _ => None,
        },
        Instruction::TYA => match mode {
            AddressingMode::Implied => Some(0x98),
            _ => None,
        },
    }
}

/// The two tables agree: the opcode of an entry's instruction and mode is
/// the byte that decodes to the entry.
pub proof fn theorem_encode_inverts_decode(opcode: u8)
    ensures
        decode_spec(opcode) matches Some(found) ==> opcode_of(found.instruction, found.mode)
            == Some(opcode),
{
    if opcode < 0x80 {
        if opcode < 0x40 {
            if opcode < 0x20 {
            } else {
            }
        } else {
            if opcode < 0x60 {
            } else {
            }
        }
    } else {
        if opcode < 0xC0 {
            if opcode < 0xA0 {
            } else {
            }
        } else {
            if opcode < 0xE0 {
            } else {
            }
        }
    }
}

/// The two tables agree: the byte that stands for an instruction and a
/// mode decodes to that instruction and that mode.
pub proof fn theorem_decode_inverts_encode(instruction: Instruction, mode: AddressingMode)
    ensures
        opcode_of(instruction, mode) matches Some(opcode) ==> (decode_spec(opcode) matches Some(
            found,
        ) && found.instruction == instruction && found.mode == mode),
{
}

/// No two opcode bytes stand for the same operation with the same
/// addressing mode.
pub proof fn theorem_table_has_no_duplicates(first: u8, second: u8)
    requires
        decode_spec(first) is Some,
        decode_spec(second) is Some,
        decode_spec(first)->0.instruction == decode_spec(second)->0.instruction,
        decode_spec(first)->0.mode == decode_spec(second)->0.mode,
    ensures
        first == second,
{
    theorem_encode_inverts_decode(first);
    theorem_encode_inverts_decode(second);
}

/// Every entry of the table takes between two and seven cycles.
pub proof fn theorem_cycle_range(opcode: u8)
    ensures
        decode_spec(opcode) matches Some(found) ==> 2 <= found.cycles <= 7,
{
    if opcode < 0x80 {
        if opcode < 0x40 {
            if opcode < 0x20 {
            } else {
            }
        } else {
            if opcode < 0x60 {
            } else {
            }
        }
    } else {
        if opcode < 0xC0 {
            if opcode < 0xA0 {
            } else {
            }
        } else {
            if opcode < 0xE0 {
            } else {
            }
        }
    }
}

/// The branches are exactly the entries with relative addressing, and each
/// takes two cycles.
pub proof fn theorem_branches_are_relative(opcode: u8)
    ensures
        decode_spec(opcode) matches Some(found) ==> (is_branch(found.instruction) <==> found.mode
            == AddressingMode::Relative),
        decode_spec(opcode) matches Some(found) ==> (is_branch(found.instruction)
            ==> found.cycles == 2),
{
    if opcode < 0x80 {
        if opcode < 0x40 {
            if opcode < 0x20 {
            } else {
            }
        } else {
            if opcode < 0x60 {
            } else {
            }
        }
    } else {
        if opcode < 0xC0 {
            if opcode < 0xA0 {
            } else {
            }
        } else {
            if opcode < 0xE0 {
            } else {
            }
        }
    }
}

/// Only shifts and rotations work on the accumulator as an operand, only
/// `JMP` goes through a pointer, and the instructions that set the program
/// counter take no operand or an address.
pub proof fn theorem_modes_fit_instructions(opcode: u8)
    ensures
        decode_spec(opcode) matches Some(found) ==> (found.mode == AddressingMode::Accumulator
            ==> (found.instruction == Instruction::ASL || found.instruction == Instruction::LSR
            || found.instruction == Instruction::ROL || found.instruction == Instruction::ROR)),
        decode_spec(opcode) matches Some(found) ==> (found.mode == AddressingMode::Indirect
            ==> found.instruction == Instruction::JMP),
        decode_spec(opcode) matches Some(found) ==> (sets_program_counter(found.instruction) ==> (
        found.mode == AddressingMode::Implied || found.mode == AddressingMode::Absolute
            || found.mode == AddressingMode::Indirect)),
{
    if opcode < 0x80 {
        if opcode < 0x40 {
            if opcode < 0x20 {
            } else {
            }
        } else {
            if opcode < 0x60 {
            } else {
            }
        }
    } else {
        if opcode < 0xC0 {
            if opcode < 0xA0 {
            } else {
            }
        } else {
            if opcode < 0xE0 {
            } else {
            }
        }
    }
}

} // verus!
