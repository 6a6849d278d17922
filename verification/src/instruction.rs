//! The instruction set: addressing modes, mnemonics, and the table that
//! maps each opcode byte to its descriptor.

use vstd::prelude::*;

verus! {

/// How the bytes that follow an opcode resolve to an operand.
#[derive(Debug, PartialEq, Clone, Copy, Hash, Eq, PartialOrd, Ord, Structural)]
pub enum AddressingMode {
    /// No operand bytes; the instruction works on registers, or on the
    /// accumulator for shifts and rotates.
    Implied,
    /// One byte, which is the operand itself.
    Immediate,
    /// One byte, the low byte of an address in page zero.
    ZeroPage,
    /// One byte to which X is added, wrapping within page zero.
    ZeroPageX,
    /// One byte to which Y is added, wrapping within page zero.
    ZeroPageY,
    /// Two bytes, a little-endian address.
    Absolute,
    /// Two bytes, a little-endian address to which X is added.
    AbsoluteX,
    /// Two bytes, a little-endian address to which Y is added.
    AbsoluteY,
    /// Two bytes, the address of a pointer.
    Indirect,
    /// One byte to which X is added within page zero, giving the address of a
    /// pointer.
    IndirectX,
    /// One byte, the page-zero address of a pointer to which Y is added.
    IndirectY,
}

impl AddressingMode {
    /// Number of operand bytes that follow the opcode.
    pub open spec fn operand_length(self) -> int {
        match self {
            AddressingMode::Implied => 0,
            AddressingMode::Absolute
            | AddressingMode::AbsoluteX
            | AddressingMode::AbsoluteY
            | AddressingMode::Indirect => 2,
            _ => 1,
        }
    }

    /// Whether the mode resolves to an effective address in memory that an
    /// instruction of this core can read and write.
    pub open spec fn is_memory(self) -> bool {
        self != AddressingMode::Implied && self != AddressingMode::Immediate && self
            != AddressingMode::Indirect
    }

    /// Whether the mode yields an operand value: the immediate byte, or the
    /// byte at the effective address.
    pub open spec fn has_value(self) -> bool {
        self == AddressingMode::Immediate || self.is_memory()
    }
}

/// The mnemonics of the instruction set.
#[allow(clippy::upper_case_acronyms)]
#[derive(Debug, PartialEq, Clone, Copy, Hash, Eq, PartialOrd, Ord, Structural)]
pub enum OpCode {
    LDA,
    SBC,
    INC,
    DEC,
    INX,
    INY,
    DEX,
    DEY,
    AND,
    ORA,
    EOR,
    ASL,
    LSR,
    ROL,
    ROR,
    CLC,
    SEI,
    SED,
    SEC,
    CLV,
    CLI,
    CLD,
    PLP,
    PLA,
    PHP,
    PHA,
    TXS,
    TSX,
    TYA,
    TXA,
    TAY,
    TAX,
    BRK,
    RTS,
    BRA,
    BVS,
    BVC,
    BPL,
    BMI,
    BCC,
    BCS,
    BNE,
    BEQ,
    CMP,
    ADC,
    STA,
    STY,
    STX,
    LDY,
    LDX,
}

/// What the table knows of one opcode byte.
#[derive(Debug, PartialEq, Clone, Copy, Hash, Eq, PartialOrd, Ord, Structural)]
pub struct Instruction {
    /// The mnemonic.
    pub opname: OpCode,
    /// The opcode byte.
    pub opcode: u8,
    /// How the operand bytes are read.
    pub mode: AddressingMode,
    /// Encoded length, opcode byte included.
    pub bytes: u8,
    /// Base cycle count.
    pub cycles: u8,
}

/// A fetched byte that the table has no instruction for, with the address it
/// was fetched from.
#[derive(Debug, PartialEq, Clone, Copy, Eq, Structural)]
pub struct UnknownOpcode {
    /// The byte that was fetched.
    pub opcode: u8,
    /// Where it was fetched from.
    pub address: u16,
}

/// One row of the table.
pub open spec fn row(opname: OpCode, opcode: u8, mode: AddressingMode, bytes: u8, cycles: u8)
    -> Instruction {
    Instruction { opname, opcode, mode, bytes, cycles }
}

/// The instruction table: the descriptor of `opcode`, or `None` where the
/// byte is no instruction of this core.
#[verifier::opaque]
pub open spec fn descriptor(opcode: u8) -> Option<Instruction> {
    match opcode {
        0x00 => Some(row(OpCode::BRK, 0x00, AddressingMode::Implied, 1, 7)),
        0x01 => Some(row(OpCode::ORA, 0x01, AddressingMode::IndirectX, 2, 6)),
        0x05 => Some(row(OpCode::ORA, 0x05, AddressingMode::ZeroPage, 2, 3)),
        0x06 => Some(row(OpCode::ASL, 0x06, AddressingMode::ZeroPage, 2, 5)),
        0x08 => Some(row(OpCode::PHP, 0x08, AddressingMode::Implied, 1, 3)),
        0x09 => Some(row(OpCode::ORA, 0x09, AddressingMode::Immediate, 2, 2)),
        0x0A => Some(row(OpCode::ASL, 0x0A, AddressingMode::Implied, 1, 2)),
        0x0D => Some(row(OpCode::ORA, 0x0D, AddressingMode::Absolute, 3, 4)),
        0x0E => Some(row(OpCode::ASL, 0x0E, AddressingMode::Absolute, 3, 6)),
        0x10 => Some(row(OpCode::BPL, 0x10, AddressingMode::Immediate, 2, 2)),
        0x11 => Some(row(OpCode::ORA, 0x11, AddressingMode::IndirectY, 2, 5)),
        0x15 => Some(row(OpCode::ORA, 0x15, AddressingMode::ZeroPageX, 2, 4)),
        0x16 => Some(row(OpCode::ASL, 0x16, AddressingMode::ZeroPageX, 2, 6)),
        0x18 => Some(row(OpCode::CLC, 0x18, AddressingMode::Implied, 1, 2)),
        0x19 => Some(row(OpCode::ORA, 0x19, AddressingMode::AbsoluteY, 3, 4)),
        0x1D => Some(row(OpCode::ORA, 0x1D, AddressingMode::AbsoluteX, 3, 4)),
        0x1E => Some(row(OpCode::ASL, 0x1E, AddressingMode::AbsoluteX, 3, 7)),
        0x21 => Some(row(OpCode::AND, 0x21, AddressingMode::IndirectX, 2, 6)),
        0x25 => Some(row(OpCode::AND, 0x25, AddressingMode::ZeroPage, 2, 3)),
        0x26 => Some(row(OpCode::ROL, 0x26, AddressingMode::ZeroPage, 2, 5)),
        0x28 => Some(row(OpCode::PLP, 0x28, AddressingMode::Implied, 1, 4)),
        0x29 => Some(row(OpCode::AND, 0x29, AddressingMode::Immediate, 2, 2)),
        0x2A => Some(row(OpCode::ROL, 0x2A, AddressingMode::Implied, 1, 2)),
        0x2D => Some(row(OpCode::AND, 0x2D, AddressingMode::Absolute, 3, 4)),
        0x2E => Some(row(OpCode::ROL, 0x2E, AddressingMode::Absolute, 3, 6)),
        0x30 => Some(row(OpCode::BMI, 0x30, AddressingMode::Immediate, 2, 2)),
        0x31 => Some(row(OpCode::AND, 0x31, AddressingMode::IndirectY, 2, 5)),
        0x35 => Some(row(OpCode::AND, 0x35, AddressingMode::ZeroPageX, 2, 4)),
        0x36 => Some(row(OpCode::ROL, 0x36, AddressingMode::ZeroPageX, 2, 6)),
        0x38 => Some(row(OpCode::SEC, 0x38, AddressingMode::Implied, 1, 2)),
        0x39 => Some(row(OpCode::AND, 0x39, AddressingMode::AbsoluteY, 3, 4)),
        0x3D => Some(row(OpCode::AND, 0x3D, AddressingMode::AbsoluteX, 3, 4)),
        0x3E => Some(row(OpCode::ROL, 0x3E, AddressingMode::AbsoluteX, 3, 7)),
        0x41 => Some(row(OpCode::EOR, 0x41, AddressingMode::IndirectX, 2, 6)),
        0x45 => Some(row(OpCode::EOR, 0x45, AddressingMode::ZeroPage, 2, 3)),
        0x46 => Some(row(OpCode::LSR, 0x46, AddressingMode::ZeroPage, 2, 5)),
        0x48 => Some(row(OpCode::PHA, 0x48, AddressingMode::Implied, 1, 3)),
        0x49 => Some(row(OpCode::EOR, 0x49, AddressingMode::Immediate, 2, 2)),
        0x4A => Some(row(OpCode::LSR, 0x4A, AddressingMode::Implied, 1, 2)),
        0x4D => Some(row(OpCode::EOR, 0x4D, AddressingMode::Absolute, 3, 4)),
        0x4E => Some(row(OpCode::LSR, 0x4E, AddressingMode::Absolute, 3, 6)),
        0x50 => Some(row(OpCode::BVC, 0x50, AddressingMode::Immediate, 2, 2)),
        0x51 => Some(row(OpCode::EOR, 0x51, AddressingMode::IndirectY, 2, 5)),
        0x55 => Some(row(OpCode::EOR, 0x55, AddressingMode::ZeroPageX, 2, 4)),
        0x56 => Some(row(OpCode::LSR, 0x56, AddressingMode::ZeroPageX, 2, 6)),
        0x58 => Some(row(OpCode::CLI, 0x58, AddressingMode::Implied, 1, 2)),
        0x59 => Some(row(OpCode::EOR, 0x59, AddressingMode::AbsoluteY, 3, 4)),
        0x5D => Some(row(OpCode::EOR, 0x5D, AddressingMode::AbsoluteX, 3, 4)),
        0x5E => Some(row(OpCode::LSR, 0x5E, AddressingMode::AbsoluteX, 3, 7)),
        0x60 => Some(row(OpCode::RTS, 0x60, AddressingMode::Implied, 1, 6)),
        0x61 => Some(row(OpCode::ADC, 0x61, AddressingMode::IndirectX, 2, 6)),
        0x65 => Some(row(OpCode::ADC, 0x65, AddressingMode::ZeroPage, 2, 3)),
        0x66 => Some(row(OpCode::ROR, 0x66, AddressingMode::ZeroPage, 2, 5)),
        0x68 => Some(row(OpCode::PLA, 0x68, AddressingMode::Implied, 1, 4)),
        0x69 => Some(row(OpCode::ADC, 0x69, AddressingMode::Immediate, 2, 2)),
        0x6A => Some(row(OpCode::ROR, 0x6A, AddressingMode::Implied, 1, 2)),
        0x6D => Some(row(OpCode::ADC, 0x6D, AddressingMode::Absolute, 3, 4)),
        0x6E => Some(row(OpCode::ROR, 0x6E, AddressingMode::Absolute, 3, 6)),
        0x70 => Some(row(OpCode::BVS, 0x70, AddressingMode::Immediate, 2, 2)),
        0x71 => Some(row(OpCode::ADC, 0x71, AddressingMode::IndirectY, 2, 5)),
        0x75 => Some(row(OpCode::ADC, 0x75, AddressingMode::ZeroPageX, 2, 4)),
        0x76 => Some(row(OpCode::ROR, 0x76, AddressingMode::ZeroPageX, 2, 6)),
        0x78 => Some(row(OpCode::SEI, 0x78, AddressingMode::Implied, 1, 2)),
        0x79 => Some(row(OpCode::ADC, 0x79, AddressingMode::AbsoluteY, 3, 4)),
        0x7D => Some(row(OpCode::ADC, 0x7D, AddressingMode::AbsoluteX, 3, 4)),
        0x7E => Some(row(OpCode::ROR, 0x7E, AddressingMode::AbsoluteX, 3, 7)),
        0x80 => Some(row(OpCode::BRA, 0x80, AddressingMode::Immediate, 2, 3)),
        0x81 => Some(row(OpCode::STA, 0x81, AddressingMode::IndirectX, 2, 6)),
        0x84 => Some(row(OpCode::STY, 0x84, AddressingMode::ZeroPage, 2, 3)),
        0x85 => Some(row(OpCode::STA, 0x85, AddressingMode::ZeroPage, 2, 3)),
        0x86 => Some(row(OpCode::STX, 0x86, AddressingMode::ZeroPage, 2, 3)),
        0x88 => Some(row(OpCode::DEY, 0x88, AddressingMode::Implied, 1, 2)),
        0x8A => Some(row(OpCode::TXA, 0x8A, AddressingMode::Implied, 1, 2)),
        0x8C => Some(row(OpCode::STY, 0x8C, AddressingMode::Absolute, 3, 4)),
        0x8D => Some(row(OpCode::STA, 0x8D, AddressingMode::Absolute, 3, 4)),
        0x8E => Some(row(OpCode::STX, 0x8E, AddressingMode::Absolute, 3, 4)),
        0x90 => Some(row(OpCode::BCC, 0x90, AddressingMode::Immediate, 2, 2)),
        0x91 => Some(row(OpCode::STA, 0x91, AddressingMode::IndirectY, 2, 6)),
        0x94 => Some(row(OpCode::STY, 0x94, AddressingMode::ZeroPageX, 2, 4)),
        0x95 => Some(row(OpCode::STA, 0x95, AddressingMode::ZeroPageX, 2, 4)),
        0x96 => Some(row(OpCode::STX, 0x96, AddressingMode::ZeroPageY, 2, 4)),
        0x98 => Some(row(OpCode::TYA, 0x98, AddressingMode::Implied, 1, 2)),
        0x99 => Some(row(OpCode::STA, 0x99, AddressingMode::AbsoluteY, 3, 5)),
        0x9A => Some(row(OpCode::TXS, 0x9A, AddressingMode::Implied, 1, 2)),
        0x9D => Some(row(OpCode::STA, 0x9D, AddressingMode::AbsoluteX, 3, 5)),
        0xA0 => Some(row(OpCode::LDY, 0xA0, AddressingMode::Immediate, 2, 2)),
        0xA1 => Some(row(OpCode::LDA, 0xA1, AddressingMode::IndirectX, 2, 6)),
        0xA2 => Some(row(OpCode::LDX, 0xA2, AddressingMode::Immediate, 2, 2)),
        0xA4 => Some(row(OpCode::LDY, 0xA4, AddressingMode::ZeroPage, 2, 3)),
        0xA5 => Some(row(OpCode::LDA, 0xA5, AddressingMode::ZeroPage, 2, 3)),
        0xA6 => Some(row(OpCode::LDX, 0xA6, AddressingMode::ZeroPage, 2, 3)),
        0xA8 => Some(row(OpCode::TAY, 0xA8, AddressingMode::Implied, 1, 2)),
        0xA9 => Some(row(OpCode::LDA, 0xA9, AddressingMode::Immediate, 2, 2)),
        0xAA => Some(row(OpCode::TAX, 0xAA, AddressingMode::Implied, 1, 2)),
        0xAC => Some(row(OpCode::LDY, 0xAC, AddressingMode::Absolute, 3, 4)),
        0xAD => Some(row(OpCode::LDA, 0xAD, AddressingMode::Absolute, 3, 4)),
        0xAE => Some(row(OpCode::LDX, 0xAE, AddressingMode::Absolute, 3, 4)),
        0xB0 => Some(row(OpCode::BCS, 0xB0, AddressingMode::Immediate, 2, 2)),
        0xB1 => Some(row(OpCode::LDA, 0xB1, AddressingMode::IndirectY, 2, 5)),
        0xB4 => Some(row(OpCode::LDY, 0xB4, AddressingMode::ZeroPageX, 2, 4)),
        0xB5 => Some(row(OpCode::LDA, 0xB5, AddressingMode::ZeroPageX, 2, 4)),
        0xB6 => Some(row(OpCode::LDX, 0xB6, AddressingMode::ZeroPageY, 2, 4)),
        0xB8 => Some(row(OpCode::CLV, 0xB8, AddressingMode::Implied, 1, 2)),
        0xB9 => Some(row(OpCode::LDA, 0xB9, AddressingMode::AbsoluteY, 3, 4)),
        0xBA => Some(row(OpCode::TSX, 0xBA, AddressingMode::Implied, 1, 2)),
        0xBC => Some(row(OpCode::LDY, 0xBC, AddressingMode::AbsoluteX, 3, 4)),
        0xBD => Some(row(OpCode::LDA, 0xBD, AddressingMode::AbsoluteX, 3, 4)),
        0xBE => Some(row(OpCode::LDX, 0xBE, AddressingMode::AbsoluteY, 3, 4)),
        0xC1 => Some(row(OpCode::CMP, 0xC1, AddressingMode::IndirectX, 2, 6)),
        0xC5 => Some(row(OpCode::CMP, 0xC5, AddressingMode::ZeroPage, 2, 3)),
        0xC6 => Some(row(OpCode::DEC, 0xC6, AddressingMode::ZeroPage, 2, 5)),
        0xC8 => Some(row(OpCode::INY, 0xC8, AddressingMode::Implied, 1, 2)),
        0xC9 => Some(row(OpCode::CMP, 0xC9, AddressingMode::Immediate, 2, 2)),
        0xCA => Some(row(OpCode::DEX, 0xCA, AddressingMode::Implied, 1, 2)),
        0xCD => Some(row(OpCode::CMP, 0xCD, AddressingMode::Absolute, 3, 4)),
        0xCE => Some(row(OpCode::DEC, 0xCE, AddressingMode::Absolute, 3, 6)),
        0xD0 => Some(row(OpCode::BNE, 0xD0, AddressingMode::Immediate, 2, 2)),
        0xD1 => Some(row(OpCode::CMP, 0xD1, AddressingMode::IndirectY, 2, 5)),
        0xD5 => Some(row(OpCode::CMP, 0xD5, AddressingMode::ZeroPageX, 2, 4)),
        0xD6 => Some(row(OpCode::DEC, 0xD6, AddressingMode::ZeroPageX, 2, 6)),
        0xD8 => Some(row(OpCode::CLD, 0xD8, AddressingMode::Implied, 1, 2)),
        0xD9 => Some(row(OpCode::CMP, 0xD9, AddressingMode::AbsoluteY, 3, 4)),
        0xDD => Some(row(OpCode::CMP, 0xDD, AddressingMode::AbsoluteX, 3, 4)),
        0xDE => Some(row(OpCode::DEC, 0xDE, AddressingMode::AbsoluteX, 3, 7)),
        0xE1 => Some(row(OpCode::SBC, 0xE1, AddressingMode::IndirectX, 2, 6)),
        0xE5 => Some(row(OpCode::SBC, 0xE5, AddressingMode::ZeroPage, 2, 3)),
        0xE6 => Some(row(OpCode::INC, 0xE6, AddressingMode::ZeroPage, 2, 5)),
        0xE8 => Some(row(OpCode::INX, 0xE8, AddressingMode::Implied, 1, 2)),
        0xE9 => Some(row(OpCode::SBC, 0xE9, AddressingMode::Immediate, 2, 2)),
        0xED => Some(row(OpCode::SBC, 0xED, AddressingMode::Absolute, 3, 4)),
        0xEE => Some(row(OpCode::INC, 0xEE, AddressingMode::Absolute, 3, 6)),
        0xF0 => Some(row(OpCode::BEQ, 0xF0, AddressingMode::Immediate, 2, 2)),
        0xF1 => Some(row(OpCode::SBC, 0xF1, AddressingMode::IndirectY, 2, 5)),
        0xF5 => Some(row(OpCode::SBC, 0xF5, AddressingMode::ZeroPageX, 2, 4)),
        0xF6 => Some(row(OpCode::INC, 0xF6, AddressingMode::ZeroPageX, 2, 6)),
        0xF8 => Some(row(OpCode::SED, 0xF8, AddressingMode::Implied, 1, 2)),
        0xF9 => Some(row(OpCode::SBC, 0xF9, AddressingMode::AbsoluteY, 3, 4)),
        0xFD => Some(row(OpCode::SBC, 0xFD, AddressingMode::AbsoluteX, 3, 4)),
        0xFE => Some(row(OpCode::INC, 0xFE, AddressingMode::AbsoluteX, 3, 7)),
        _ => None,
    }
}

impl Instruction {
    /// A descriptor with the given fields.
    pub fn new(opname: OpCode, opcode: u8, mode: AddressingMode, bytes: u8, cycles: u8) -> (d:
        Instruction)
        ensures
            d == row(opname, opcode, mode, bytes, cycles),
    {
        Instruction { opname, opcode, mode, bytes, cycles }
    }
}

/// Looks `opcode` up in the instruction table.
pub fn lookup(opcode: u8) -> (found: Option<Instruction>)
    ensures
        found == descriptor(opcode),
{
    reveal(descriptor);
    match opcode {
        0x00 => Some(Instruction::new(OpCode::BRK, 0x00, AddressingMode::Implied, 1, 7)),
        0x01 => Some(Instruction::new(OpCode::ORA, 0x01, AddressingMode::IndirectX, 2, 6)),
        0x05 => Some(Instruction::new(OpCode::ORA, 0x05, AddressingMode::ZeroPage, 2, 3)),
        0x06 => Some(Instruction::new(OpCode::ASL, 0x06, AddressingMode::ZeroPage, 2, 5)),
        0x08 => Some(Instruction::new(OpCode::PHP, 0x08, AddressingMode::Implied, 1, 3)),
        0x09 => Some(Instruction::new(OpCode::ORA, 0x09, AddressingMode::Immediate, 2, 2)),
        0x0A => Some(Instruction::new(OpCode::ASL, 0x0A, AddressingMode::Implied, 1, 2)),
        0x0D => Some(Instruction::new(OpCode::ORA, 0x0D, AddressingMode::Absolute, 3, 4)),
        0x0E => Some(Instruction::new(OpCode::ASL, 0x0E, AddressingMode::Absolute, 3, 6)),
        0x10 => Some(Instruction::new(OpCode::BPL, 0x10, AddressingMode::Immediate, 2, 2)),
        0x11 => Some(Instruction::new(OpCode::ORA, 0x11, AddressingMode::IndirectY, 2, 5)),
        0x15 => Some(Instruction::new(OpCode::ORA, 0x15, AddressingMode::ZeroPageX, 2, 4)),
        0x16 => Some(Instruction::new(OpCode::ASL, 0x16, AddressingMode::ZeroPageX, 2, 6)),
        0x18 => Some(Instruction::new(OpCode::CLC, 0x18, AddressingMode::Implied, 1, 2)),
        0x19 => Some(Instruction::new(OpCode::ORA, 0x19, AddressingMode::AbsoluteY, 3, 4)),
        0x1D => Some(Instruction::new(OpCode::ORA, 0x1D, AddressingMode::AbsoluteX, 3, 4)),
        0x1E => Some(Instruction::new(OpCode::ASL, 0x1E, AddressingMode::AbsoluteX, 3, 7)),
        0x21 => Some(Instruction::new(OpCode::AND, 0x21, AddressingMode::IndirectX, 2, 6)),
        0x25 => Some(Instruction::new(OpCode::AND, 0x25, AddressingMode::ZeroPage, 2, 3)),
        0x26 => Some(Instruction::new(OpCode::ROL, 0x26, AddressingMode::ZeroPage, 2, 5)),
        0x28 => Some(Instruction::new(OpCode::PLP, 0x28, AddressingMode::Implied, 1, 4)),
        0x29 => Some(Instruction::new(OpCode::AND, 0x29, AddressingMode::Immediate, 2, 2)),
        0x2A => Some(Instruction::new(OpCode::ROL, 0x2A, AddressingMode::Implied, 1, 2)),
        0x2D => Some(Instruction::new(OpCode::AND, 0x2D, AddressingMode::Absolute, 3, 4)),
        0x2E => Some(Instruction::new(OpCode::ROL, 0x2E, AddressingMode::Absolute, 3, 6)),
        0x30 => Some(Instruction::new(OpCode::BMI, 0x30, AddressingMode::Immediate, 2, 2)),
        0x31 => Some(Instruction::new(OpCode::AND, 0x31, AddressingMode::IndirectY, 2, 5)),
        0x35 => Some(Instruction::new(OpCode::AND, 0x35, AddressingMode::ZeroPageX, 2, 4)),
        0x36 => Some(Instruction::new(OpCode::ROL, 0x36, AddressingMode::ZeroPageX, 2, 6)),
        0x38 => Some(Instruction::new(OpCode::SEC, 0x38, AddressingMode::Implied, 1, 2)),
        0x39 => Some(Instruction::new(OpCode::AND, 0x39, AddressingMode::AbsoluteY, 3, 4)),
        0x3D => Some(Instruction::new(OpCode::AND, 0x3D, AddressingMode::AbsoluteX, 3, 4)),
        0x3E => Some(Instruction::new(OpCode::ROL, 0x3E, AddressingMode::AbsoluteX, 3, 7)),
        0x41 => Some(Instruction::new(OpCode::EOR, 0x41, AddressingMode::IndirectX, 2, 6)),
        0x45 => Some(Instruction::new(OpCode::EOR, 0x45, AddressingMode::ZeroPage, 2, 3)),
        0x46 => Some(Instruction::new(OpCode::LSR, 0x46, AddressingMode::ZeroPage, 2, 5)),
        0x48 => Some(Instruction::new(OpCode::PHA, 0x48, AddressingMode::Implied, 1, 3)),
        0x49 => Some(Instruction::new(OpCode::EOR, 0x49, AddressingMode::Immediate, 2, 2)),
        0x4A => Some(Instruction::new(OpCode::LSR, 0x4A, AddressingMode::Implied, 1, 2)),
        0x4D => Some(Instruction::new(OpCode::EOR, 0x4D, AddressingMode::Absolute, 3, 4)),
        0x4E => Some(Instruction::new(OpCode::LSR, 0x4E, AddressingMode::Absolute, 3, 6)),
        0x50 => Some(Instruction::new(OpCode::BVC, 0x50, AddressingMode::Immediate, 2, 2)),
        0x51 => Some(Instruction::new(OpCode::EOR, 0x51, AddressingMode::IndirectY, 2, 5)),
        0x55 => Some(Instruction::new(OpCode::EOR, 0x55, AddressingMode::ZeroPageX, 2, 4)),
        0x56 => Some(Instruction::new(OpCode::LSR, 0x56, AddressingMode::ZeroPageX, 2, 6)),
        0x58 => Some(Instruction::new(OpCode::CLI, 0x58, AddressingMode::Implied, 1, 2)),
        0x59 => Some(Instruction::new(OpCode::EOR, 0x59, AddressingMode::AbsoluteY, 3, 4)),
        0x5D => Some(Instruction::new(OpCode::EOR, 0x5D, AddressingMode::AbsoluteX, 3, 4)),
        0x5E => Some(Instruction::new(OpCode::LSR, 0x5E, AddressingMode::AbsoluteX, 3, 7)),
        0x60 => Some(Instruction::new(OpCode::RTS, 0x60, AddressingMode::Implied, 1, 6)),
        0x61 => Some(Instruction::new(OpCode::ADC, 0x61, AddressingMode::IndirectX, 2, 6)),
        0x65 => Some(Instruction::new(OpCode::ADC, 0x65, AddressingMode::ZeroPage, 2, 3)),
        0x66 => Some(Instruction::new(OpCode::ROR, 0x66, AddressingMode::ZeroPage, 2, 5)),
        0x68 => Some(Instruction::new(OpCode::PLA, 0x68, AddressingMode::Implied, 1, 4)),
        0x69 => Some(Instruction::new(OpCode::ADC, 0x69, AddressingMode::Immediate, 2, 2)),
        0x6A => Some(Instruction::new(OpCode::ROR, 0x6A, AddressingMode::Implied, 1, 2)),
        0x6D => Some(Instruction::new(OpCode::ADC, 0x6D, AddressingMode::Absolute, 3, 4)),
        0x6E => Some(Instruction::new(OpCode::ROR, 0x6E, AddressingMode::Absolute, 3, 6)),
        0x70 => Some(Instruction::new(OpCode::BVS, 0x70, AddressingMode::Immediate, 2, 2)),
        0x71 => Some(Instruction::new(OpCode::ADC, 0x71, AddressingMode::IndirectY, 2, 5)),
        0x75 => Some(Instruction::new(OpCode::ADC, 0x75, AddressingMode::ZeroPageX, 2, 4)),
        0x76 => Some(Instruction::new(OpCode::ROR, 0x76, AddressingMode::ZeroPageX, 2, 6)),
        0x78 => Some(Instruction::new(OpCode::SEI, 0x78, AddressingMode::Implied, 1, 2)),
        0x79 => Some(Instruction::new(OpCode::ADC, 0x79, AddressingMode::AbsoluteY, 3, 4)),
        0x7D => Some(Instruction::new(OpCode::ADC, 0x7D, AddressingMode::AbsoluteX, 3, 4)),
        0x7E => Some(Instruction::new(OpCode::ROR, 0x7E, AddressingMode::AbsoluteX, 3, 7)),
        0x80 => Some(Instruction::new(OpCode::BRA, 0x80, AddressingMode::Immediate, 2, 3)),
        0x81 => Some(Instruction::new(OpCode::STA, 0x81, AddressingMode::IndirectX, 2, 6)),
        0x84 => Some(Instruction::new(OpCode::STY, 0x84, AddressingMode::ZeroPage, 2, 3)),
        0x85 => Some(Instruction::new(OpCode::STA, 0x85, AddressingMode::ZeroPage, 2, 3)),
        0x86 => Some(Instruction::new(OpCode::STX, 0x86, AddressingMode::ZeroPage, 2, 3)),
        0x88 => Some(Instruction::new(OpCode::DEY, 0x88, AddressingMode::Implied, 1, 2)),
        0x8A => Some(Instruction::new(OpCode::TXA, 0x8A, AddressingMode::Implied, 1, 2)),
        0x8C => Some(Instruction::new(OpCode::STY, 0x8C, AddressingMode::Absolute, 3, 4)),
        0x8D => Some(Instruction::new(OpCode::STA, 0x8D, AddressingMode::Absolute, 3, 4)),
        0x8E => Some(Instruction::new(OpCode::STX, 0x8E, AddressingMode::Absolute, 3, 4)),
        0x90 => Some(Instruction::new(OpCode::BCC, 0x90, AddressingMode::Immediate, 2, 2)),
        0x91 => Some(Instruction::new(OpCode::STA, 0x91, AddressingMode::IndirectY, 2, 6)),
        0x94 => Some(Instruction::new(OpCode::STY, 0x94, AddressingMode::ZeroPageX, 2, 4)),
        0x95 => Some(Instruction::new(OpCode::STA, 0x95, AddressingMode::ZeroPageX, 2, 4)),
        0x96 => Some(Instruction::new(OpCode::STX, 0x96, AddressingMode::ZeroPageY, 2, 4)),
        0x98 => Some(Instruction::new(OpCode::TYA, 0x98, AddressingMode::Implied, 1, 2)),
        0x99 => Some(Instruction::new(OpCode::STA, 0x99, AddressingMode::AbsoluteY, 3, 5)),
        0x9A => Some(Instruction::new(OpCode::TXS, 0x9A, AddressingMode::Implied, 1, 2)),
        0x9D => Some(Instruction::new(OpCode::STA, 0x9D, AddressingMode::AbsoluteX, 3, 5)),
        0xA0 => Some(Instruction::new(OpCode::LDY, 0xA0, AddressingMode::Immediate, 2, 2)),
        0xA1 => Some(Instruction::new(OpCode::LDA, 0xA1, AddressingMode::IndirectX, 2, 6)),
        0xA2 => Some(Instruction::new(OpCode::LDX, 0xA2, AddressingMode::Immediate, 2, 2)),
        0xA4 => Some(Instruction::new(OpCode::LDY, 0xA4, AddressingMode::ZeroPage, 2, 3)),
        0xA5 => Some(Instruction::new(OpCode::LDA, 0xA5, AddressingMode::ZeroPage, 2, 3)),
        0xA6 => Some(Instruction::new(OpCode::LDX, 0xA6, AddressingMode::ZeroPage, 2, 3)),
        0xA8 => Some(Instruction::new(OpCode::TAY, 0xA8, AddressingMode::Implied, 1, 2)),
        0xA9 => Some(Instruction::new(OpCode::LDA, 0xA9, AddressingMode::Immediate, 2, 2)),
        0xAA => Some(Instruction::new(OpCode::TAX, 0xAA, AddressingMode::Implied, 1, 2)),
        0xAC => Some(Instruction::new(OpCode::LDY, 0xAC, AddressingMode::Absolute, 3, 4)),
        0xAD => Some(Instruction::new(OpCode::LDA, 0xAD, AddressingMode::Absolute, 3, 4)),
        0xAE => Some(Instruction::new(OpCode::LDX, 0xAE, AddressingMode::Absolute, 3, 4)),
        0xB0 => Some(Instruction::new(OpCode::BCS, 0xB0, AddressingMode::Immediate, 2, 2)),
        0xB1 => Some(Instruction::new(OpCode::LDA, 0xB1, AddressingMode::IndirectY, 2, 5)),
        0xB4 => Some(Instruction::new(OpCode::LDY, 0xB4, AddressingMode::ZeroPageX, 2, 4)),
        0xB5 => Some(Instruction::new(OpCode::LDA, 0xB5, AddressingMode::ZeroPageX, 2, 4)),
        0xB6 => Some(Instruction::new(OpCode::LDX, 0xB6, AddressingMode::ZeroPageY, 2, 4)),
        0xB8 => Some(Instruction::new(OpCode::CLV, 0xB8, AddressingMode::Implied, 1, 2)),
        0xB9 => Some(Instruction::new(OpCode::LDA, 0xB9, AddressingMode::AbsoluteY, 3, 4)),
        0xBA => Some(Instruction::new(OpCode::TSX, 0xBA, AddressingMode::Implied, 1, 2)),
        0xBC => Some(Instruction::new(OpCode::LDY, 0xBC, AddressingMode::AbsoluteX, 3, 4)),
        0xBD => Some(Instruction::new(OpCode::LDA, 0xBD, AddressingMode::AbsoluteX, 3, 4)),
        0xBE => Some(Instruction::new(OpCode::LDX, 0xBE, AddressingMode::AbsoluteY, 3, 4)),
        0xC1 => Some(Instruction::new(OpCode::CMP, 0xC1, AddressingMode::IndirectX, 2, 6)),
        0xC5 => Some(Instruction::new(OpCode::CMP, 0xC5, AddressingMode::ZeroPage, 2, 3)),
        0xC6 => Some(Instruction::new(OpCode::DEC, 0xC6, AddressingMode::ZeroPage, 2, 5)),
        0xC8 => Some(Instruction::new(OpCode::INY, 0xC8, AddressingMode::Implied, 1, 2)),
        0xC9 => Some(Instruction::new(OpCode::CMP, 0xC9, AddressingMode::Immediate, 2, 2)),
        0xCA => Some(Instruction::new(OpCode::DEX, 0xCA, AddressingMode::Implied, 1, 2)),
        0xCD => Some(Instruction::new(OpCode::CMP, 0xCD, AddressingMode::Absolute, 3, 4)),
        0xCE => Some(Instruction::new(OpCode::DEC, 0xCE, AddressingMode::Absolute, 3, 6)),
        0xD0 => Some(Instruction::new(OpCode::BNE, 0xD0, AddressingMode::Immediate, 2, 2)),
        0xD1 => Some(Instruction::new(OpCode::CMP, 0xD1, AddressingMode::IndirectY, 2, 5)),
        0xD5 => Some(Instruction::new(OpCode::CMP, 0xD5, AddressingMode::ZeroPageX, 2, 4)),
        0xD6 => Some(Instruction::new(OpCode::DEC, 0xD6, AddressingMode::ZeroPageX, 2, 6)),
        0xD8 => Some(Instruction::new(OpCode::CLD, 0xD8, AddressingMode::Implied, 1, 2)),
        0xD9 => Some(Instruction::new(OpCode::CMP, 0xD9, AddressingMode::AbsoluteY, 3, 4)),
        0xDD => Some(Instruction::new(OpCode::CMP, 0xDD, AddressingMode::AbsoluteX, 3, 4)),
        0xDE => Some(Instruction::new(OpCode::DEC, 0xDE, AddressingMode::AbsoluteX, 3, 7)),
        0xE1 => Some(Instruction::new(OpCode::SBC, 0xE1, AddressingMode::IndirectX, 2, 6)),
        0xE5 => Some(Instruction::new(OpCode::SBC, 0xE5, AddressingMode::ZeroPage, 2, 3)),
        0xE6 => Some(Instruction::new(OpCode::INC, 0xE6, AddressingMode::ZeroPage, 2, 5)),
        0xE8 => Some(Instruction::new(OpCode::INX, 0xE8, AddressingMode::Implied, 1, 2)),
        0xE9 => Some(Instruction::new(OpCode::SBC, 0xE9, AddressingMode::Immediate, 2, 2)),
        0xED => Some(Instruction::new(OpCode::SBC, 0xED, AddressingMode::Absolute, 3, 4)),
        0xEE => Some(Instruction::new(OpCode::INC, 0xEE, AddressingMode::Absolute, 3, 6)),
        0xF0 => Some(Instruction::new(OpCode::BEQ, 0xF0, AddressingMode::Immediate, 2, 2)),
        0xF1 => Some(Instruction::new(OpCode::SBC, 0xF1, AddressingMode::IndirectY, 2, 5)),
        0xF5 => Some(Instruction::new(OpCode::SBC, 0xF5, AddressingMode::ZeroPageX, 2, 4)),
        0xF6 => Some(Instruction::new(OpCode::INC, 0xF6, AddressingMode::ZeroPageX, 2, 6)),
        0xF8 => Some(Instruction::new(OpCode::SED, 0xF8, AddressingMode::Implied, 1, 2)),
        0xF9 => Some(Instruction::new(OpCode::SBC, 0xF9, AddressingMode::AbsoluteY, 3, 4)),
        0xFD => Some(Instruction::new(OpCode::SBC, 0xFD, AddressingMode::AbsoluteX, 3, 4)),
        0xFE => Some(Instruction::new(OpCode::INC, 0xFE, AddressingMode::AbsoluteX, 3, 7)),
        _ => None,
    }
}

impl OpCode {
    /// The letters of the mnemonic, in upper case.
    pub open spec fn name(self) -> Seq<char> {
        match self {
            OpCode::LDA => seq!['L', 'D', 'A'],
            OpCode::SBC => seq!['S', 'B', 'C'],
            OpCode::INC => seq!['I', 'N', 'C'],
            OpCode::DEC => seq!['D', 'E', 'C'],
            OpCode::INX => seq!['I', 'N', 'X'],
            OpCode::INY => seq!['I', 'N', 'Y'],
            OpCode::DEX => seq!['D', 'E', 'X'],
            OpCode::DEY => seq!['D', 'E', 'Y'],
            OpCode::AND => seq!['A', 'N', 'D'],
            OpCode::ORA => seq!['O', 'R', 'A'],
            OpCode::EOR => seq!['E', 'O', 'R'],
            OpCode::ASL => seq!['A', 'S', 'L'],
            OpCode::LSR => seq!['L', 'S', 'R'],
            OpCode::ROL => seq!['R', 'O', 'L'],
            OpCode::ROR => seq!['R', 'O', 'R'],
            OpCode::CLC => seq!['C', 'L', 'C'],
            OpCode::SEI => seq!['S', 'E', 'I'],
            OpCode::SED => seq!['S', 'E', 'D'],
            OpCode::SEC => seq!['S', 'E', 'C'],
            OpCode::CLV => seq!['C', 'L', 'V'],
            OpCode::CLI => seq!['C', 'L', 'I'],
            OpCode::CLD => seq!['C', 'L', 'D'],
            OpCode::PLP => seq!['P', 'L', 'P'],
            OpCode::PLA => seq!['P', 'L', 'A'],
            OpCode::PHP => seq!['P', 'H', 'P'],
            OpCode::PHA => seq!['P', 'H', 'A'],
            OpCode::TXS => seq!['T', 'X', 'S'],
            OpCode::TSX => seq!['T', 'S', 'X'],
            OpCode::TYA => seq!['T', 'Y', 'A'],
            OpCode::TXA => seq!['T', 'X', 'A'],
            OpCode::TAY => seq!['T', 'A', 'Y'],
            OpCode::TAX => seq!['T', 'A', 'X'],
            OpCode::BRK => seq!['B', 'R', 'K'],
            OpCode::RTS => seq!['R', 'T', 'S'],
            OpCode::BRA => seq!['B', 'R', 'A'],
            OpCode::BVS => seq!['B', 'V', 'S'],
            OpCode::BVC => seq!['B', 'V', 'C'],
            OpCode::BPL => seq!['B', 'P', 'L'],
            OpCode::BMI => seq!['B', 'M', 'I'],
            OpCode::BCC => seq!['B', 'C', 'C'],
            OpCode::BCS => seq!['B', 'C', 'S'],
            OpCode::BNE => seq!['B', 'N', 'E'],
            OpCode::BEQ => seq!['B', 'E', 'Q'],
            OpCode::CMP => seq!['C', 'M', 'P'],
            OpCode::ADC => seq!['A', 'D', 'C'],
            OpCode::STA => seq!['S', 'T', 'A'],
            OpCode::STY => seq!['S', 'T', 'Y'],
            OpCode::STX => seq!['S', 'T', 'X'],
            OpCode::LDY => seq!['L', 'D', 'Y'],
            OpCode::LDX => seq!['L', 'D', 'X'],
        }
    }

    /// Whether the handler of this mnemonic implements `mode`.
    pub open spec fn accepts(self, mode: AddressingMode) -> bool {
        match self {
            OpCode::LDA
            | OpCode::LDX
            | OpCode::LDY
            | OpCode::ADC
            | OpCode::SBC
            | OpCode::AND
            | OpCode::ORA
            | OpCode::EOR
            | OpCode::CMP => mode.has_value(),
            OpCode::STA | OpCode::STX | OpCode::STY | OpCode::INC | OpCode::DEC => mode.is_memory(),
            OpCode::ASL | OpCode::LSR | OpCode::ROL | OpCode::ROR => mode
                == AddressingMode::Implied || mode.is_memory(),
            OpCode::BRA
            | OpCode::BVS
            | OpCode::BVC
            | OpCode::BPL
            | OpCode::BMI
            | OpCode::BCC
            | OpCode::BCS
            | OpCode::BNE
            | OpCode::BEQ => mode == AddressingMode::Immediate,
            _ => mode == AddressingMode::Implied,
        }
    }

    /// The mnemonic whose name is `text`, if there is one.
    pub open spec fn named(text: Seq<char>) -> Option<OpCode> {
        if exists|op: OpCode| op.name() == text {
            Some(choose|op: OpCode| op.name() == text)
        } else {
            None
        }
    }

    /// The mnemonic that `name` spells, letter for letter and in upper case;
    /// `None` if it spells none.
    pub fn from_name(name: &str) -> (found: Option<OpCode>)
        ensures
            found == OpCode::named(name@),
            match found {
                Some(op) => op.name() == name@,
                None => forall|op: OpCode| op.name() != name@,
            },
    {
        if name.unicode_len() != 3 {
            assert forall|op: OpCode| op.name() != name@ by {
                assert(op.name().len() == 3);
            }
            return None;
        }
        let first = name.get_char(0);
        let second = name.get_char(1);
        let third = name.get_char(2);
        let found = match (first, second, third) {
            ('L', 'D', 'A') => Some(OpCode::LDA),
            ('S', 'B', 'C') => Some(OpCode::SBC),
            ('I', 'N', 'C') => Some(OpCode::INC),
            ('D', 'E', 'C') => Some(OpCode::DEC),
            ('I', 'N', 'X') => Some(OpCode::INX),
            ('I', 'N', 'Y') => Some(OpCode::INY),
            ('D', 'E', 'X') => Some(OpCode::DEX),
            ('D', 'E', 'Y') => Some(OpCode::DEY),
            ('A', 'N', 'D') => Some(OpCode::AND),
            ('O', 'R', 'A') => Some(OpCode::ORA),
            ('E', 'O', 'R') => Some(OpCode::EOR),
            ('A', 'S', 'L') => Some(OpCode::ASL),
            ('L', 'S', 'R') => Some(OpCode::LSR),
            ('R', 'O', 'L') => Some(OpCode::ROL),
            ('R', 'O', 'R') => Some(OpCode::ROR),
            ('C', 'L', 'C') => Some(OpCode::CLC),
            ('S', 'E', 'I') => Some(OpCode::SEI),
            ('S', 'E', 'D') => Some(OpCode::SED),
            ('S', 'E', 'C') => Some(OpCode::SEC),
            ('C', 'L', 'V') => Some(OpCode::CLV),
            ('C', 'L', 'I') => Some(OpCode::CLI),
            ('C', 'L', 'D') => Some(OpCode::CLD),
            ('P', 'L', 'P') => Some(OpCode::PLP),
            ('P', 'L', 'A') => Some(OpCode::PLA),
            ('P', 'H', 'P') => Some(OpCode::PHP),
            ('P', 'H', 'A') => Some(OpCode::PHA),
            ('T', 'X', 'S') => Some(OpCode::TXS),
            ('T', 'S', 'X') => Some(OpCode::TSX),
            ('T', 'Y', 'A') => Some(OpCode::TYA),
            ('T', 'X', 'A') => Some(OpCode::TXA),
            ('T', 'A', 'Y') => Some(OpCode::TAY),
            ('T', 'A', 'X') => Some(OpCode::TAX),
            ('B', 'R', 'K') => Some(OpCode::BRK),
            ('R', 'T', 'S') => Some(OpCode::RTS),
            ('B', 'R', 'A') => Some(OpCode::BRA),
            ('B', 'V', 'S') => Some(OpCode::BVS),
            ('B', 'V', 'C') => Some(OpCode::BVC),
            ('B', 'P', 'L') => Some(OpCode::BPL),
            ('B', 'M', 'I') => Some(OpCode::BMI),
            ('B', 'C', 'C') => Some(OpCode::BCC),
            ('B', 'C', 'S') => Some(OpCode::BCS),
            ('B', 'N', 'E') => Some(OpCode::BNE),
            ('B', 'E', 'Q') => Some(OpCode::BEQ),
            ('C', 'M', 'P') => Some(OpCode::CMP),
            ('A', 'D', 'C') => Some(OpCode::ADC),
            ('S', 'T', 'A') => Some(OpCode::STA),
            ('S', 'T', 'Y') => Some(OpCode::STY),
            ('S', 'T', 'X') => Some(OpCode::STX),
            ('L', 'D', 'Y') => Some(OpCode::LDY),
            ('L', 'D', 'X') => Some(OpCode::LDX),
            _ => None,
        };
        proof {
            match found {
                Some(op) => {
                    assert(op.name() =~= name@);
                    lemma_names_differ(op, choose|other: OpCode| other.name() == name@);
                },
                None => {
                    assert forall|op: OpCode| op.name() != name@ by {
                        let letters = op.name();
                        assert(letters[0] != first || letters[1] != second || letters[2] != third);
                    }
                },
            }
        }
        found
    }
}

/// No two mnemonics have the same name.
pub proof fn lemma_names_differ(first: OpCode, second: OpCode)
    requires
        first.name() == second.name(),
    ensures
        first == second,
{
    let a = first.name();
    let b = second.name();
    assert(a[0] == b[0] && a[1] == b[1] && a[2] == b[2]);
}

/// A name is the name of the mnemonic it was taken from, and of no other.
pub proof fn lemma_named(op: OpCode)
    ensures
        OpCode::named(op.name()) == Some(op),
{
    lemma_names_differ(op, choose|other: OpCode| other.name() == op.name());
}

/// Every row of the table is filed under its own opcode byte, its length is
/// the opcode byte plus the operand bytes of its addressing mode, and the
/// handler of its mnemonic implements that mode.
pub proof fn lemma_descriptor(opcode: u8)
    ensures
        descriptor(opcode) matches Some(d) ==> {
            &&& d.opcode == opcode
            &&& d.bytes == 1 + d.mode.operand_length()
            &&& 1 <= d.bytes <= 3
            &&& d.opname.accepts(d.mode)
        },
{
    reveal(descriptor);
}

/// A mnemonic has at most one opcode byte for each addressing mode.
pub proof fn lemma_one_opcode_per_mode(first: u8, second: u8)
    requires
        descriptor(first) is Some,
        descriptor(second) is Some,
        descriptor(first)->0.opname == descriptor(second)->0.opname,
        descriptor(first)->0.mode == descriptor(second)->0.mode,
    ensures
        first == second,
{
    reveal(descriptor);
}

/// The lowest opcode byte under which the table files `op`.
pub open spec fn lowest_opcode_of(op: OpCode) -> u8 {
    match op {
        OpCode::LDA => 0xA1,
        OpCode::SBC => 0xE1,
        OpCode::INC => 0xE6,
        OpCode::DEC => 0xC6,
        OpCode::INX => 0xE8,
        OpCode::INY => 0xC8,
        OpCode::DEX => 0xCA,
        OpCode::DEY => 0x88,
        OpCode::AND => 0x21,
        OpCode::ORA => 0x01,
        OpCode::EOR => 0x41,
        OpCode::ASL => 0x06,
        OpCode::LSR => 0x46,
        OpCode::ROL => 0x26,
        OpCode::ROR => 0x66,
        OpCode::CLC => 0x18,
        OpCode::SEI => 0x78,
        OpCode::SED => 0xF8,
        OpCode::SEC => 0x38,
        OpCode::CLV => 0xB8,
        OpCode::CLI => 0x58,
        OpCode::CLD => 0xD8,
        OpCode::PLP => 0x28,
        OpCode::PLA => 0x68,
        OpCode::PHP => 0x08,
        OpCode::PHA => 0x48,
        OpCode::TXS => 0x9A,
        OpCode::TSX => 0xBA,
        OpCode::TYA => 0x98,
        OpCode::TXA => 0x8A,
        OpCode::TAY => 0xA8,
        OpCode::TAX => 0xAA,
        OpCode::BRK => 0x00,
        OpCode::RTS => 0x60,
        OpCode::BRA => 0x80,
        OpCode::BVS => 0x70,
        OpCode::BVC => 0x50,
        OpCode::BPL => 0x10,
        OpCode::BMI => 0x30,
        OpCode::BCC => 0x90,
        OpCode::BCS => 0xB0,
        OpCode::BNE => 0xD0,
        OpCode::BEQ => 0xF0,
        OpCode::CMP => 0xC1,
        OpCode::ADC => 0x61,
        OpCode::STA => 0x81,
        OpCode::STY => 0x84,
        OpCode::STX => 0x86,
        OpCode::LDY => 0xA0,
        OpCode::LDX => 0xA2,
    }
}

/// Every mnemonic has at least one row in the table: the one at its lowest
/// opcode byte, below which it has none.
pub proof fn lemma_every_mnemonic_has_a_row(op: OpCode)
    ensures
        descriptor(lowest_opcode_of(op)) matches Some(d) && d.opname == op,
        forall|opcode: u8|
            opcode < lowest_opcode_of(op) && #[trigger] descriptor(opcode) is Some ==> descriptor(
                opcode,
            )->0.opname != op,
{
    reveal(descriptor);
}

} // verus!
