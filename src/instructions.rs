//! The opcode table and the decoder built on it.
use vstd::prelude::*;

verus! {

/// The operation classes of the 6502, plus one for bytes that encode no documented instruction.
#[derive(Clone, Copy, Debug, PartialEq, Eq, Structural)]
pub enum Mnemonic {
    LDA, LDX, LDY, STA, STX, STY, TAX, TAY, TSX, TXA, TXS, TYA,
    ADC, DEC, DEX, DEY, INC, INX, INY, SBC,
    AND, ASL, BIT, EOR, LSR, ORA, ROL, ROR,
    BCC, BCS, BEQ, BMI, BNE, BPL, BVC, BVS,
    JMP, JSR, RTI, RTS,
    CLC, CLD, CLI, CLV, CMP, CPX, CPY, SEC, SED, SEI,
    PHA, PHP, PLA, PLP,
    BRK, NOP,
    UNKNOWN,
}

/// How an instruction finds its operand.
#[derive(Clone, Copy, Debug, PartialEq, Eq, Structural)]
pub enum AddressingMode {
    /// Zero page: one operand byte, the low byte of the address.
    ZPG,
    /// Zero page indexed by X, wrapping within the zero page.
    ZPX,
    /// Zero page indexed by Y, wrapping within the zero page.
    ZPY,
    /// Absolute: a little-endian 16-bit address.
    ABS,
    /// Absolute indexed by X.
    ABX,
    /// Absolute indexed by Y.
    ABY,
    /// Indirect (JMP only): a 16-bit pointer to the target.
    IND,
    /// Implied: no operand.
    IMP,
    /// The accumulator is the operand.
    ACC,
    /// Immediate: the operand byte is the value.
    IMM,
    /// Relative: a signed offset from the address after the instruction.
    REL,
    /// Indexed indirect: a pointer at a zero-page address plus X.
    IDX,
    /// Indirect indexed: a pointer at a zero-page address, plus Y.
    IDY,
    /// The mode of an undocumented opcode: no operand.
    UNKNOWN,
}

/// The number of operand bytes that follow the opcode in each mode.
pub open spec fn operand_bytes(mode: AddressingMode) -> nat {
    match mode {
        AddressingMode::IMP | AddressingMode::ACC | AddressingMode::UNKNOWN => 0,
        AddressingMode::IMM | AddressingMode::ZPG | AddressingMode::ZPX | AddressingMode::ZPY
        | AddressingMode::REL | AddressingMode::IDX | AddressingMode::IDY => 1,
        AddressingMode::ABS | AddressingMode::ABX | AddressingMode::ABY | AddressingMode::IND => 2,
    }
}

/// One decoded opcode: what it does, how it addresses, its size in bytes and its base cycle cost.
#[derive(Clone, Copy, Debug, PartialEq, Eq, Structural)]
pub struct Instruction {
    pub opcode: u8,
    pub mnemonic: Mnemonic,
    pub mode: AddressingMode,
    pub length: u8,
    pub cycles: u8,
}

/// Cycle cost of an undocumented opcode, which behaves as a one-byte no-op.
pub const UNKNOWN_CYCLES: u8 = 2;

/// The published 6502 opcode table: (mnemonic, mode, length in bytes, base cycles).
pub open spec fn reference_entry(opcode: u8) -> (Mnemonic, AddressingMode, u8, u8) {
    match opcode {
        0x00 => (Mnemonic::BRK, AddressingMode::IMP, 1, 7),
        0x01 => (Mnemonic::ORA, AddressingMode::IDX, 2, 6),
        0x05 => (Mnemonic::ORA, AddressingMode::ZPG, 2, 3),
        0x06 => (Mnemonic::ASL, AddressingMode::ZPG, 2, 5),
        0x08 => (Mnemonic::PHP, AddressingMode::IMP, 1, 3),
        0x09 => (Mnemonic::ORA, AddressingMode::IMM, 2, 2),
        0x0a => (Mnemonic::ASL, AddressingMode::ACC, 1, 2),
        0x0d => (Mnemonic::ORA, AddressingMode::ABS, 3, 4),
        0x0e => (Mnemonic::ASL, AddressingMode::ABS, 3, 6),
        0x10 => (Mnemonic::BPL, AddressingMode::REL, 2, 2),
        0x11 => (Mnemonic::ORA, AddressingMode::IDY, 2, 5),
        0x15 => (Mnemonic::ORA, AddressingMode::ZPX, 2, 4),
        0x16 => (Mnemonic::ASL, AddressingMode::ZPX, 2, 6),
        0x18 => (Mnemonic::CLC, AddressingMode::IMP, 1, 2),
        0x19 => (Mnemonic::ORA, AddressingMode::ABY, 3, 4),
        0x1d => (Mnemonic::ORA, AddressingMode::ABX, 3, 4),
        0x1e => (Mnemonic::ASL, AddressingMode::ABX, 3, 7),
        0x20 => (Mnemonic::JSR, AddressingMode::ABS, 3, 6),
        0x21 => (Mnemonic::AND, AddressingMode::IDX, 2, 6),
        0x24 => (Mnemonic::BIT, AddressingMode::ZPG, 2, 3),
        0x25 => (Mnemonic::AND, AddressingMode::ZPG, 2, 3),
        0x26 => (Mnemonic::ROL, AddressingMode::ZPG, 2, 5),
        0x28 => (Mnemonic::PLP, AddressingMode::IMP, 1, 4),
        0x29 => (Mnemonic::AND, AddressingMode::IMM, 2, 2),
        0x2a => (Mnemonic::ROL, AddressingMode::ACC, 1, 2),
        0x2c => (Mnemonic::BIT, AddressingMode::ABS, 3, 4),
        0x2d => (Mnemonic::AND, AddressingMode::ABS, 3, 4),
        0x2e => (Mnemonic::ROL, AddressingMode::ABS, 3, 6),
        0x30 => (Mnemonic::BMI, AddressingMode::REL, 2, 2),
        0x31 => (Mnemonic::AND, AddressingMode::IDY, 2, 5),
        0x35 => (Mnemonic::AND, AddressingMode::ZPX, 2, 4),
        0x36 => (Mnemonic::ROL, AddressingMode::ZPX, 2, 6),
        0x38 => (Mnemonic::SEC, AddressingMode::IMP, 1, 2),
        0x39 => (Mnemonic::AND, AddressingMode::ABY, 3, 4),
        0x3d => (Mnemonic::AND, AddressingMode::ABX, 3, 4),
        0x3e => (Mnemonic::ROL, AddressingMode::ABX, 3, 7),
        0x40 => (Mnemonic::RTI, AddressingMode::IMP, 1, 6),
        0x41 => (Mnemonic::EOR, AddressingMode::IDX, 2, 6),
        0x45 => (Mnemonic::EOR, AddressingMode::ZPG, 2, 3),
        0x46 => (Mnemonic::LSR, AddressingMode::ZPG, 2, 5),
        0x48 => (Mnemonic::PHA, AddressingMode::IMP, 1, 3),
        0x49 => (Mnemonic::EOR, AddressingMode::IMM, 2, 2),
        0x4a => (Mnemonic::LSR, AddressingMode::ACC, 1, 2),
        0x4c => (Mnemonic::JMP, AddressingMode::ABS, 3, 3),
        0x4d => (Mnemonic::EOR, AddressingMode::ABS, 3, 4),
        0x4e => (Mnemonic::LSR, AddressingMode::ABS, 3, 6),
        0x50 => (Mnemonic::BVC, AddressingMode::REL, 2, 2),
        0x51 => (Mnemonic::EOR, AddressingMode::IDY, 2, 5),
        0x55 => (Mnemonic::EOR, AddressingMode::ZPX, 2, 4),
        0x56 => (Mnemonic::LSR, AddressingMode::ZPX, 2, 6),
        0x58 => (Mnemonic::CLI, AddressingMode::IMP, 1, 2),
        0x59 => (Mnemonic::EOR, AddressingMode::ABY, 3, 4),
        0x5d => (Mnemonic::EOR, AddressingMode::ABX, 3, 4),
        0x5e => (Mnemonic::LSR, AddressingMode::ABX, 3, 7),
        0x60 => (Mnemonic::RTS, AddressingMode::IMP, 1, 6),
        0x61 => (Mnemonic::ADC, AddressingMode::IDX, 2, 6),
        0x65 => (Mnemonic::ADC, AddressingMode::ZPG, 2, 3),
        0x66 => (Mnemonic::ROR, AddressingMode::ZPG, 2, 5),
        0x68 => (Mnemonic::PLA, AddressingMode::IMP, 1, 4),
        0x69 => (Mnemonic::ADC, AddressingMode::IMM, 2, 2),
        0x6a => (Mnemonic::ROR, AddressingMode::ACC, 1, 2),
        0x6c => (Mnemonic::JMP, AddressingMode::IND, 3, 5),
        0x6d => (Mnemonic::ADC, AddressingMode::ABS, 3, 4),
        0x6e => (Mnemonic::ROR, AddressingMode::ABS, 3, 6),
        0x70 => (Mnemonic::BVS, AddressingMode::REL, 2, 2),
        0x71 => (Mnemonic::ADC, AddressingMode::IDY, 2, 5),
        0x75 => (Mnemonic::ADC, AddressingMode::ZPX, 2, 4),
        0x76 => (Mnemonic::ROR, AddressingMode::ZPX, 2, 6),
        0x78 => (Mnemonic::SEI, AddressingMode::IMP, 1, 2),
        0x79 => (Mnemonic::ADC, AddressingMode::ABY, 3, 4),
        0x7d => (Mnemonic::ADC, AddressingMode::ABX, 3, 4),
        0x7e => (Mnemonic::ROR, AddressingMode::ABX, 3, 7),
        0x81 => (Mnemonic::STA, AddressingMode::IDX, 2, 6),
        0x84 => (Mnemonic::STY, AddressingMode::ZPG, 2, 3),
        0x85 => (Mnemonic::STA, AddressingMode::ZPG, 2, 3),
        0x86 => (Mnemonic::STX, AddressingMode::ZPG, 2, 3),
        0x88 => (Mnemonic::DEY, AddressingMode::IMP, 1, 2),
        0x8a => (Mnemonic::TXA, AddressingMode::IMP, 1, 2),
        0x8c => (Mnemonic::STY, AddressingMode::ABS, 3, 4),
        0x8d => (Mnemonic::STA, AddressingMode::ABS, 3, 4),
        0x8e => (Mnemonic::STX, AddressingMode::ABS, 3, 4),
        0x90 => (Mnemonic::BCC, AddressingMode::REL, 2, 2),
        0x91 => (Mnemonic::STA, AddressingMode::IDY, 2, 6),
        0x94 => (Mnemonic::STY, AddressingMode::ZPX, 2, 4),
        0x95 => (Mnemonic::STA, AddressingMode::ZPX, 2, 4),
        0x96 => (Mnemonic::STX, AddressingMode::ZPY, 2, 4),
        0x98 => (Mnemonic::TYA, AddressingMode::IMP, 1, 2),
        0x99 => (Mnemonic::STA, AddressingMode::ABY, 3, 5),
        0x9a => (Mnemonic::TXS, AddressingMode::IMP, 1, 2),
        0x9d => (Mnemonic::STA, AddressingMode::ABX, 3, 5),
        0xa0 => (Mnemonic::LDY, AddressingMode::IMM, 2, 2),
        0xa1 => (Mnemonic::LDA, AddressingMode::IDX, 2, 6),
        0xa2 => (Mnemonic::LDX, AddressingMode::IMM, 2, 2),
        0xa4 => (Mnemonic::LDY, AddressingMode::ZPG, 2, 3),
        0xa5 => (Mnemonic::LDA, AddressingMode::ZPG, 2, 3),
        0xa6 => (Mnemonic::LDX, AddressingMode::ZPG, 2, 3),
        0xa8 => (Mnemonic::TAY, AddressingMode::IMP, 1, 2),
        0xa9 => (Mnemonic::LDA, AddressingMode::IMM, 2, 2),
        0xaa => (Mnemonic::TAX, AddressingMode::IMP, 1, 2),
        0xac => (Mnemonic::LDY, AddressingMode::ABS, 3, 4),
        0xad => (Mnemonic::LDA, AddressingMode::ABS, 3, 4),
        0xae => (Mnemonic::LDX, AddressingMode::ABS, 3, 4),
        0xb0 => (Mnemonic::BCS, AddressingMode::REL, 2, 2),
        0xb1 => (Mnemonic::LDA, AddressingMode::IDY, 2, 5),
        0xb4 => (Mnemonic::LDY, AddressingMode::ZPX, 2, 4),
        0xb5 => (Mnemonic::LDA, AddressingMode::ZPX, 2, 4),
        0xb6 => (Mnemonic::LDX, AddressingMode::ZPY, 2, 4),
        0xb8 => (Mnemonic::CLV, AddressingMode::IMP, 1, 2),
        0xb9 => (Mnemonic::LDA, AddressingMode::ABY, 3, 4),
        0xba => (Mnemonic::TSX, AddressingMode::IMP, 1, 2),
        0xbc => (Mnemonic::LDY, AddressingMode::ABX, 3, 4),
        0xbd => (Mnemonic::LDA, AddressingMode::ABX, 3, 4),
        0xbe => (Mnemonic::LDX, AddressingMode::ABY, 3, 4),
        0xc0 => (Mnemonic::CPY, AddressingMode::IMM, 2, 2),
        0xc1 => (Mnemonic::CMP, AddressingMode::IDX, 2, 6),
        0xc4 => (Mnemonic::CPY, AddressingMode::ZPG, 2, 3),
        0xc5 => (Mnemonic::CMP, AddressingMode::ZPG, 2, 3),
        0xc6 => (Mnemonic::DEC, AddressingMode::ZPG, 2, 5),
        0xc8 => (Mnemonic::INY, AddressingMode::IMP, 1, 2),
        0xc9 => (Mnemonic::CMP, AddressingMode::IMM, 2, 2),
        0xca => (Mnemonic::DEX, AddressingMode::IMP, 1, 2),
        0xcc => (Mnemonic::CPY, AddressingMode::ABS, 3, 4),
        0xcd => (Mnemonic::CMP, AddressingMode::ABS, 3, 4),
        0xce => (Mnemonic::DEC, AddressingMode::ABS, 3, 6),
        0xd0 => (Mnemonic::BNE, AddressingMode::REL, 2, 2),
        0xd1 => (Mnemonic::CMP, AddressingMode::IDY, 2, 5),
        0xd5 => (Mnemonic::CMP, AddressingMode::ZPX, 2, 4),
        0xd6 => (Mnemonic::DEC, AddressingMode::ZPX, 2, 6),
        0xd8 => (Mnemonic::CLD, AddressingMode::IMP, 1, 2),
        0xd9 => (Mnemonic::CMP, AddressingMode::ABY, 3, 4),
        0xdd => (Mnemonic::CMP, AddressingMode::ABX, 3, 4),
        0xde => (Mnemonic::DEC, AddressingMode::ABX, 3, 7),
        0xe0 => (Mnemonic::CPX, AddressingMode::IMM, 2, 2),
        0xe1 => (Mnemonic::SBC, AddressingMode::IDX, 2, 6),
        0xe4 => (Mnemonic::CPX, AddressingMode::ZPG, 2, 3),
        0xe5 => (Mnemonic::SBC, AddressingMode::ZPG, 2, 3),
        0xe6 => (Mnemonic::INC, AddressingMode::ZPG, 2, 5),
        0xe8 => (Mnemonic::INX, AddressingMode::IMP, 1, 2),
        0xe9 => (Mnemonic::SBC, AddressingMode::IMM, 2, 2),
        0xea => (Mnemonic::NOP, AddressingMode::IMP, 1, 2),
        0xec => (Mnemonic::CPX, AddressingMode::ABS, 3, 4),
        0xed => (Mnemonic::SBC, AddressingMode::ABS, 3, 4),
        0xee => (Mnemonic::INC, AddressingMode::ABS, 3, 6),
        0xf0 => (Mnemonic::BEQ, AddressingMode::REL, 2, 2),
        0xf1 => (Mnemonic::SBC, AddressingMode::IDY, 2, 5),
        0xf5 => (Mnemonic::SBC, AddressingMode::ZPX, 2, 4),
        0xf6 => (Mnemonic::INC, AddressingMode::ZPX, 2, 6),
        0xf8 => (Mnemonic::SED, AddressingMode::IMP, 1, 2),
        0xf9 => (Mnemonic::SBC, AddressingMode::ABY, 3, 4),
        0xfd => (Mnemonic::SBC, AddressingMode::ABX, 3, 4),
        0xfe => (Mnemonic::INC, AddressingMode::ABX, 3, 7),
        _ => (Mnemonic::UNKNOWN, AddressingMode::UNKNOWN, 1, UNKNOWN_CYCLES),
    }
}

/// The instruction that `opcode` encodes, according to the reference table.
pub open spec fn decoded(opcode: u8) -> Instruction {
    let (mnemonic, mode, length, cycles) = reference_entry(opcode);
    Instruction { opcode, mnemonic, mode, length, cycles }
}

/// Whether `opcode` is one of the documented opcodes.
pub open spec fn is_documented(opcode: u8) -> bool {
    decoded(opcode).mnemonic != Mnemonic::UNKNOWN
}

/// Every entry of the table is as long as its mode says: the opcode plus its operand bytes.
pub proof fn lemma_length_matches_mode(opcode: u8)
    ensures
        decoded(opcode).length == 1 + operand_bytes(decoded(opcode).mode),
        1 <= decoded(opcode).length <= 3,
        decoded(opcode).mode == AddressingMode::UNKNOWN <==> !is_documented(opcode),
{
}

impl Instruction {
    fn new(opcode: u8, mnemonic: Mnemonic, mode: AddressingMode, length: u8, cycles: u8) -> (r:
        Instruction)
        ensures
            r == (Instruction { opcode, mnemonic, mode, length, cycles }),
    {
        Instruction { opcode, mnemonic, mode, length, cycles }
    }
}

/// Decodes one opcode byte. Total: a byte that encodes no documented instruction
/// yields the `UNKNOWN` instruction, one byte long.
pub fn decode(opcode: u8) -> (r: Instruction)
    ensures
        r == decoded(opcode),
        r.opcode == opcode,
        r.length == 1 + operand_bytes(r.mode),
{
    let (mnemonic, mode, length, cycles) = match opcode {
        0x00 => (Mnemonic::BRK, AddressingMode::IMP, 1u8, 7u8),
        0x01 => (Mnemonic::ORA, AddressingMode::IDX, 2u8, 6u8),
        0x05 => (Mnemonic::ORA, AddressingMode::ZPG, 2u8, 3u8),
        0x06 => (Mnemonic::ASL, AddressingMode::ZPG, 2u8, 5u8),
        0x08 => (Mnemonic::PHP, AddressingMode::IMP, 1u8, 3u8),
        0x09 => (Mnemonic::ORA, AddressingMode::IMM, 2u8, 2u8),
        0x0a => (Mnemonic::ASL, AddressingMode::ACC, 1u8, 2u8),
        0x0d => (Mnemonic::ORA, AddressingMode::ABS, 3u8, 4u8),
        0x0e => (Mnemonic::ASL, AddressingMode::ABS, 3u8, 6u8),
        0x10 => (Mnemonic::BPL, AddressingMode::REL, 2u8, 2u8),
        0x11 => (Mnemonic::ORA, AddressingMode::IDY, 2u8, 5u8),
        0x15 => (Mnemonic::ORA, AddressingMode::ZPX, 2u8, 4u8),
        0x16 => (Mnemonic::ASL, AddressingMode::ZPX, 2u8, 6u8),
        0x18 => (Mnemonic::CLC, AddressingMode::IMP, 1u8, 2u8),
        0x19 => (Mnemonic::ORA, AddressingMode::ABY, 3u8, 4u8),
        0x1d => (Mnemonic::ORA, AddressingMode::ABX, 3u8, 4u8),
        0x1e => (Mnemonic::ASL, AddressingMode::ABX, 3u8, 7u8),
        0x20 => (Mnemonic::JSR, AddressingMode::ABS, 3u8, 6u8),
        0x21 => (Mnemonic::AND, AddressingMode::IDX, 2u8, 6u8),
        0x24 => (Mnemonic::BIT, AddressingMode::ZPG, 2u8, 3u8),
        0x25 => (Mnemonic::AND, AddressingMode::ZPG, 2u8, 3u8),
        0x26 => (Mnemonic::ROL, AddressingMode::ZPG, 2u8, 5u8),
        0x28 => (Mnemonic::PLP, AddressingMode::IMP, 1u8, 4u8),
        0x29 => (Mnemonic::AND, AddressingMode::IMM, 2u8, 2u8),
        0x2a => (Mnemonic::ROL, AddressingMode::ACC, 1u8, 2u8),
        0x2c => (Mnemonic::BIT, AddressingMode::ABS, 3u8, 4u8),
        0x2d => (Mnemonic::AND, AddressingMode::ABS, 3u8, 4u8),
        0x2e => (Mnemonic::ROL, AddressingMode::ABS, 3u8, 6u8),
        0x30 => (Mnemonic::BMI, AddressingMode::REL, 2u8, 2u8),
        0x31 => (Mnemonic::AND, AddressingMode::IDY, 2u8, 5u8),
        0x35 => (Mnemonic::AND, AddressingMode::ZPX, 2u8, 4u8),
        0x36 => (Mnemonic::ROL, AddressingMode::ZPX, 2u8, 6u8),
        0x38 => (Mnemonic::SEC, AddressingMode::IMP, 1u8, 2u8),
        0x39 => (Mnemonic::AND, AddressingMode::ABY, 3u8, 4u8),
        0x3d => (Mnemonic::AND, AddressingMode::ABX, 3u8, 4u8),
        0x3e => (Mnemonic::ROL, AddressingMode::ABX, 3u8, 7u8),
        0x40 => (Mnemonic::RTI, AddressingMode::IMP, 1u8, 6u8),
        0x41 => (Mnemonic::EOR, AddressingMode::IDX, 2u8, 6u8),
        0x45 => (Mnemonic::EOR, AddressingMode::ZPG, 2u8, 3u8),
        0x46 => (Mnemonic::LSR, AddressingMode::ZPG, 2u8, 5u8),
        0x48 => (Mnemonic::PHA, AddressingMode::IMP, 1u8, 3u8),
        0x49 => (Mnemonic::EOR, AddressingMode::IMM, 2u8, 2u8),
        0x4a => (Mnemonic::LSR, AddressingMode::ACC, 1u8, 2u8),
        0x4c => (Mnemonic::JMP, AddressingMode::ABS, 3u8, 3u8),
        0x4d => (Mnemonic::EOR, AddressingMode::ABS, 3u8, 4u8),
        0x4e => (Mnemonic::LSR, AddressingMode::ABS, 3u8, 6u8),
        0x50 => (Mnemonic::BVC, AddressingMode::REL, 2u8, 2u8),
        0x51 => (Mnemonic::EOR, AddressingMode::IDY, 2u8, 5u8),
        0x55 => (Mnemonic::EOR, AddressingMode::ZPX, 2u8, 4u8),
        0x56 => (Mnemonic::LSR, AddressingMode::ZPX, 2u8, 6u8),
        0x58 => (Mnemonic::CLI, AddressingMode::IMP, 1u8, 2u8),
        0x59 => (Mnemonic::EOR, AddressingMode::ABY, 3u8, 4u8),
        0x5d => (Mnemonic::EOR, AddressingMode::ABX, 3u8, 4u8),
        0x5e => (Mnemonic::LSR, AddressingMode::ABX, 3u8, 7u8),
        0x60 => (Mnemonic::RTS, AddressingMode::IMP, 1u8, 6u8),
        0x61 => (Mnemonic::ADC, AddressingMode::IDX, 2u8, 6u8),
        0x65 => (Mnemonic::ADC, AddressingMode::ZPG, 2u8, 3u8),
        0x66 => (Mnemonic::ROR, AddressingMode::ZPG, 2u8, 5u8),
        0x68 => (Mnemonic::PLA, AddressingMode::IMP, 1u8, 4u8),
        0x69 => (Mnemonic::ADC, AddressingMode::IMM, 2u8, 2u8),
        0x6a => (Mnemonic::ROR, AddressingMode::ACC, 1u8, 2u8),
        0x6c => (Mnemonic::JMP, AddressingMode::IND, 3u8, 5u8),
        0x6d => (Mnemonic::ADC, AddressingMode::ABS, 3u8, 4u8),
        0x6e => (Mnemonic::ROR, AddressingMode::ABS, 3u8, 6u8),
        0x70 => (Mnemonic::BVS, AddressingMode::REL, 2u8, 2u8),
        0x71 => (Mnemonic::ADC, AddressingMode::IDY, 2u8, 5u8),
        0x75 => (Mnemonic::ADC, AddressingMode::ZPX, 2u8, 4u8),
        0x76 => (Mnemonic::ROR, AddressingMode::ZPX, 2u8, 6u8),
        0x78 => (Mnemonic::SEI, AddressingMode::IMP, 1u8, 2u8),
        0x79 => (Mnemonic::ADC, AddressingMode::ABY, 3u8, 4u8),
        0x7d => (Mnemonic::ADC, AddressingMode::ABX, 3u8, 4u8),
        0x7e => (Mnemonic::ROR, AddressingMode::ABX, 3u8, 7u8),
        0x81 => (Mnemonic::STA, AddressingMode::IDX, 2u8, 6u8),
        0x84 => (Mnemonic::STY, AddressingMode::ZPG, 2u8, 3u8),
        0x85 => (Mnemonic::STA, AddressingMode::ZPG, 2u8, 3u8),
        0x86 => (Mnemonic::STX, AddressingMode::ZPG, 2u8, 3u8),
        0x88 => (Mnemonic::DEY, AddressingMode::IMP, 1u8, 2u8),
        0x8a => (Mnemonic::TXA, AddressingMode::IMP, 1u8, 2u8),
        0x8c => (Mnemonic::STY, AddressingMode::ABS, 3u8, 4u8),
        0x8d => (Mnemonic::STA, AddressingMode::ABS, 3u8, 4u8),
        0x8e => (Mnemonic::STX, AddressingMode::ABS, 3u8, 4u8),
        0x90 => (Mnemonic::BCC, AddressingMode::REL, 2u8, 2u8),
        0x91 => (Mnemonic::STA, AddressingMode::IDY, 2u8, 6u8),
        0x94 => (Mnemonic::STY, AddressingMode::ZPX, 2u8, 4u8),
        0x95 => (Mnemonic::STA, AddressingMode::ZPX, 2u8, 4u8),
        0x96 => (Mnemonic::STX, AddressingMode::ZPY, 2u8, 4u8),
        0x98 => (Mnemonic::TYA, AddressingMode::IMP, 1u8, 2u8),
        0x99 => (Mnemonic::STA, AddressingMode::ABY, 3u8, 5u8),
        0x9a => (Mnemonic::TXS, AddressingMode::IMP, 1u8, 2u8),
        0x9d => (Mnemonic::STA, AddressingMode::ABX, 3u8, 5u8),
        0xa0 => (Mnemonic::LDY, AddressingMode::IMM, 2u8, 2u8),
        0xa1 => (Mnemonic::LDA, AddressingMode::IDX, 2u8, 6u8),
        0xa2 => (Mnemonic::LDX, AddressingMode::IMM, 2u8, 2u8),
        0xa4 => (Mnemonic::LDY, AddressingMode::ZPG, 2u8, 3u8),
        0xa5 => (Mnemonic::LDA, AddressingMode::ZPG, 2u8, 3u8),
        0xa6 => (Mnemonic::LDX, AddressingMode::ZPG, 2u8, 3u8),
        0xa8 => (Mnemonic::TAY, AddressingMode::IMP, 1u8, 2u8),
        0xa9 => (Mnemonic::LDA, AddressingMode::IMM, 2u8, 2u8),
        0xaa => (Mnemonic::TAX, AddressingMode::IMP, 1u8, 2u8),
        0xac => (Mnemonic::LDY, AddressingMode::ABS, 3u8, 4u8),
        0xad => (Mnemonic::LDA, AddressingMode::ABS, 3u8, 4u8),
        0xae => (Mnemonic::LDX, AddressingMode::ABS, 3u8, 4u8),
        0xb0 => (Mnemonic::BCS, AddressingMode::REL, 2u8, 2u8),
        0xb1 => (Mnemonic::LDA, AddressingMode::IDY, 2u8, 5u8),
        0xb4 => (Mnemonic::LDY, AddressingMode::ZPX, 2u8, 4u8),
        0xb5 => (Mnemonic::LDA, AddressingMode::ZPX, 2u8, 4u8),
        0xb6 => (Mnemonic::LDX, AddressingMode::ZPY, 2u8, 4u8),
        0xb8 => (Mnemonic::CLV, AddressingMode::IMP, 1u8, 2u8),
        0xb9 => (Mnemonic::LDA, AddressingMode::ABY, 3u8, 4u8),
        0xba => (Mnemonic::TSX, AddressingMode::IMP, 1u8, 2u8),
        0xbc => (Mnemonic::LDY, AddressingMode::ABX, 3u8, 4u8),
        0xbd => (Mnemonic::LDA, AddressingMode::ABX, 3u8, 4u8),
        0xbe => (Mnemonic::LDX, AddressingMode::ABY, 3u8, 4u8),
        0xc0 => (Mnemonic::CPY, AddressingMode::IMM, 2u8, 2u8),
        0xc1 => (Mnemonic::CMP, AddressingMode::IDX, 2u8, 6u8),
        0xc4 => (Mnemonic::CPY, AddressingMode::ZPG, 2u8, 3u8),
        0xc5 => (Mnemonic::CMP, AddressingMode::ZPG, 2u8, 3u8),
        0xc6 => (Mnemonic::DEC, AddressingMode::ZPG, 2u8, 5u8),
        0xc8 => (Mnemonic::INY, AddressingMode::IMP, 1u8, 2u8),
        0xc9 => (Mnemonic::CMP, AddressingMode::IMM, 2u8, 2u8),
        0xca => (Mnemonic::DEX, AddressingMode::IMP, 1u8, 2u8),
        0xcc => (Mnemonic::CPY, AddressingMode::ABS, 3u8, 4u8),
        0xcd => (Mnemonic::CMP, AddressingMode::ABS, 3u8, 4u8),
        0xce => (Mnemonic::DEC, AddressingMode::ABS, 3u8, 6u8),
        0xd0 => (Mnemonic::BNE, AddressingMode::REL, 2u8, 2u8),
        0xd1 => (Mnemonic::CMP, AddressingMode::IDY, 2u8, 5u8),
        0xd5 => (Mnemonic::CMP, AddressingMode::ZPX, 2u8, 4u8),
        0xd6 => (Mnemonic::DEC, AddressingMode::ZPX, 2u8, 6u8),
        0xd8 => (Mnemonic::CLD, AddressingMode::IMP, 1u8, 2u8),
        0xd9 => (Mnemonic::CMP, AddressingMode::ABY, 3u8, 4u8),
        0xdd => (Mnemonic::CMP, AddressingMode::ABX, 3u8, 4u8),
        0xde => (Mnemonic::DEC, AddressingMode::ABX, 3u8, 7u8),
        0xe0 => (Mnemonic::CPX, AddressingMode::IMM, 2u8, 2u8),
        0xe1 => (Mnemonic::SBC, AddressingMode::IDX, 2u8, 6u8),
        0xe4 => (Mnemonic::CPX, AddressingMode::ZPG, 2u8, 3u8),
        0xe5 => (Mnemonic::SBC, AddressingMode::ZPG, 2u8, 3u8),
        0xe6 => (Mnemonic::INC, AddressingMode::ZPG, 2u8, 5u8),
        0xe8 => (Mnemonic::INX, AddressingMode::IMP, 1u8, 2u8),
        0xe9 => (Mnemonic::SBC, AddressingMode::IMM, 2u8, 2u8),
        0xea => (Mnemonic::NOP, AddressingMode::IMP, 1u8, 2u8),
        0xec => (Mnemonic::CPX, AddressingMode::ABS, 3u8, 4u8),
        0xed => (Mnemonic::SBC, AddressingMode::ABS, 3u8, 4u8),
        0xee => (Mnemonic::INC, AddressingMode::ABS, 3u8, 6u8),
        0xf0 => (Mnemonic::BEQ, AddressingMode::REL, 2u8, 2u8),
        0xf1 => (Mnemonic::SBC, AddressingMode::IDY, 2u8, 5u8),
        0xf5 => (Mnemonic::SBC, AddressingMode::ZPX, 2u8, 4u8),
        0xf6 => (Mnemonic::INC, AddressingMode::ZPX, 2u8, 6u8),
        0xf8 => (Mnemonic::SED, AddressingMode::IMP, 1u8, 2u8),
        0xf9 => (Mnemonic::SBC, AddressingMode::ABY, 3u8, 4u8),
        0xfd => (Mnemonic::SBC, AddressingMode::ABX, 3u8, 4u8),
        0xfe => (Mnemonic::INC, AddressingMode::ABX, 3u8, 7u8),
        _ => (Mnemonic::UNKNOWN, AddressingMode::UNKNOWN, 1u8, UNKNOWN_CYCLES),
    };
    Instruction::new(opcode, mnemonic, mode, length, cycles)
}

} // verus!
