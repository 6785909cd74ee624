use crate::error::AsmError;
use vstd::prelude::*;

verus! {

/// The closed set of 6502 mnemonics this assembler knows.
#[derive(Debug, Clone, Copy, PartialEq, Eq, Hash, Structural)]
pub enum InstructionCode {
    LDA,
    LDX,
    LDY,
    STA,
    STX,
    STY,
    ADC,
    SBC,
    INC,
    INX,
    INY,
    DEC,
    DEX,
    DEY,
    AND,
    ORA,
    EOR,
    JMP,
    BCC,
    BCS,
    BEQ,
    BNE,
    BMI,
    BPL,
    BVS,
    BVC,
    CMP,
    CPX,
    CPY,
    BIT,
    ASL,
    LSR,
    ROL,
    ROR,
    TSX,
    TXS,
    PHA,
    PHP,
    PLA,
    PLP,
    JSR,
    RTS,
    RTI,
    CLC,
    CLD,
    CLI,
    CLV,
    SEC,
    SED,
    SEI,
    NOP,
    BRK,
}

/// One of the 13 addressing-mode categories, with the operand payload
/// stripped away: exactly the information that selects an opcode and an
/// operand byte-length.
#[allow(non_camel_case_types)]
#[derive(Debug, Clone, Copy, PartialEq, Eq, Hash, Structural)]
pub enum AddressModeIndexer {
    ACCUMULATOR,
    IMPLIED,
    IMMEDIATE,
    ABSOLUTE,
    ZERO_PAGE,
    RELATIVE,
    ABSOLUTE_INDIRECT,
    ABS_X,
    ABS_Y,
    ZP_X,
    ZP_Y,
    INDEX_IND,
    IND_INDEX,
}

/// The conditional-branch family: these mnemonics always take a relative
/// displacement, never a zero-page address.
pub open spec fn is_branch(code: InstructionCode) -> bool {
    matches!(
        code,
        InstructionCode::BCC | InstructionCode::BCS | InstructionCode::BEQ
            | InstructionCode::BMI | InstructionCode::BNE | InstructionCode::BPL
            | InstructionCode::BVC | InstructionCode::BVS,
    )
}

/// The shift/rotate family: with no operand these act on the accumulator
/// rather than being implied-mode instructions.
pub open spec fn is_shift(code: InstructionCode) -> bool {
    matches!(
        code,
        InstructionCode::ASL | InstructionCode::LSR | InstructionCode::ROL
            | InstructionCode::ROR,
    )
}

/// Executable test for the conditional-branch family.
pub fn is_branch_instruction(code: InstructionCode) -> (b: bool)
    ensures
        b == is_branch(code),
{
    matches!(
        code,
        InstructionCode::BCC | InstructionCode::BCS | InstructionCode::BEQ
            | InstructionCode::BMI | InstructionCode::BNE | InstructionCode::BPL
            | InstructionCode::BVC | InstructionCode::BVS,
    )
}

/// Executable test for the shift/rotate family.
pub fn is_shift_instruction(code: InstructionCode) -> (b: bool)
    ensures
        b == is_shift(code),
{
    matches!(
        code,
        InstructionCode::ASL | InstructionCode::LSR | InstructionCode::ROL
            | InstructionCode::ROR,
    )
}

/// How many operand bytes follow the opcode byte in each addressing mode.
pub open spec fn spec_operand_length(mode: AddressModeIndexer) -> nat {
    match mode {
        AddressModeIndexer::ACCUMULATOR => 0,
        AddressModeIndexer::IMPLIED => 0,
        AddressModeIndexer::IMMEDIATE => 1,
        AddressModeIndexer::ZERO_PAGE => 1,
        AddressModeIndexer::RELATIVE => 1,
        AddressModeIndexer::ZP_X => 1,
        AddressModeIndexer::ZP_Y => 1,
        AddressModeIndexer::INDEX_IND => 1,
        AddressModeIndexer::IND_INDEX => 1,
        AddressModeIndexer::ABSOLUTE => 2,
        AddressModeIndexer::ABS_X => 2,
        AddressModeIndexer::ABS_Y => 2,
        AddressModeIndexer::ABSOLUTE_INDIRECT => 2,
    }
}

/// The number of operand bytes (0, 1 or 2) for an addressing mode: a pure
/// function of the mode alone.
pub fn operand_length(mode: AddressModeIndexer) -> (n: usize)
    ensures
        n == spec_operand_length(mode),
{
    match mode {
        AddressModeIndexer::ACCUMULATOR => 0,
        AddressModeIndexer::IMPLIED => 0,
        AddressModeIndexer::IMMEDIATE => 1,
        AddressModeIndexer::ZERO_PAGE => 1,
        AddressModeIndexer::RELATIVE => 1,
        AddressModeIndexer::ZP_X => 1,
        AddressModeIndexer::ZP_Y => 1,
        AddressModeIndexer::INDEX_IND => 1,
        AddressModeIndexer::IND_INDEX => 1,
        AddressModeIndexer::ABSOLUTE => 2,
        AddressModeIndexer::ABS_X => 2,
        AddressModeIndexer::ABS_Y => 2,
        AddressModeIndexer::ABSOLUTE_INDIRECT => 2,
    }
}

/// The 6502 opcode map: every legal (mnemonic, addressing mode) pair has
/// exactly one opcode byte; every other pair is absent.
pub open spec fn spec_opcode(code: InstructionCode, mode: AddressModeIndexer) -> Option<u8> {
    match (code, mode) {
        (InstructionCode::LDA, AddressModeIndexer::IMMEDIATE) => Some(0xA9u8),
        (InstructionCode::LDA, AddressModeIndexer::ZERO_PAGE) => Some(0xA5u8),
        (InstructionCode::LDA, AddressModeIndexer::ZP_X) => Some(0xB5u8),
        (InstructionCode::LDA, AddressModeIndexer::ABSOLUTE) => Some(0xADu8),
        (InstructionCode::LDA, AddressModeIndexer::ABS_X) => Some(0xBDu8),
        (InstructionCode::LDA, AddressModeIndexer::ABS_Y) => Some(0xB9u8),
        (InstructionCode::LDA, AddressModeIndexer::INDEX_IND) => Some(0xA1u8),
        (InstructionCode::LDA, AddressModeIndexer::IND_INDEX) => Some(0xB1u8),
        (InstructionCode::LDX, AddressModeIndexer::IMMEDIATE) => Some(0xA2u8),
        (InstructionCode::LDX, AddressModeIndexer::ZERO_PAGE) => Some(0xA6u8),
        (InstructionCode::LDX, AddressModeIndexer::ZP_Y) => Some(0xB6u8),
        (InstructionCode::LDX, AddressModeIndexer::ABSOLUTE) => Some(0xAEu8),
        (InstructionCode::LDX, AddressModeIndexer::ABS_Y) => Some(0xBEu8),
        (InstructionCode::LDY, AddressModeIndexer::IMMEDIATE) => Some(0xA0u8),
        (InstructionCode::LDY, AddressModeIndexer::ZERO_PAGE) => Some(0xA4u8),
        (InstructionCode::LDY, AddressModeIndexer::ZP_X) => Some(0xB4u8),
        (InstructionCode::LDY, AddressModeIndexer::ABSOLUTE) => Some(0xACu8),
        (InstructionCode::LDY, AddressModeIndexer::ABS_X) => Some(0xBCu8),
        (InstructionCode::STA, AddressModeIndexer::ZERO_PAGE) => Some(0x85u8),
        (InstructionCode::STA, AddressModeIndexer::ZP_X) => Some(0x95u8),
        (InstructionCode::STA, AddressModeIndexer::ABSOLUTE) => Some(0x8Du8),
        (InstructionCode::STA, AddressModeIndexer::ABS_X) => Some(0x9Du8),
        (InstructionCode::STA, AddressModeIndexer::ABS_Y) => Some(0x99u8),
        (InstructionCode::STA, AddressModeIndexer::INDEX_IND) => Some(0x81u8),
        (InstructionCode::STA, AddressModeIndexer::IND_INDEX) => Some(0x91u8),
        (InstructionCode::STX, AddressModeIndexer::ZERO_PAGE) => Some(0x86u8),
        (InstructionCode::STX, AddressModeIndexer::ZP_Y) => Some(0x96u8),
        (InstructionCode::STX, AddressModeIndexer::ABSOLUTE) => Some(0x8Eu8),
        (InstructionCode::STY, AddressModeIndexer::ZERO_PAGE) => Some(0x84u8),
        (InstructionCode::STY, AddressModeIndexer::ZP_X) => Some(0x94u8),
        (InstructionCode::STY, AddressModeIndexer::ABSOLUTE) => Some(0x8Cu8),
        (InstructionCode::ADC, AddressModeIndexer::IMMEDIATE) => Some(0x69u8),
        (InstructionCode::ADC, AddressModeIndexer::ZERO_PAGE) => Some(0x65u8),
        (InstructionCode::ADC, AddressModeIndexer::ZP_X) => Some(0x75u8),
        (InstructionCode::ADC, AddressModeIndexer::ABSOLUTE) => Some(0x6Du8),
        (InstructionCode::ADC, AddressModeIndexer::ABS_X) => Some(0x7Du8),
        (InstructionCode::ADC, AddressModeIndexer::ABS_Y) => Some(0x79u8),
        (InstructionCode::ADC, AddressModeIndexer::INDEX_IND) => Some(0x61u8),
        (InstructionCode::ADC, AddressModeIndexer::IND_INDEX) => Some(0x71u8),
        (InstructionCode::SBC, AddressModeIndexer::IMMEDIATE) => Some(0xE9u8),
        (InstructionCode::SBC, AddressModeIndexer::ZERO_PAGE) => Some(0xE5u8),
        (InstructionCode::SBC, AddressModeIndexer::ZP_X) => Some(0xF5u8),
        (InstructionCode::SBC, AddressModeIndexer::ABSOLUTE) => Some(0xEDu8),
        (InstructionCode::SBC, AddressModeIndexer::ABS_X) => Some(0xFDu8),
        (InstructionCode::SBC, AddressModeIndexer::ABS_Y) => Some(0xF9u8),
        (InstructionCode::SBC, AddressModeIndexer::INDEX_IND) => Some(0xE1u8),
        (InstructionCode::SBC, AddressModeIndexer::IND_INDEX) => Some(0xF1u8),
        (InstructionCode::INC, AddressModeIndexer::ZERO_PAGE) => Some(0xE6u8),
        (InstructionCode::INC, AddressModeIndexer::ZP_X) => Some(0xF6u8),
        (InstructionCode::INC, AddressModeIndexer::ABSOLUTE) => Some(0xEEu8),
        (InstructionCode::INC, AddressModeIndexer::ABS_X) => Some(0xFEu8),
        (InstructionCode::INX, AddressModeIndexer::IMPLIED) => Some(0xE8u8),
        (InstructionCode::INY, AddressModeIndexer::IMPLIED) => Some(0xC8u8),
        (InstructionCode::DEC, AddressModeIndexer::ZERO_PAGE) => Some(0xC6u8),
        (InstructionCode::DEC, AddressModeIndexer::ZP_X) => Some(0xD6u8),
        (InstructionCode::DEC, AddressModeIndexer::ABSOLUTE) => Some(0xCEu8),
        (InstructionCode::DEC, AddressModeIndexer::ABS_X) => Some(0xDEu8),
        (InstructionCode::DEX, AddressModeIndexer::IMPLIED) => Some(0xCAu8),
        (InstructionCode::DEY, AddressModeIndexer::IMPLIED) => Some(0x88u8),
        (InstructionCode::AND, AddressModeIndexer::IMMEDIATE) => Some(0x29u8),
        (InstructionCode::AND, AddressModeIndexer::ZERO_PAGE) => Some(0x25u8),
        (InstructionCode::AND, AddressModeIndexer::ZP_X) => Some(0x35u8),
        (InstructionCode::AND, AddressModeIndexer::ABSOLUTE) => Some(0x2Du8),
        (InstructionCode::AND, AddressModeIndexer::ABS_X) => Some(0x3Du8),
        (InstructionCode::AND, AddressModeIndexer::ABS_Y) => Some(0x39u8),
        (InstructionCode::AND, AddressModeIndexer::INDEX_IND) => Some(0x21u8),
        (InstructionCode::AND, AddressModeIndexer::IND_INDEX) => Some(0x31u8),
        (InstructionCode::ORA, AddressModeIndexer::IMMEDIATE) => Some(0x09u8),
        (InstructionCode::ORA, AddressModeIndexer::ZERO_PAGE) => Some(0x05u8),
        (InstructionCode::ORA, AddressModeIndexer::ZP_X) => Some(0x15u8),
        (InstructionCode::ORA, AddressModeIndexer::ABSOLUTE) => Some(0x0Du8),
        (InstructionCode::ORA, AddressModeIndexer::ABS_X) => Some(0x1Du8),
        (InstructionCode::ORA, AddressModeIndexer::ABS_Y) => Some(0x19u8),
        (InstructionCode::ORA, AddressModeIndexer::INDEX_IND) => Some(0x01u8),
        (InstructionCode::ORA, AddressModeIndexer::IND_INDEX) => Some(0x11u8),
        (InstructionCode::EOR, AddressModeIndexer::IMMEDIATE) => Some(0x49u8),
        (InstructionCode::EOR, AddressModeIndexer::ZERO_PAGE) => Some(0x45u8),
        (InstructionCode::EOR, AddressModeIndexer::ZP_X) => Some(0x55u8),
        (InstructionCode::EOR, AddressModeIndexer::ABSOLUTE) => Some(0x4Du8),
        (InstructionCode::EOR, AddressModeIndexer::ABS_X) => Some(0x5Du8),
        (InstructionCode::EOR, AddressModeIndexer::ABS_Y) => Some(0x59u8),
        (InstructionCode::EOR, AddressModeIndexer::INDEX_IND) => Some(0x41u8),
        (InstructionCode::EOR, AddressModeIndexer::IND_INDEX) => Some(0x51u8),
        (InstructionCode::JMP, AddressModeIndexer::ABSOLUTE) => Some(0x4Cu8),
        (InstructionCode::JMP, AddressModeIndexer::ABSOLUTE_INDIRECT) => Some(0x6Cu8),
        (InstructionCode::BPL, AddressModeIndexer::RELATIVE) => Some(0x10u8),
        (InstructionCode::BMI, AddressModeIndexer::RELATIVE) => Some(0x30u8),
        (InstructionCode::BVC, AddressModeIndexer::RELATIVE) => Some(0x50u8),
        (InstructionCode::BVS, AddressModeIndexer::RELATIVE) => Some(0x70u8),
        (InstructionCode::BCC, AddressModeIndexer::RELATIVE) => Some(0x90u8),
        (InstructionCode::BCS, AddressModeIndexer::RELATIVE) => Some(0xB0u8),
        (InstructionCode::BNE, AddressModeIndexer::RELATIVE) => Some(0xD0u8),
        (InstructionCode::BEQ, AddressModeIndexer::RELATIVE) => Some(0xF0u8),
        (InstructionCode::CMP, AddressModeIndexer::IMMEDIATE) => Some(0xC9u8),
        (InstructionCode::CMP, AddressModeIndexer::ZERO_PAGE) => Some(0xC5u8),
        (InstructionCode::CMP, AddressModeIndexer::ZP_X) => Some(0xD5u8),
        (InstructionCode::CMP, AddressModeIndexer::ABSOLUTE) => Some(0xCDu8),
        (InstructionCode::CMP, AddressModeIndexer::ABS_X) => Some(0xDDu8),
        (InstructionCode::CMP, AddressModeIndexer::ABS_Y) => Some(0xD9u8),
        (InstructionCode::CMP, AddressModeIndexer::INDEX_IND) => Some(0xC1u8),
        (InstructionCode::CMP, AddressModeIndexer::IND_INDEX) => Some(0xD1u8),
        (InstructionCode::CPX, AddressModeIndexer::IMMEDIATE) => Some(0xE0u8),
        (InstructionCode::CPX, AddressModeIndexer::ZERO_PAGE) => Some(0xE4u8),
        (InstructionCode::CPX, AddressModeIndexer::ABSOLUTE) => Some(0xECu8),
        (InstructionCode::CPY, AddressModeIndexer::IMMEDIATE) => Some(0xC0u8),
        (InstructionCode::CPY, AddressModeIndexer::ZERO_PAGE) => Some(0xC4u8),
        (InstructionCode::CPY, AddressModeIndexer::ABSOLUTE) => Some(0xCCu8),
        (InstructionCode::BIT, AddressModeIndexer::ZERO_PAGE) => Some(0x24u8),
        (InstructionCode::BIT, AddressModeIndexer::ABSOLUTE) => Some(0x2Cu8),
        (InstructionCode::ASL, AddressModeIndexer::ACCUMULATOR) => Some(0x0Au8),
        (InstructionCode::ASL, AddressModeIndexer::ZERO_PAGE) => Some(0x06u8),
        (InstructionCode::ASL, AddressModeIndexer::ZP_X) => Some(0x16u8),
        (InstructionCode::ASL, AddressModeIndexer::ABSOLUTE) => Some(0x0Eu8),
        (InstructionCode::ASL, AddressModeIndexer::ABS_X) => Some(0x1Eu8),
        (InstructionCode::LSR, AddressModeIndexer::ACCUMULATOR) => Some(0x4Au8),
        (InstructionCode::LSR, AddressModeIndexer::ZERO_PAGE) => Some(0x46u8),
        (InstructionCode::LSR, AddressModeIndexer::ZP_X) => Some(0x56u8),
        (InstructionCode::LSR, AddressModeIndexer::ABSOLUTE) => Some(0x4Eu8),
        (InstructionCode::LSR, AddressModeIndexer::ABS_X) => Some(0x5Eu8),
        (InstructionCode::ROL, AddressModeIndexer::ACCUMULATOR) => Some(0x2Au8),
        (InstructionCode::ROL, AddressModeIndexer::ZERO_PAGE) => Some(0x26u8),
        (InstructionCode::ROL, AddressModeIndexer::ZP_X) => Some(0x36u8),
        (InstructionCode::ROL, AddressModeIndexer::ABSOLUTE) => Some(0x2Eu8),
        (InstructionCode::ROL, AddressModeIndexer::ABS_X) => Some(0x3Eu8),
        (InstructionCode::ROR, AddressModeIndexer::ACCUMULATOR) => Some(0x6Au8),
        (InstructionCode::ROR, AddressModeIndexer::ZERO_PAGE) => Some(0x66u8),
        (InstructionCode::ROR, AddressModeIndexer::ZP_X) => Some(0x76u8),
        (InstructionCode::ROR, AddressModeIndexer::ABSOLUTE) => Some(0x6Eu8),
        (InstructionCode::ROR, AddressModeIndexer::ABS_X) => Some(0x7Eu8),
        (InstructionCode::TSX, AddressModeIndexer::IMPLIED) => Some(0xBAu8),
        (InstructionCode::TXS, AddressModeIndexer::IMPLIED) => Some(0x9Au8),
        (InstructionCode::PHA, AddressModeIndexer::IMPLIED) => Some(0x48u8),
        (InstructionCode::PHP, AddressModeIndexer::IMPLIED) => Some(0x08u8),
        (InstructionCode::PLA, AddressModeIndexer::IMPLIED) => Some(0x68u8),
        (InstructionCode::PLP, AddressModeIndexer::IMPLIED) => Some(0x28u8),
        (InstructionCode::JSR, AddressModeIndexer::ABSOLUTE) => Some(0x20u8),
        (InstructionCode::RTS, AddressModeIndexer::IMPLIED) => Some(0x60u8),
        (InstructionCode::RTI, AddressModeIndexer::IMPLIED) => Some(0x40u8),
        (InstructionCode::CLC, AddressModeIndexer::IMPLIED) => Some(0x18u8),
        (InstructionCode::CLD, AddressModeIndexer::IMPLIED) => Some(0xD8u8),
        (InstructionCode::CLI, AddressModeIndexer::IMPLIED) => Some(0x58u8),
        (InstructionCode::CLV, AddressModeIndexer::IMPLIED) => Some(0xB8u8),
        (InstructionCode::SEC, AddressModeIndexer::IMPLIED) => Some(0x38u8),
        (InstructionCode::SED, AddressModeIndexer::IMPLIED) => Some(0xF8u8),
        (InstructionCode::SEI, AddressModeIndexer::IMPLIED) => Some(0x78u8),
        (InstructionCode::NOP, AddressModeIndexer::IMPLIED) => Some(0xEAu8),
        (InstructionCode::BRK, AddressModeIndexer::IMPLIED) => Some(0x00u8),
        _ => None,
    }
}

/// Looks a (mnemonic, mode) pair up in the opcode map.
pub fn opcode_lookup(code: InstructionCode, mode: AddressModeIndexer) -> (r: Option<u8>)
    ensures
        r == spec_opcode(code, mode),
{
    match (code, mode) {
        (InstructionCode::LDA, AddressModeIndexer::IMMEDIATE) => Some(0xA9u8),
        (InstructionCode::LDA, AddressModeIndexer::ZERO_PAGE) => Some(0xA5u8),
        (InstructionCode::LDA, AddressModeIndexer::ZP_X) => Some(0xB5u8),
        (InstructionCode::LDA, AddressModeIndexer::ABSOLUTE) => Some(0xADu8),
        (InstructionCode::LDA, AddressModeIndexer::ABS_X) => Some(0xBDu8),
        (InstructionCode::LDA, AddressModeIndexer::ABS_Y) => Some(0xB9u8),
        (InstructionCode::LDA, AddressModeIndexer::INDEX_IND) => Some(0xA1u8),
        (InstructionCode::LDA, AddressModeIndexer::IND_INDEX) => Some(0xB1u8),
        (InstructionCode::LDX, AddressModeIndexer::IMMEDIATE) => Some(0xA2u8),
        (InstructionCode::LDX, AddressModeIndexer::ZERO_PAGE) => Some(0xA6u8),
        (InstructionCode::LDX, AddressModeIndexer::ZP_Y) => Some(0xB6u8),
        (InstructionCode::LDX, AddressModeIndexer::ABSOLUTE) => Some(0xAEu8),
        (InstructionCode::LDX, AddressModeIndexer::ABS_Y) => Some(0xBEu8),
        (InstructionCode::LDY, AddressModeIndexer::IMMEDIATE) => Some(0xA0u8),
        (InstructionCode::LDY, AddressModeIndexer::ZERO_PAGE) => Some(0xA4u8),
        (InstructionCode::LDY, AddressModeIndexer::ZP_X) => Some(0xB4u8),
        (InstructionCode::LDY, AddressModeIndexer::ABSOLUTE) => Some(0xACu8),
        (InstructionCode::LDY, AddressModeIndexer::ABS_X) => Some(0xBCu8),
        (InstructionCode::STA, AddressModeIndexer::ZERO_PAGE) => Some(0x85u8),
        (InstructionCode::STA, AddressModeIndexer::ZP_X) => Some(0x95u8),
        (InstructionCode::STA, AddressModeIndexer::ABSOLUTE) => Some(0x8Du8),
        (InstructionCode::STA, AddressModeIndexer::ABS_X) => Some(0x9Du8),
        (InstructionCode::STA, AddressModeIndexer::ABS_Y) => Some(0x99u8),
        (InstructionCode::STA, AddressModeIndexer::INDEX_IND) => Some(0x81u8),
        (InstructionCode::STA, AddressModeIndexer::IND_INDEX) => Some(0x91u8),
        (InstructionCode::STX, AddressModeIndexer::ZERO_PAGE) => Some(0x86u8),
        (InstructionCode::STX, AddressModeIndexer::ZP_Y) => Some(0x96u8),
        (InstructionCode::STX, AddressModeIndexer::ABSOLUTE) => Some(0x8Eu8),
        (InstructionCode::STY, AddressModeIndexer::ZERO_PAGE) => Some(0x84u8),
        (InstructionCode::STY, AddressModeIndexer::ZP_X) => Some(0x94u8),
        (InstructionCode::STY, AddressModeIndexer::ABSOLUTE) => Some(0x8Cu8),
        (InstructionCode::ADC, AddressModeIndexer::IMMEDIATE) => Some(0x69u8),
        (InstructionCode::ADC, AddressModeIndexer::ZERO_PAGE) => Some(0x65u8),
        (InstructionCode::ADC, AddressModeIndexer::ZP_X) => Some(0x75u8),
        (InstructionCode::ADC, AddressModeIndexer::ABSOLUTE) => Some(0x6Du8),
        (InstructionCode::ADC, AddressModeIndexer::ABS_X) => Some(0x7Du8),
        (InstructionCode::ADC, AddressModeIndexer::ABS_Y) => Some(0x79u8),
        (InstructionCode::ADC, AddressModeIndexer::INDEX_IND) => Some(0x61u8),
        (InstructionCode::ADC, AddressModeIndexer::IND_INDEX) => Some(0x71u8),
        (InstructionCode::SBC, AddressModeIndexer::IMMEDIATE) => Some(0xE9u8),
        (InstructionCode::SBC, AddressModeIndexer::ZERO_PAGE) => Some(0xE5u8),
        (InstructionCode::SBC, AddressModeIndexer::ZP_X) => Some(0xF5u8),
        (InstructionCode::SBC, AddressModeIndexer::ABSOLUTE) => Some(0xEDu8),
        (InstructionCode::SBC, AddressModeIndexer::ABS_X) => Some(0xFDu8),
        (InstructionCode::SBC, AddressModeIndexer::ABS_Y) => Some(0xF9u8),
        (InstructionCode::SBC, AddressModeIndexer::INDEX_IND) => Some(0xE1u8),
        (InstructionCode::SBC, AddressModeIndexer::IND_INDEX) => Some(0xF1u8),
        (InstructionCode::INC, AddressModeIndexer::ZERO_PAGE) => Some(0xE6u8),
        (InstructionCode::INC, AddressModeIndexer::ZP_X) => Some(0xF6u8),
        (InstructionCode::INC, AddressModeIndexer::ABSOLUTE) => Some(0xEEu8),
        (InstructionCode::INC, AddressModeIndexer::ABS_X) => Some(0xFEu8),
        (InstructionCode::INX, AddressModeIndexer::IMPLIED) => Some(0xE8u8),
        (InstructionCode::INY, AddressModeIndexer::IMPLIED) => Some(0xC8u8),
        (InstructionCode::DEC, AddressModeIndexer::ZERO_PAGE) => Some(0xC6u8),
        (InstructionCode::DEC, AddressModeIndexer::ZP_X) => Some(0xD6u8),
        (InstructionCode::DEC, AddressModeIndexer::ABSOLUTE) => Some(0xCEu8),
        (InstructionCode::DEC, AddressModeIndexer::ABS_X) => Some(0xDEu8),
        (InstructionCode::DEX, AddressModeIndexer::IMPLIED) => Some(0xCAu8),
        (InstructionCode::DEY, AddressModeIndexer::IMPLIED) => Some(0x88u8),
        (InstructionCode::AND, AddressModeIndexer::IMMEDIATE) => Some(0x29u8),
        (InstructionCode::AND, AddressModeIndexer::ZERO_PAGE) => Some(0x25u8),
        (InstructionCode::AND, AddressModeIndexer::ZP_X) => Some(0x35u8),
        (InstructionCode::AND, AddressModeIndexer::ABSOLUTE) => Some(0x2Du8),
        (InstructionCode::AND, AddressModeIndexer::ABS_X) => Some(0x3Du8),
        (InstructionCode::AND, AddressModeIndexer::ABS_Y) => Some(0x39u8),
        (InstructionCode::AND, AddressModeIndexer::INDEX_IND) => Some(0x21u8),
        (InstructionCode::AND, AddressModeIndexer::IND_INDEX) => Some(0x31u8),
        (InstructionCode::ORA, AddressModeIndexer::IMMEDIATE) => Some(0x09u8),
        (InstructionCode::ORA, AddressModeIndexer::ZERO_PAGE) => Some(0x05u8),
        (InstructionCode::ORA, AddressModeIndexer::ZP_X) => Some(0x15u8),
        (InstructionCode::ORA, AddressModeIndexer::ABSOLUTE) => Some(0x0Du8),
        (InstructionCode::ORA, AddressModeIndexer::ABS_X) => Some(0x1Du8),
        (InstructionCode::ORA, AddressModeIndexer::ABS_Y) => Some(0x19u8),
        (InstructionCode::ORA, AddressModeIndexer::INDEX_IND) => Some(0x01u8),
        (InstructionCode::ORA, AddressModeIndexer::IND_INDEX) => Some(0x11u8),
        (InstructionCode::EOR, AddressModeIndexer::IMMEDIATE) => Some(0x49u8),
        (InstructionCode::EOR, AddressModeIndexer::ZERO_PAGE) => Some(0x45u8),
        (InstructionCode::EOR, AddressModeIndexer::ZP_X) => Some(0x55u8),
        (InstructionCode::EOR, AddressModeIndexer::ABSOLUTE) => Some(0x4Du8),
        (InstructionCode::EOR, AddressModeIndexer::ABS_X) => Some(0x5Du8),
        (InstructionCode::EOR, AddressModeIndexer::ABS_Y) => Some(0x59u8),
        (InstructionCode::EOR, AddressModeIndexer::INDEX_IND) => Some(0x41u8),
        (InstructionCode::EOR, AddressModeIndexer::IND_INDEX) => Some(0x51u8),
        (InstructionCode::JMP, AddressModeIndexer::ABSOLUTE) => Some(0x4Cu8),
        (InstructionCode::JMP, AddressModeIndexer::ABSOLUTE_INDIRECT) => Some(0x6Cu8),
        (InstructionCode::BPL, AddressModeIndexer::RELATIVE) => Some(0x10u8),
        (InstructionCode::BMI, AddressModeIndexer::RELATIVE) => Some(0x30u8),
        (InstructionCode::BVC, AddressModeIndexer::RELATIVE) => Some(0x50u8),
        (InstructionCode::BVS, AddressModeIndexer::RELATIVE) => Some(0x70u8),
        (InstructionCode::BCC, AddressModeIndexer::RELATIVE) => Some(0x90u8),
        (InstructionCode::BCS, AddressModeIndexer::RELATIVE) => Some(0xB0u8),
        (InstructionCode::BNE, AddressModeIndexer::RELATIVE) => Some(0xD0u8),
        (InstructionCode::BEQ, AddressModeIndexer::RELATIVE) => Some(0xF0u8),
        (InstructionCode::CMP, AddressModeIndexer::IMMEDIATE) => Some(0xC9u8),
        (InstructionCode::CMP, AddressModeIndexer::ZERO_PAGE) => Some(0xC5u8),
        (InstructionCode::CMP, AddressModeIndexer::ZP_X) => Some(0xD5u8),
        (InstructionCode::CMP, AddressModeIndexer::ABSOLUTE) => Some(0xCDu8),
        (InstructionCode::CMP, AddressModeIndexer::ABS_X) => Some(0xDDu8),
        (InstructionCode::CMP, AddressModeIndexer::ABS_Y) => Some(0xD9u8),
        (InstructionCode::CMP, AddressModeIndexer::INDEX_IND) => Some(0xC1u8),
        (InstructionCode::CMP, AddressModeIndexer::IND_INDEX) => Some(0xD1u8),
        (InstructionCode::CPX, AddressModeIndexer::IMMEDIATE) => Some(0xE0u8),
        (InstructionCode::CPX, AddressModeIndexer::ZERO_PAGE) => Some(0xE4u8),
        (InstructionCode::CPX, AddressModeIndexer::ABSOLUTE) => Some(0xECu8),
        (InstructionCode::CPY, AddressModeIndexer::IMMEDIATE) => Some(0xC0u8),
        (InstructionCode::CPY, AddressModeIndexer::ZERO_PAGE) => Some(0xC4u8),
        (InstructionCode::CPY, AddressModeIndexer::ABSOLUTE) => Some(0xCCu8),
        (InstructionCode::BIT, AddressModeIndexer::ZERO_PAGE) => Some(0x24u8),
        (InstructionCode::BIT, AddressModeIndexer::ABSOLUTE) => Some(0x2Cu8),
        (InstructionCode::ASL, AddressModeIndexer::ACCUMULATOR) => Some(0x0Au8),
        (InstructionCode::ASL, AddressModeIndexer::ZERO_PAGE) => Some(0x06u8),
        (InstructionCode::ASL, AddressModeIndexer::ZP_X) => Some(0x16u8),
        (InstructionCode::ASL, AddressModeIndexer::ABSOLUTE) => Some(0x0Eu8),
        (InstructionCode::ASL, AddressModeIndexer::ABS_X) => Some(0x1Eu8),
        (InstructionCode::LSR, AddressModeIndexer::ACCUMULATOR) => Some(0x4Au8),
        (InstructionCode::LSR, AddressModeIndexer::ZERO_PAGE) => Some(0x46u8),
        (InstructionCode::LSR, AddressModeIndexer::ZP_X) => Some(0x56u8),
        (InstructionCode::LSR, AddressModeIndexer::ABSOLUTE) => Some(0x4Eu8),
        (InstructionCode::LSR, AddressModeIndexer::ABS_X) => Some(0x5Eu8),
        (InstructionCode::ROL, AddressModeIndexer::ACCUMULATOR) => Some(0x2Au8),
        (InstructionCode::ROL, AddressModeIndexer::ZERO_PAGE) => Some(0x26u8),
        (InstructionCode::ROL, AddressModeIndexer::ZP_X) => Some(0x36u8),
        (InstructionCode::ROL, AddressModeIndexer::ABSOLUTE) => Some(0x2Eu8),
        (InstructionCode::ROL, AddressModeIndexer::ABS_X) => Some(0x3Eu8),
        (InstructionCode::ROR, AddressModeIndexer::ACCUMULATOR) => Some(0x6Au8),
        (InstructionCode::ROR, AddressModeIndexer::ZERO_PAGE) => Some(0x66u8),
        (InstructionCode::ROR, AddressModeIndexer::ZP_X) => Some(0x76u8),
        (InstructionCode::ROR, AddressModeIndexer::ABSOLUTE) => Some(0x6Eu8),
        (InstructionCode::ROR, AddressModeIndexer::ABS_X) => Some(0x7Eu8),
        (InstructionCode::TSX, AddressModeIndexer::IMPLIED) => Some(0xBAu8),
        (InstructionCode::TXS, AddressModeIndexer::IMPLIED) => Some(0x9Au8),
        (InstructionCode::PHA, AddressModeIndexer::IMPLIED) => Some(0x48u8),
        (InstructionCode::PHP, AddressModeIndexer::IMPLIED) => Some(0x08u8),
        (InstructionCode::PLA, AddressModeIndexer::IMPLIED) => Some(0x68u8),
        (InstructionCode::PLP, AddressModeIndexer::IMPLIED) => Some(0x28u8),
        (InstructionCode::JSR, AddressModeIndexer::ABSOLUTE) => Some(0x20u8),
        (InstructionCode::RTS, AddressModeIndexer::IMPLIED) => Some(0x60u8),
        (InstructionCode::RTI, AddressModeIndexer::IMPLIED) => Some(0x40u8),
        (InstructionCode::CLC, AddressModeIndexer::IMPLIED) => Some(0x18u8),
        (InstructionCode::CLD, AddressModeIndexer::IMPLIED) => Some(0xD8u8),
        (InstructionCode::CLI, AddressModeIndexer::IMPLIED) => Some(0x58u8),
        (InstructionCode::CLV, AddressModeIndexer::IMPLIED) => Some(0xB8u8),
        (InstructionCode::SEC, AddressModeIndexer::IMPLIED) => Some(0x38u8),
        (InstructionCode::SED, AddressModeIndexer::IMPLIED) => Some(0xF8u8),
        (InstructionCode::SEI, AddressModeIndexer::IMPLIED) => Some(0x78u8),
        (InstructionCode::NOP, AddressModeIndexer::IMPLIED) => Some(0xEAu8),
        (InstructionCode::BRK, AddressModeIndexer::IMPLIED) => Some(0x00u8),
        _ => None,
    }
}

/// Resolves a (mnemonic, mode) pair to its opcode byte, or reports that the
/// CPU has no such encoding.
pub fn encode(code: InstructionCode, mode: AddressModeIndexer) -> (r: Result<u8, AsmError>)
    ensures
        spec_opcode(code, mode) matches Some(b) ==> r == Ok::<u8, AsmError>(b),
        spec_opcode(code, mode) is None ==> r == Err::<u8, AsmError>(AsmError::UnsupportedEncoding),
{
    match opcode_lookup(code, mode) {
        Some(b) => Ok(b),
        None => Err(AsmError::UnsupportedEncoding),
    }
}

/// ASCII upper-casing, the only case folding the assembler needs: mnemonics
/// are matched case-insensitively.
pub open spec fn spec_upper(c: char) -> char {
    if 97 <= c as u32 && c as u32 <= 122 {
        (((c as u32) - 32) as u8) as char
    } else {
        c
    }
}

/// Upper-cases one ASCII letter; leaves every other character unchanged.
pub fn upper_char(c: char) -> (r: char)
    ensures
        r == spec_upper(c),
{
    let u = c as u32;
    if 97 <= u && u <= 122 {
        ((u - 32) as u8) as char
    } else {
        c
    }
}

/// Which mnemonic, if any, a three-letter name denotes, after upper-casing.
pub open spec fn code_of_chars(a: char, b: char, c: char) -> Option<InstructionCode> {
    match (a, b, c) {
        ('L', 'D', 'A') => Some(InstructionCode::LDA),
        ('L', 'D', 'X') => Some(InstructionCode::LDX),
        ('L', 'D', 'Y') => Some(InstructionCode::LDY),
        ('S', 'T', 'A') => Some(InstructionCode::STA),
        ('S', 'T', 'X') => Some(InstructionCode::STX),
        ('S', 'T', 'Y') => Some(InstructionCode::STY),
        ('A', 'D', 'C') => Some(InstructionCode::ADC),
        ('S', 'B', 'C') => Some(InstructionCode::SBC),
        ('I', 'N', 'C') => Some(InstructionCode::INC),
        ('I', 'N', 'X') => Some(InstructionCode::INX),
        ('I', 'N', 'Y') => Some(InstructionCode::INY),
        ('D', 'E', 'C') => Some(InstructionCode::DEC),
        ('D', 'E', 'X') => Some(InstructionCode::DEX),
        ('D', 'E', 'Y') => Some(InstructionCode::DEY),
        ('A', 'N', 'D') => Some(InstructionCode::AND),
        ('O', 'R', 'A') => Some(InstructionCode::ORA),
        ('E', 'O', 'R') => Some(InstructionCode::EOR),
        ('J', 'M', 'P') => Some(InstructionCode::JMP),
        ('B', 'C', 'C') => Some(InstructionCode::BCC),
        ('B', 'C', 'S') => Some(InstructionCode::BCS),
        ('B', 'E', 'Q') => Some(InstructionCode::BEQ),
        ('B', 'N', 'E') => Some(InstructionCode::BNE),
        ('B', 'M', 'I') => Some(InstructionCode::BMI),
        ('B', 'P', 'L') => Some(InstructionCode::BPL),
        ('B', 'V', 'S') => Some(InstructionCode::BVS),
        ('B', 'V', 'C') => Some(InstructionCode::BVC),
        ('C', 'M', 'P') => Some(InstructionCode::CMP),
        ('C', 'P', 'X') => Some(InstructionCode::CPX),
        ('C', 'P', 'Y') => Some(InstructionCode::CPY),
        ('B', 'I', 'T') => Some(InstructionCode::BIT),
        ('A', 'S', 'L') => Some(InstructionCode::ASL),
        ('L', 'S', 'R') => Some(InstructionCode::LSR),
        ('R', 'O', 'L') => Some(InstructionCode::ROL),
        ('R', 'O', 'R') => Some(InstructionCode::ROR),
        ('T', 'S', 'X') => Some(InstructionCode::TSX),
        ('T', 'X', 'S') => Some(InstructionCode::TXS),
        ('P', 'H', 'A') => Some(InstructionCode::PHA),
        ('P', 'H', 'P') => Some(InstructionCode::PHP),
        ('P', 'L', 'A') => Some(InstructionCode::PLA),
        ('P', 'L', 'P') => Some(InstructionCode::PLP),
        ('J', 'S', 'R') => Some(InstructionCode::JSR),
        ('R', 'T', 'S') => Some(InstructionCode::RTS),
        ('R', 'T', 'I') => Some(InstructionCode::RTI),
        ('C', 'L', 'C') => Some(InstructionCode::CLC),
        ('C', 'L', 'D') => Some(InstructionCode::CLD),
        ('C', 'L', 'I') => Some(InstructionCode::CLI),
        ('C', 'L', 'V') => Some(InstructionCode::CLV),
        ('S', 'E', 'C') => Some(InstructionCode::SEC),
        ('S', 'E', 'D') => Some(InstructionCode::SED),
        ('S', 'E', 'I') => Some(InstructionCode::SEI),
        ('N', 'O', 'P') => Some(InstructionCode::NOP),
        ('B', 'R', 'K') => Some(InstructionCode::BRK),
        _ => None,
    }
}

/// Which mnemonic, if any, a name denotes: three letters, case-insensitive.
pub open spec fn code_of_name(name: Seq<char>) -> Option<InstructionCode> {
    if name.len() == 3 {
        code_of_chars(spec_upper(name[0]), spec_upper(name[1]), spec_upper(name[2]))
    } else {
        None
    }
}

impl InstructionCode {
    /// Resolves a mnemonic name against the closed instruction set,
    /// case-insensitively.
    pub fn from_name(name: &str) -> (r: Option<InstructionCode>)
        ensures
            r == code_of_name(name@),
    {
        if name.unicode_len() != 3 {
            return None;
        }
        let a = upper_char(name.get_char(0));
        let b = upper_char(name.get_char(1));
        let c = upper_char(name.get_char(2));
        match (a, b, c) {
            ('L', 'D', 'A') => Some(InstructionCode::LDA),
            ('L', 'D', 'X') => Some(InstructionCode::LDX),
            ('L', 'D', 'Y') => Some(InstructionCode::LDY),
            ('S', 'T', 'A') => Some(InstructionCode::STA),
            ('S', 'T', 'X') => Some(InstructionCode::STX),
            ('S', 'T', 'Y') => Some(InstructionCode::STY),
            ('A', 'D', 'C') => Some(InstructionCode::ADC),
            ('S', 'B', 'C') => Some(InstructionCode::SBC),
            ('I', 'N', 'C') => Some(InstructionCode::INC),
            ('I', 'N', 'X') => Some(InstructionCode::INX),
            ('I', 'N', 'Y') => Some(InstructionCode::INY),
            ('D', 'E', 'C') => Some(InstructionCode::DEC),
            ('D', 'E', 'X') => Some(InstructionCode::DEX),
            ('D', 'E', 'Y') => Some(InstructionCode::DEY),
            ('A', 'N', 'D') => Some(InstructionCode::AND),
            ('O', 'R', 'A') => Some(InstructionCode::ORA),
            ('E', 'O', 'R') => Some(InstructionCode::EOR),
            ('J', 'M', 'P') => Some(InstructionCode::JMP),
            ('B', 'C', 'C') => Some(InstructionCode::BCC),
            ('B', 'C', 'S') => Some(InstructionCode::BCS),
            ('B', 'E', 'Q') => Some(InstructionCode::BEQ),
            ('B', 'N', 'E') => Some(InstructionCode::BNE),
            ('B', 'M', 'I') => Some(InstructionCode::BMI),
            ('B', 'P', 'L') => Some(InstructionCode::BPL),
            ('B', 'V', 'S') => Some(InstructionCode::BVS),
            ('B', 'V', 'C') => Some(InstructionCode::BVC),
            ('C', 'M', 'P') => Some(InstructionCode::CMP),
            ('C', 'P', 'X') => Some(InstructionCode::CPX),
            ('C', 'P', 'Y') => Some(InstructionCode::CPY),
            ('B', 'I', 'T') => Some(InstructionCode::BIT),
            ('A', 'S', 'L') => Some(InstructionCode::ASL),
            ('L', 'S', 'R') => Some(InstructionCode::LSR),
            ('R', 'O', 'L') => Some(InstructionCode::ROL),
            ('R', 'O', 'R') => Some(InstructionCode::ROR),
            ('T', 'S', 'X') => Some(InstructionCode::TSX),
            ('T', 'X', 'S') => Some(InstructionCode::TXS),
            ('P', 'H', 'A') => Some(InstructionCode::PHA),
            ('P', 'H', 'P') => Some(InstructionCode::PHP),
            ('P', 'L', 'A') => Some(InstructionCode::PLA),
            ('P', 'L', 'P') => Some(InstructionCode::PLP),
            ('J', 'S', 'R') => Some(InstructionCode::JSR),
            ('R', 'T', 'S') => Some(InstructionCode::RTS),
            ('R', 'T', 'I') => Some(InstructionCode::RTI),
            ('C', 'L', 'C') => Some(InstructionCode::CLC),
            ('C', 'L', 'D') => Some(InstructionCode::CLD),
            ('C', 'L', 'I') => Some(InstructionCode::CLI),
            ('C', 'L', 'V') => Some(InstructionCode::CLV),
            ('S', 'E', 'C') => Some(InstructionCode::SEC),
            ('S', 'E', 'D') => Some(InstructionCode::SED),
            ('S', 'E', 'I') => Some(InstructionCode::SEI),
            ('N', 'O', 'P') => Some(InstructionCode::NOP),
            ('B', 'R', 'K') => Some(InstructionCode::BRK),
            _ => None,
        }
    }
}

} // verus!
