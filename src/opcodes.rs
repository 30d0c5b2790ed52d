//! The instruction set: mnemonics, addressing modes, and the table that
//! maps each opcode byte to a mnemonic, a mode and a base cycle count.
use vstd::prelude::*;

verus! {

/// The 56 instruction mnemonics.
#[allow(non_camel_case_types)]
#[derive(Clone, Copy, Debug, PartialEq, Eq, Structural)]
pub enum OpCode {
    /// Add with carry.
    ADC,
    /// And with accumulator.
    AND,
    /// Arithmetic shift left.
    ASL,
    /// Branch if carry clear.
    BCC,
    /// Branch if carry set.
    BCS,
    /// Branch if equal (z set).
    BEQ,
    /// Bit test.
    BIT,
    /// Branch if minus (n set).
    BMI,
    /// Branch if not equal (z clear).
    BNE,
    /// Branch if plus (n clear).
    BPL,
    /// Software interrupt.
    BRK,
    /// Branch if overflow clear.
    BVC,
    /// Branch if overflow set.
    BVS,
    /// Clear carry.
    CLC,
    /// Clear decimal.
    CLD,
    /// Clear interrupt disable.
    CLI,
    /// Clear overflow.
    CLV,
    /// Compare with accumulator.
    CMP,
    /// Compare with x.
    CPX,
    /// Compare with y.
    CPY,
    /// Decrement memory.
    DEC,
    /// Decrement x.
    DEX,
    /// Decrement y.
    DEY,
    /// Exclusive or with accumulator.
    EOR,
    /// Increment memory.
    INC,
    /// Increment x.
    INX,
    /// Increment y.
    INY,
    /// Jump.
    JMP,
    /// Jump to subroutine.
    JSR,
    /// Load accumulator.
    LDA,
    /// Load x.
    LDX,
    /// Load y.
    LDY,
    /// Logical shift right.
    LSR,
    /// No operation.
    NOP,
    /// Or with accumulator.
    ORA,
    /// Push accumulator.
    PHA,
    /// Push processor status.
    PHP,
    /// Pull accumulator.
    PLA,
    /// Pull processor status.
    PLP,
    /// Rotate left.
    ROL,
    /// Rotate right.
    ROR,
    /// Return from interrupt.
    RTI,
    /// Return from subroutine.
    RTS,
    /// Subtract with borrow.
    SBC,
    /// Set carry.
    SEC,
    /// Set decimal.
    SED,
    /// Set interrupt disable.
    SEI,
    /// Store accumulator.
    STA,
    /// Store x.
    STX,
    /// Store y.
    STY,
    /// Transfer a to x.
    TAX,
    /// Transfer a to y.
    TAY,
    /// Transfer s to x.
    TSX,
    /// Transfer x to a.
    TXA,
    /// Transfer x to s.
    TXS,
    /// Transfer y to a.
    TYA,
}

/// How an instruction finds its operand.
#[derive(Clone, Copy, Debug, PartialEq, Eq, Structural)]
pub enum AddressingMode {
    /// No operand.
    Implied,
    /// The operand is `A`.
    Accumulator,
    /// The operand is the byte after the opcode.
    Immediate,
    /// `$00LL`.
    ZeroPage,
    /// `(LL + X) & 0xFF`.
    ZeroPageX,
    /// `(LL + Y) & 0xFF`.
    ZeroPageY,
    /// `$HHLL`.
    Absolute,
    /// `$HHLL + X`.
    AbsoluteX,
    /// `$HHLL + Y`.
    AbsoluteY,
    /// The word at `$HHLL`, with the page bug (JMP only).
    Indirect,
    /// The word at `(LL + X) & 0xFF`, both bytes in the zero page.
    IndexedIndirect,
    /// The word at `LL`, both bytes in the zero page, plus `Y`.
    IndirectIndexed,
    /// A signed offset from the address of the next instruction.
    Relative,
}

/// One decoded opcode.
#[derive(Clone, Copy, Debug, PartialEq, Eq, Structural)]
pub struct Op {
    pub code: u8,
    pub mnemonic: OpCode,
    pub mode: AddressingMode,
    /// Base cycle count, before page-cross and branch penalties.
    pub cycles: u8,
}

/// The documented opcode map: mnemonic, mode and base cycles of each legal
/// opcode byte.
pub open spec fn op_entry(code: u8) -> Option<(OpCode, AddressingMode, u8)> {
    match code {
        0x00 => Some((OpCode::BRK, AddressingMode::Implied, 7u8)),
        0x01 => Some((OpCode::ORA, AddressingMode::IndexedIndirect, 6u8)),
        0x05 => Some((OpCode::ORA, AddressingMode::ZeroPage, 3u8)),
        0x06 => Some((OpCode::ASL, AddressingMode::ZeroPage, 5u8)),
        0x08 => Some((OpCode::PHP, AddressingMode::Implied, 3u8)),
        0x09 => Some((OpCode::ORA, AddressingMode::Immediate, 2u8)),
        0x0A => Some((OpCode::ASL, AddressingMode::Accumulator, 2u8)),
        0x0D => Some((OpCode::ORA, AddressingMode::Absolute, 4u8)),
        0x0E => Some((OpCode::ASL, AddressingMode::Absolute, 6u8)),
        0x10 => Some((OpCode::BPL, AddressingMode::Relative, 2u8)),
        0x11 => Some((OpCode::ORA, AddressingMode::IndirectIndexed, 5u8)),
        0x15 => Some((OpCode::ORA, AddressingMode::ZeroPageX, 4u8)),
        0x16 => Some((OpCode::ASL, AddressingMode::ZeroPageX, 6u8)),
        0x18 => Some((OpCode::CLC, AddressingMode::Implied, 2u8)),
        0x19 => Some((OpCode::ORA, AddressingMode::AbsoluteY, 4u8)),
        0x1D => Some((OpCode::ORA, AddressingMode::AbsoluteX, 4u8)),
        0x1E => Some((OpCode::ASL, AddressingMode::AbsoluteX, 7u8)),
        0x20 => Some((OpCode::JSR, AddressingMode::Absolute, 6u8)),
        0x21 => Some((OpCode::AND, AddressingMode::IndexedIndirect, 6u8)),
        0x24 => Some((OpCode::BIT, AddressingMode::ZeroPage, 3u8)),
        0x25 => Some((OpCode::AND, AddressingMode::ZeroPage, 3u8)),
        0x26 => Some((OpCode::ROL, AddressingMode::ZeroPage, 5u8)),
        0x28 => Some((OpCode::PLP, AddressingMode::Implied, 4u8)),
        0x29 => Some((OpCode::AND, AddressingMode::Immediate, 2u8)),
        0x2A => Some((OpCode::ROL, AddressingMode::Accumulator, 2u8)),
        0x2C => Some((OpCode::BIT, AddressingMode::Absolute, 4u8)),
        0x2D => Some((OpCode::AND, AddressingMode::Absolute, 4u8)),
        0x2E => Some((OpCode::ROL, AddressingMode::Absolute, 6u8)),
        0x30 => Some((OpCode::BMI, AddressingMode::Relative, 2u8)),
        0x31 => Some((OpCode::AND, AddressingMode::IndirectIndexed, 5u8)),
        0x35 => Some((OpCode::AND, AddressingMode::ZeroPageX, 4u8)),
        0x36 => Some((OpCode::ROL, AddressingMode::ZeroPageX, 6u8)),
        0x38 => Some((OpCode::SEC, AddressingMode::Implied, 2u8)),
        0x39 => Some((OpCode::AND, AddressingMode::AbsoluteY, 4u8)),
        0x3D => Some((OpCode::AND, AddressingMode::AbsoluteX, 4u8)),
        0x3E => Some((OpCode::ROL, AddressingMode::AbsoluteX, 7u8)),
        0x40 => Some((OpCode::RTI, AddressingMode::Implied, 6u8)),
        0x41 => Some((OpCode::EOR, AddressingMode::IndexedIndirect, 6u8)),
        0x45 => Some((OpCode::EOR, AddressingMode::ZeroPage, 3u8)),
        0x46 => Some((OpCode::LSR, AddressingMode::ZeroPage, 5u8)),
        0x48 => Some((OpCode::PHA, AddressingMode::Implied, 3u8)),
        0x49 => Some((OpCode::EOR, AddressingMode::Immediate, 2u8)),
        0x4A => Some((OpCode::LSR, AddressingMode::Accumulator, 2u8)),
        0x4C => Some((OpCode::JMP, AddressingMode::Absolute, 3u8)),
        0x4D => Some((OpCode::EOR, AddressingMode::Absolute, 4u8)),
        0x4E => Some((OpCode::LSR, AddressingMode::Absolute, 6u8)),
        0x50 => Some((OpCode::BVC, AddressingMode::Relative, 2u8)),
        0x51 => Some((OpCode::EOR, AddressingMode::IndirectIndexed, 5u8)),
        0x55 => Some((OpCode::EOR, AddressingMode::ZeroPageX, 4u8)),
        0x56 => Some((OpCode::LSR, AddressingMode::ZeroPageX, 6u8)),
        0x58 => Some((OpCode::CLI, AddressingMode::Implied, 2u8)),
        0x59 => Some((OpCode::EOR, AddressingMode::AbsoluteY, 4u8)),
        0x5D => Some((OpCode::EOR, AddressingMode::AbsoluteX, 4u8)),
        0x5E => Some((OpCode::LSR, AddressingMode::AbsoluteX, 7u8)),
        0x60 => Some((OpCode::RTS, AddressingMode::Implied, 6u8)),
        0x61 => Some((OpCode::ADC, AddressingMode::IndexedIndirect, 6u8)),
        0x65 => Some((OpCode::ADC, AddressingMode::ZeroPage, 3u8)),
        0x66 => Some((OpCode::ROR, AddressingMode::ZeroPage, 5u8)),
        0x68 => Some((OpCode::PLA, AddressingMode::Implied, 4u8)),
        0x69 => Some((OpCode::ADC, AddressingMode::Immediate, 2u8)),
        0x6A => Some((OpCode::ROR, AddressingMode::Accumulator, 2u8)),
        0x6C => Some((OpCode::JMP, AddressingMode::Indirect, 5u8)),
        0x6D => Some((OpCode::ADC, AddressingMode::Absolute, 4u8)),
        0x6E => Some((OpCode::ROR, AddressingMode::Absolute, 6u8)),
        0x70 => Some((OpCode::BVS, AddressingMode::Relative, 2u8)),
        0x71 => Some((OpCode::ADC, AddressingMode::IndirectIndexed, 5u8)),
        0x75 => Some((OpCode::ADC, AddressingMode::ZeroPageX, 4u8)),
        0x76 => Some((OpCode::ROR, AddressingMode::ZeroPageX, 6u8)),
        0x78 => Some((OpCode::SEI, AddressingMode::Implied, 2u8)),
        0x79 => Some((OpCode::ADC, AddressingMode::AbsoluteY, 4u8)),
        0x7D => Some((OpCode::ADC, AddressingMode::AbsoluteX, 4u8)),
        0x7E => Some((OpCode::ROR, AddressingMode::AbsoluteX, 7u8)),
        0x81 => Some((OpCode::STA, AddressingMode::IndexedIndirect, 6u8)),
        0x84 => Some((OpCode::STY, AddressingMode::ZeroPage, 3u8)),
        0x85 => Some((OpCode::STA, AddressingMode::ZeroPage, 3u8)),
        0x86 => Some((OpCode::STX, AddressingMode::ZeroPage, 3u8)),
        0x88 => Some((OpCode::DEY, AddressingMode::Implied, 2u8)),
        0x8A => Some((OpCode::TXA, AddressingMode::Implied, 2u8)),
        0x8C => Some((OpCode::STY, AddressingMode::Absolute, 4u8)),
        0x8D => Some((OpCode::STA, AddressingMode::Absolute, 4u8)),
        0x8E => Some((OpCode::STX, AddressingMode::Absolute, 4u8)),
        0x90 => Some((OpCode::BCC, AddressingMode::Relative, 2u8)),
        0x91 => Some((OpCode::STA, AddressingMode::IndirectIndexed, 6u8)),
        0x94 => Some((OpCode::STY, AddressingMode::ZeroPageX, 4u8)),
        0x95 => Some((OpCode::STA, AddressingMode::ZeroPageX, 4u8)),
        0x96 => Some((OpCode::STX, AddressingMode::ZeroPageY, 4u8)),
        0x98 => Some((OpCode::TYA, AddressingMode::Implied, 2u8)),
        0x99 => Some((OpCode::STA, AddressingMode::AbsoluteY, 5u8)),
        0x9A => Some((OpCode::TXS, AddressingMode::Implied, 2u8)),
        0x9D => Some((OpCode::STA, AddressingMode::AbsoluteX, 5u8)),
        0xA0 => Some((OpCode::LDY, AddressingMode::Immediate, 2u8)),
        0xA1 => Some((OpCode::LDA, AddressingMode::IndexedIndirect, 6u8)),
        0xA2 => Some((OpCode::LDX, AddressingMode::Immediate, 2u8)),
        0xA4 => Some((OpCode::LDY, AddressingMode::ZeroPage, 3u8)),
        0xA5 => Some((OpCode::LDA, AddressingMode::ZeroPage, 3u8)),
        0xA6 => Some((OpCode::LDX, AddressingMode::ZeroPage, 3u8)),
        0xA8 => Some((OpCode::TAY, AddressingMode::Implied, 2u8)),
        0xA9 => Some((OpCode::LDA, AddressingMode::Immediate, 2u8)),
        0xAA => Some((OpCode::TAX, AddressingMode::Implied, 2u8)),
        0xAC => Some((OpCode::LDY, AddressingMode::Absolute, 4u8)),
        0xAD => Some((OpCode::LDA, AddressingMode::Absolute, 4u8)),
        0xAE => Some((OpCode::LDX, AddressingMode::Absolute, 4u8)),
        0xB0 => Some((OpCode::BCS, AddressingMode::Relative, 2u8)),
        0xB1 => Some((OpCode::LDA, AddressingMode::IndirectIndexed, 5u8)),
        0xB4 => Some((OpCode::LDY, AddressingMode::ZeroPageX, 4u8)),
        0xB5 => Some((OpCode::LDA, AddressingMode::ZeroPageX, 4u8)),
        0xB6 => Some((OpCode::LDX, AddressingMode::ZeroPageY, 4u8)),
        0xB8 => Some((OpCode::CLV, AddressingMode::Implied, 2u8)),
        0xB9 => Some((OpCode::LDA, AddressingMode::AbsoluteY, 4u8)),
        0xBA => Some((OpCode::TSX, AddressingMode::Implied, 2u8)),
        0xBC => Some((OpCode::LDY, AddressingMode::AbsoluteX, 4u8)),
        0xBD => Some((OpCode::LDA, AddressingMode::AbsoluteX, 4u8)),
        0xBE => Some((OpCode::LDX, AddressingMode::AbsoluteY, 4u8)),
        0xC0 => Some((OpCode::CPY, AddressingMode::Immediate, 2u8)),
        0xC1 => Some((OpCode::CMP, AddressingMode::IndexedIndirect, 6u8)),
        0xC4 => Some((OpCode::CPY, AddressingMode::ZeroPage, 3u8)),
        0xC5 => Some((OpCode::CMP, AddressingMode::ZeroPage, 3u8)),
        0xC6 => Some((OpCode::DEC, AddressingMode::ZeroPage, 5u8)),
        0xC8 => Some((OpCode::INY, AddressingMode::Implied, 2u8)),
        0xC9 => Some((OpCode::CMP, AddressingMode::Immediate, 2u8)),
        0xCA => Some((OpCode::DEX, AddressingMode::Implied, 2u8)),
        0xCC => Some((OpCode::CPY, AddressingMode::Absolute, 4u8)),
        0xCD => Some((OpCode::CMP, AddressingMode::Absolute, 4u8)),
        0xCE => Some((OpCode::DEC, AddressingMode::Absolute, 6u8)),
        0xD0 => Some((OpCode::BNE, AddressingMode::Relative, 2u8)),
        0xD1 => Some((OpCode::CMP, AddressingMode::IndirectIndexed, 5u8)),
        0xD5 => Some((OpCode::CMP, AddressingMode::ZeroPageX, 4u8)),
        0xD6 => Some((OpCode::DEC, AddressingMode::ZeroPageX, 6u8)),
        0xD8 => Some((OpCode::CLD, AddressingMode::Implied, 2u8)),
        0xD9 => Some((OpCode::CMP, AddressingMode::AbsoluteY, 4u8)),
        0xDD => Some((OpCode::CMP, AddressingMode::AbsoluteX, 4u8)),
        0xDE => Some((OpCode::DEC, AddressingMode::AbsoluteX, 7u8)),
        0xE0 => Some((OpCode::CPX, AddressingMode::Immediate, 2u8)),
        0xE1 => Some((OpCode::SBC, AddressingMode::IndexedIndirect, 6u8)),
        0xE4 => Some((OpCode::CPX, AddressingMode::ZeroPage, 3u8)),
        0xE5 => Some((OpCode::SBC, AddressingMode::ZeroPage, 3u8)),
        0xE6 => Some((OpCode::INC, AddressingMode::ZeroPage, 5u8)),
        0xE8 => Some((OpCode::INX, AddressingMode::Implied, 2u8)),
        0xE9 => Some((OpCode::SBC, AddressingMode::Immediate, 2u8)),
        0xEA => Some((OpCode::NOP, AddressingMode::Implied, 2u8)),
        0xEC => Some((OpCode::CPX, AddressingMode::Absolute, 4u8)),
        0xED => Some((OpCode::SBC, AddressingMode::Absolute, 4u8)),
        0xEE => Some((OpCode::INC, AddressingMode::Absolute, 6u8)),
        0xF0 => Some((OpCode::BEQ, AddressingMode::Relative, 2u8)),
        0xF1 => Some((OpCode::SBC, AddressingMode::IndirectIndexed, 5u8)),
        0xF5 => Some((OpCode::SBC, AddressingMode::ZeroPageX, 4u8)),
        0xF6 => Some((OpCode::INC, AddressingMode::ZeroPageX, 6u8)),
        0xF8 => Some((OpCode::SED, AddressingMode::Implied, 2u8)),
        0xF9 => Some((OpCode::SBC, AddressingMode::AbsoluteY, 4u8)),
        0xFD => Some((OpCode::SBC, AddressingMode::AbsoluteX, 4u8)),
        0xFE => Some((OpCode::INC, AddressingMode::AbsoluteX, 7u8)),
        _ => None,
    }
}

/// The decoded form of `code`, if it is a legal opcode.
pub open spec fn op_table(code: u8) -> Option<Op> {
    match op_entry(code) {
        Some((mnemonic, mode, cycles)) => Some(Op { code, mnemonic, mode, cycles }),
        None => None,
    }
}

/// The mnemonics that take one more cycle when an indexed read crosses a page.
pub open spec fn has_page_penalty(m: OpCode) -> bool {
    m == OpCode::ADC || m == OpCode::AND || m == OpCode::CMP || m == OpCode::EOR || m == OpCode::LDA
        || m == OpCode::LDX || m == OpCode::LDY || m == OpCode::ORA || m == OpCode::SBC
}

/// The conditional branches.
pub open spec fn is_branch(m: OpCode) -> bool {
    m == OpCode::BCC || m == OpCode::BCS || m == OpCode::BEQ || m == OpCode::BMI || m == OpCode::BNE
        || m == OpCode::BPL || m == OpCode::BVC || m == OpCode::BVS
}

impl Op {
    /// The no-op, `EA`.
    pub fn new() -> (r: Op)
        ensures
            op_table(0xEA) == Some(r),
    {
        Op { code: 0xEA, mnemonic: OpCode::NOP, mode: AddressingMode::Implied, cycles: 2 }
    }

    /// Whether `code` is one of the documented opcodes.
    pub fn is_documented(code: u8) -> (r: bool)
        ensures
            r == op_table(code) is Some,
    {
        Op::lookup(code).is_some()
    }

    /// Decodes a documented opcode into its mnemonic, mode and base cycles.
    pub fn decode_op(code: u8) -> (r: Op)
        requires
            op_table(code) is Some,
        ensures
            op_table(code) == Some(r),
    {
        match Op::lookup(code) {
            Some(op) => op,
            None => {
                proof {
                    assert(false);
                }
                Op::new()
            },
        }
    }

    /// Looks `code` up in the opcode map; `None` for an undocumented byte.
    fn lookup(code: u8) -> (r: Option<Op>)
        ensures
            r == op_table(code),
    {
        let entry: Option<(OpCode, AddressingMode, u8)> = match code {
        0x00 => Some((OpCode::BRK, AddressingMode::Implied, 7u8)),
        0x01 => Some((OpCode::ORA, AddressingMode::IndexedIndirect, 6u8)),
        0x05 => Some((OpCode::ORA, AddressingMode::ZeroPage, 3u8)),
        0x06 => Some((OpCode::ASL, AddressingMode::ZeroPage, 5u8)),
        0x08 => Some((OpCode::PHP, AddressingMode::Implied, 3u8)),
        0x09 => Some((OpCode::ORA, AddressingMode::Immediate, 2u8)),
        0x0A => Some((OpCode::ASL, AddressingMode::Accumulator, 2u8)),
        0x0D => Some((OpCode::ORA, AddressingMode::Absolute, 4u8)),
        0x0E => Some((OpCode::ASL, AddressingMode::Absolute, 6u8)),
        0x10 => Some((OpCode::BPL, AddressingMode::Relative, 2u8)),
        0x11 => Some((OpCode::ORA, AddressingMode::IndirectIndexed, 5u8)),
        0x15 => Some((OpCode::ORA, AddressingMode::ZeroPageX, 4u8)),
        0x16 => Some((OpCode::ASL, AddressingMode::ZeroPageX, 6u8)),
        0x18 => Some((OpCode::CLC, AddressingMode::Implied, 2u8)),
        0x19 => Some((OpCode::ORA, AddressingMode::AbsoluteY, 4u8)),
        0x1D => Some((OpCode::ORA, AddressingMode::AbsoluteX, 4u8)),
        0x1E => Some((OpCode::ASL, AddressingMode::AbsoluteX, 7u8)),
        0x20 => Some((OpCode::JSR, AddressingMode::Absolute, 6u8)),
        0x21 => Some((OpCode::AND, AddressingMode::IndexedIndirect, 6u8)),
        0x24 => Some((OpCode::BIT, AddressingMode::ZeroPage, 3u8)),
        0x25 => Some((OpCode::AND, AddressingMode::ZeroPage, 3u8)),
        0x26 => Some((OpCode::ROL, AddressingMode::ZeroPage, 5u8)),
        0x28 => Some((OpCode::PLP, AddressingMode::Implied, 4u8)),
        0x29 => Some((OpCode::AND, AddressingMode::Immediate, 2u8)),
        0x2A => Some((OpCode::ROL, AddressingMode::Accumulator, 2u8)),
        0x2C => Some((OpCode::BIT, AddressingMode::Absolute, 4u8)),
        0x2D => Some((OpCode::AND, AddressingMode::Absolute, 4u8)),
        0x2E => Some((OpCode::ROL, AddressingMode::Absolute, 6u8)),
        0x30 => Some((OpCode::BMI, AddressingMode::Relative, 2u8)),
        0x31 => Some((OpCode::AND, AddressingMode::IndirectIndexed, 5u8)),
        0x35 => Some((OpCode::AND, AddressingMode::ZeroPageX, 4u8)),
        0x36 => Some((OpCode::ROL, AddressingMode::ZeroPageX, 6u8)),
        0x38 => Some((OpCode::SEC, AddressingMode::Implied, 2u8)),
        0x39 => Some((OpCode::AND, AddressingMode::AbsoluteY, 4u8)),
        0x3D => Some((OpCode::AND, AddressingMode::AbsoluteX, 4u8)),
        0x3E => Some((OpCode::ROL, AddressingMode::AbsoluteX, 7u8)),
        0x40 => Some((OpCode::RTI, AddressingMode::Implied, 6u8)),
        0x41 => Some((OpCode::EOR, AddressingMode::IndexedIndirect, 6u8)),
        0x45 => Some((OpCode::EOR, AddressingMode::ZeroPage, 3u8)),
        0x46 => Some((OpCode::LSR, AddressingMode::ZeroPage, 5u8)),
        0x48 => Some((OpCode::PHA, AddressingMode::Implied, 3u8)),
        0x49 => Some((OpCode::EOR, AddressingMode::Immediate, 2u8)),
        0x4A => Some((OpCode::LSR, AddressingMode::Accumulator, 2u8)),
        0x4C => Some((OpCode::JMP, AddressingMode::Absolute, 3u8)),
        0x4D => Some((OpCode::EOR, AddressingMode::Absolute, 4u8)),
        0x4E => Some((OpCode::LSR, AddressingMode::Absolute, 6u8)),
        0x50 => Some((OpCode::BVC, AddressingMode::Relative, 2u8)),
        0x51 => Some((OpCode::EOR, AddressingMode::IndirectIndexed, 5u8)),
        0x55 => Some((OpCode::EOR, AddressingMode::ZeroPageX, 4u8)),
        0x56 => Some((OpCode::LSR, AddressingMode::ZeroPageX, 6u8)),
        0x58 => Some((OpCode::CLI, AddressingMode::Implied, 2u8)),
        0x59 => Some((OpCode::EOR, AddressingMode::AbsoluteY, 4u8)),
        0x5D => Some((OpCode::EOR, AddressingMode::AbsoluteX, 4u8)),
        0x5E => Some((OpCode::LSR, AddressingMode::AbsoluteX, 7u8)),
        0x60 => Some((OpCode::RTS, AddressingMode::Implied, 6u8)),
        0x61 => Some((OpCode::ADC, AddressingMode::IndexedIndirect, 6u8)),
        0x65 => Some((OpCode::ADC, AddressingMode::ZeroPage, 3u8)),
        0x66 => Some((OpCode::ROR, AddressingMode::ZeroPage, 5u8)),
        0x68 => Some((OpCode::PLA, AddressingMode::Implied, 4u8)),
        0x69 => Some((OpCode::ADC, AddressingMode::Immediate, 2u8)),
        0x6A => Some((OpCode::ROR, AddressingMode::Accumulator, 2u8)),
        0x6C => Some((OpCode::JMP, AddressingMode::Indirect, 5u8)),
        0x6D => Some((OpCode::ADC, AddressingMode::Absolute, 4u8)),
        0x6E => Some((OpCode::ROR, AddressingMode::Absolute, 6u8)),
        0x70 => Some((OpCode::BVS, AddressingMode::Relative, 2u8)),
        0x71 => Some((OpCode::ADC, AddressingMode::IndirectIndexed, 5u8)),
        0x75 => Some((OpCode::ADC, AddressingMode::ZeroPageX, 4u8)),
        0x76 => Some((OpCode::ROR, AddressingMode::ZeroPageX, 6u8)),
        0x78 => Some((OpCode::SEI, AddressingMode::Implied, 2u8)),
        0x79 => Some((OpCode::ADC, AddressingMode::AbsoluteY, 4u8)),
        0x7D => Some((OpCode::ADC, AddressingMode::AbsoluteX, 4u8)),
        0x7E => Some((OpCode::ROR, AddressingMode::AbsoluteX, 7u8)),
        0x81 => Some((OpCode::STA, AddressingMode::IndexedIndirect, 6u8)),
        0x84 => Some((OpCode::STY, AddressingMode::ZeroPage, 3u8)),
        0x85 => Some((OpCode::STA, AddressingMode::ZeroPage, 3u8)),
        0x86 => Some((OpCode::STX, AddressingMode::ZeroPage, 3u8)),
        0x88 => Some((OpCode::DEY, AddressingMode::Implied, 2u8)),
        0x8A => Some((OpCode::TXA, AddressingMode::Implied, 2u8)),
        0x8C => Some((OpCode::STY, AddressingMode::Absolute, 4u8)),
        0x8D => Some((OpCode::STA, AddressingMode::Absolute, 4u8)),
        0x8E => Some((OpCode::STX, AddressingMode::Absolute, 4u8)),
        0x90 => Some((OpCode::BCC, AddressingMode::Relative, 2u8)),
        0x91 => Some((OpCode::STA, AddressingMode::IndirectIndexed, 6u8)),
        0x94 => Some((OpCode::STY, AddressingMode::ZeroPageX, 4u8)),
        0x95 => Some((OpCode::STA, AddressingMode::ZeroPageX, 4u8)),
        0x96 => Some((OpCode::STX, AddressingMode::ZeroPageY, 4u8)),
        0x98 => Some((OpCode::TYA, AddressingMode::Implied, 2u8)),
        0x99 => Some((OpCode::STA, AddressingMode::AbsoluteY, 5u8)),
        0x9A => Some((OpCode::TXS, AddressingMode::Implied, 2u8)),
        0x9D => Some((OpCode::STA, AddressingMode::AbsoluteX, 5u8)),
        0xA0 => Some((OpCode::LDY, AddressingMode::Immediate, 2u8)),
        0xA1 => Some((OpCode::LDA, AddressingMode::IndexedIndirect, 6u8)),
        0xA2 => Some((OpCode::LDX, AddressingMode::Immediate, 2u8)),
        0xA4 => Some((OpCode::LDY, AddressingMode::ZeroPage, 3u8)),
        0xA5 => Some((OpCode::LDA, AddressingMode::ZeroPage, 3u8)),
        0xA6 => Some((OpCode::LDX, AddressingMode::ZeroPage, 3u8)),
        0xA8 => Some((OpCode::TAY, AddressingMode::Implied, 2u8)),
        0xA9 => Some((OpCode::LDA, AddressingMode::Immediate, 2u8)),
        0xAA => Some((OpCode::TAX, AddressingMode::Implied, 2u8)),
        0xAC => Some((OpCode::LDY, AddressingMode::Absolute, 4u8)),
        0xAD => Some((OpCode::LDA, AddressingMode::Absolute, 4u8)),
        0xAE => Some((OpCode::LDX, AddressingMode::Absolute, 4u8)),
        0xB0 => Some((OpCode::BCS, AddressingMode::Relative, 2u8)),
        0xB1 => Some((OpCode::LDA, AddressingMode::IndirectIndexed, 5u8)),
        0xB4 => Some((OpCode::LDY, AddressingMode::ZeroPageX, 4u8)),
        0xB5 => Some((OpCode::LDA, AddressingMode::ZeroPageX, 4u8)),
        0xB6 => Some((OpCode::LDX, AddressingMode::ZeroPageY, 4u8)),
        0xB8 => Some((OpCode::CLV, AddressingMode::Implied, 2u8)),
        0xB9 => Some((OpCode::LDA, AddressingMode::AbsoluteY, 4u8)),
        0xBA => Some((OpCode::TSX, AddressingMode::Implied, 2u8)),
        0xBC => Some((OpCode::LDY, AddressingMode::AbsoluteX, 4u8)),
        0xBD => Some((OpCode::LDA, AddressingMode::AbsoluteX, 4u8)),
        0xBE => Some((OpCode::LDX, AddressingMode::AbsoluteY, 4u8)),
        0xC0 => Some((OpCode::CPY, AddressingMode::Immediate, 2u8)),
        0xC1 => Some((OpCode::CMP, AddressingMode::IndexedIndirect, 6u8)),
        0xC4 => Some((OpCode::CPY, AddressingMode::ZeroPage, 3u8)),
        0xC5 => Some((OpCode::CMP, AddressingMode::ZeroPage, 3u8)),
        0xC6 => Some((OpCode::DEC, AddressingMode::ZeroPage, 5u8)),
        0xC8 => Some((OpCode::INY, AddressingMode::Implied, 2u8)),
        0xC9 => Some((OpCode::CMP, AddressingMode::Immediate, 2u8)),
        0xCA => Some((OpCode::DEX, AddressingMode::Implied, 2u8)),
        0xCC => Some((OpCode::CPY, AddressingMode::Absolute, 4u8)),
        0xCD => Some((OpCode::CMP, AddressingMode::Absolute, 4u8)),
        0xCE => Some((OpCode::DEC, AddressingMode::Absolute, 6u8)),
        0xD0 => Some((OpCode::BNE, AddressingMode::Relative, 2u8)),
        0xD1 => Some((OpCode::CMP, AddressingMode::IndirectIndexed, 5u8)),
        0xD5 => Some((OpCode::CMP, AddressingMode::ZeroPageX, 4u8)),
        0xD6 => Some((OpCode::DEC, AddressingMode::ZeroPageX, 6u8)),
        0xD8 => Some((OpCode::CLD, AddressingMode::Implied, 2u8)),
        0xD9 => Some((OpCode::CMP, AddressingMode::AbsoluteY, 4u8)),
        0xDD => Some((OpCode::CMP, AddressingMode::AbsoluteX, 4u8)),
        0xDE => Some((OpCode::DEC, AddressingMode::AbsoluteX, 7u8)),
        0xE0 => Some((OpCode::CPX, AddressingMode::Immediate, 2u8)),
        0xE1 => Some((OpCode::SBC, AddressingMode::IndexedIndirect, 6u8)),
        0xE4 => Some((OpCode::CPX, AddressingMode::ZeroPage, 3u8)),
        0xE5 => Some((OpCode::SBC, AddressingMode::ZeroPage, 3u8)),
        0xE6 => Some((OpCode::INC, AddressingMode::ZeroPage, 5u8)),
        0xE8 => Some((OpCode::INX, AddressingMode::Implied, 2u8)),
        0xE9 => Some((OpCode::SBC, AddressingMode::Immediate, 2u8)),
        0xEA => Some((OpCode::NOP, AddressingMode::Implied, 2u8)),
        0xEC => Some((OpCode::CPX, AddressingMode::Absolute, 4u8)),
        0xED => Some((OpCode::SBC, AddressingMode::Absolute, 4u8)),
        0xEE => Some((OpCode::INC, AddressingMode::Absolute, 6u8)),
        0xF0 => Some((OpCode::BEQ, AddressingMode::Relative, 2u8)),
        0xF1 => Some((OpCode::SBC, AddressingMode::IndirectIndexed, 5u8)),
        0xF5 => Some((OpCode::SBC, AddressingMode::ZeroPageX, 4u8)),
        0xF6 => Some((OpCode::INC, AddressingMode::ZeroPageX, 6u8)),
        0xF8 => Some((OpCode::SED, AddressingMode::Implied, 2u8)),
        0xF9 => Some((OpCode::SBC, AddressingMode::AbsoluteY, 4u8)),
        0xFD => Some((OpCode::SBC, AddressingMode::AbsoluteX, 4u8)),
        0xFE => Some((OpCode::INC, AddressingMode::AbsoluteX, 7u8)),
            _ => None,
        };
        match entry {
            Some((mnemonic, mode, cycles)) => Some(Op { code, mnemonic, mode, cycles }),
            None => None,
        }
    }
}

/// Every legal opcode takes 2 to 7 base cycles, and a branch takes 2.
pub proof fn lemma_base_cycles(code: u8)
    ensures
        op_table(code) matches Some(op) ==> {
            &&& 2 <= op.cycles <= 7
            &&& is_branch(op.mnemonic) ==> op.cycles == 2 && op.mode == AddressingMode::Relative
            &&& op.code == code
        },
{
}

} // verus!
