//! The opcode decoder: bytes of the primary and of the extended table to
//! structured instructions.

use vstd::prelude::*;
use crate::registers::{Register16, Register8};

verus! {

#[derive(Debug, PartialEq, Eq, Structural, Copy, Clone)]
pub enum Opcode {
    NOP,
    LD(Arg, Arg),
    ADD(Arg, Arg),
    INC(Arg),
    DEC(Arg),
    RLCA,
    RRCA,
    RLA,
    RRA,
    STOP,
    JUMP(JumpCondition, Arg),
    LDI(Arg, Arg),
    LDD(Arg, Arg),
    DAA,
    CPL,
    SCF,
    CCF,
    HALT,
    ALU(AluOp, Arg, Arg),
    POP(Register16),
    PUSH(Register16),
    RST(u8),
    RET(JumpCondition),
    RETI,
    CALL(JumpCondition, Arg),
    DI,
    EI,
    CALLBACK,
}

#[derive(Debug, PartialEq, Eq, Structural, Copy, Clone)]
pub enum ExtendedOpcode {
    RLC(Arg),
    RRC(Arg),
    RL(Arg),
    RR(Arg),
    SLA(Arg),
    SRA(Arg),
    SWAP(Arg),
    SRL(Arg),
    BIT(u8, Arg),
    RES(u8, Arg),
    SET(u8, Arg),
}

/// An operand descriptor.
#[derive(Debug, PartialEq, Eq, Structural, Copy, Clone)]
pub enum Arg {
    /// A 16-bit immediate used as a pointer.
    Addr16,
    /// The byte after the opcode.
    Imm8,
    /// The two bytes after the opcode.
    Imm16,
    /// The byte at 0xFF00 plus an 8-bit register.
    PtrReg8(Register8),
    /// The byte a 16-bit register points at.
    PtrReg16(Register16),
    Reg8(Register8),
    Reg16(Register16),
    /// The stack pointer plus a signed 8-bit immediate.
    SPPlusImm8,
    /// The byte at 0xFF00 plus an 8-bit immediate.
    FF00PlusImm8,
}

#[derive(Debug, PartialEq, Eq, Structural, Copy, Clone)]
pub enum JumpCondition {
    Always,
    NotZero,
    Zero,
    NotCarry,
    Carry,
}

#[derive(Debug, PartialEq, Eq, Structural, Copy, Clone)]
pub enum AluOp {
    Add,
    Adc,
    Sub,
    Sbc,
    And,
    Xor,
    Or,
    Cp,
}

/// The primary-table bytes that real hardware leaves undefined.
pub open spec fn illegal_opcode(b: u8) -> bool {
    b == 0xD3 || b == 0xDB || b == 0xDD || b == 0xE3 || b == 0xE4 || b == 0xEB || b == 0xEC
        || b == 0xED || b == 0xF4 || b == 0xFC || b == 0xFD
}

pub open spec fn masked(b: u8, mask: u8, expectation: u8) -> bool {
    b & mask == expectation
}

/// The 16-bit register named by bits 5..4; `column` picks the table, whose
/// last row is SP for column 1 and AF for column 2.
pub open spec fn reg16_spec(b: u8, column: usize) -> Register16 {
    let row = (b >> 4u8) & 3u8;
    if row == 0 {
        Register16::BC
    } else if row == 1 {
        Register16::DE
    } else if column == 0 {
        Register16::DE
    } else if row == 2 {
        Register16::HL
    } else if column == 1 {
        Register16::SP
    } else {
        Register16::AF
    }
}

/// The operand named by a 3-bit field: B, C, D, E, H, L, (HL), A.
pub open spec fn operand_spec(row: u8) -> Arg {
    if row == 0 {
        Arg::Reg8(Register8::B)
    } else if row == 1 {
        Arg::Reg8(Register8::C)
    } else if row == 2 {
        Arg::Reg8(Register8::D)
    } else if row == 3 {
        Arg::Reg8(Register8::E)
    } else if row == 4 {
        Arg::Reg8(Register8::H)
    } else if row == 5 {
        Arg::Reg8(Register8::L)
    } else if row == 6 {
        Arg::PtrReg16(Register16::HL)
    } else {
        Arg::Reg8(Register8::A)
    }
}

/// The 3-bit field that starts at bit `7 - index`.
pub open spec fn field3(b: u8, index: usize) -> u8 {
    if index == 2 {
        (b >> 3u8) & 7u8
    } else {
        b & 7u8
    }
}

pub open spec fn condition_spec(b: u8) -> JumpCondition {
    let row = (b >> 3u8) & 3u8;
    if row == 0 {
        JumpCondition::NotZero
    } else if row == 1 {
        JumpCondition::Zero
    } else if row == 2 {
        JumpCondition::NotCarry
    } else {
        JumpCondition::Carry
    }
}

pub open spec fn operation_spec(row: u8) -> AluOp {
    if row == 0 {
        AluOp::Add
    } else if row == 1 {
        AluOp::Adc
    } else if row == 2 {
        AluOp::Sub
    } else if row == 3 {
        AluOp::Sbc
    } else if row == 4 {
        AluOp::And
    } else if row == 5 {
        AluOp::Xor
    } else if row == 6 {
        AluOp::Or
    } else {
        AluOp::Cp
    }
}

/// The primary table: `None` for a byte that no pattern covers.
#[verifier::opaque]
pub open spec fn decode_spec(b: u8) -> Option<Opcode> {
    let dst = operand_spec(field3(b, 2));
    let src = operand_spec(field3(b, 5));
    if b == 0x00 {
        Some(Opcode::NOP)
    } else if b == 0x08 {
        Some(Opcode::LD(Arg::Addr16, Arg::Reg16(Register16::SP)))
    } else if masked(b, 0xCF, 0x01) {
        Some(Opcode::LD(Arg::Reg16(reg16_spec(b, 1)), Arg::Imm16))
    } else if masked(b, 0xCF, 0x09) {
        Some(Opcode::ADD(Arg::Reg16(Register16::HL), Arg::Reg16(reg16_spec(b, 1))))
    } else if masked(b, 0xEF, 0x02) {
        Some(Opcode::LD(Arg::Reg16(reg16_spec(b, 0)), Arg::Reg8(Register8::A)))
    } else if masked(b, 0xEF, 0x0A) {
        Some(Opcode::LD(Arg::Reg8(Register8::A), Arg::Reg16(reg16_spec(b, 0))))
    } else if masked(b, 0xCF, 0x03) {
        Some(Opcode::INC(Arg::Reg16(reg16_spec(b, 1))))
    } else if masked(b, 0xCF, 0x0B) {
        Some(Opcode::DEC(Arg::Reg16(reg16_spec(b, 1))))
    } else if masked(b, 0xC7, 0x04) {
        Some(Opcode::INC(dst))
    } else if masked(b, 0xC7, 0x05) {
        Some(Opcode::DEC(dst))
    } else if masked(b, 0xC7, 0x06) {
        Some(Opcode::LD(dst, Arg::Imm8))
    } else if b == 0x07 {
        Some(Opcode::RLCA)
    } else if b == 0x0F {
        Some(Opcode::RRCA)
    } else if b == 0x17 {
        Some(Opcode::RLA)
    } else if b == 0x1F {
        Some(Opcode::RRA)
    } else if b == 0x10 {
        Some(Opcode::STOP)
    } else if b == 0x18 {
        Some(Opcode::JUMP(JumpCondition::Always, Arg::Imm8))
    } else if masked(b, 0xE7, 0x20) {
        Some(Opcode::JUMP(condition_spec(b), Arg::Imm8))
    } else if b == 0x22 {
        Some(Opcode::LDI(Arg::PtrReg16(Register16::HL), Arg::Reg8(Register8::A)))
    } else if b == 0x2A {
        Some(Opcode::LDI(Arg::Reg8(Register8::A), Arg::PtrReg16(Register16::HL)))
    } else if b == 0x32 {
        Some(Opcode::LDD(Arg::PtrReg16(Register16::HL), Arg::Reg8(Register8::A)))
    } else if b == 0x3A {
        Some(Opcode::LDD(Arg::Reg8(Register8::A), Arg::PtrReg16(Register16::HL)))
    } else if b == 0x27 {
        Some(Opcode::DAA)
    } else if b == 0x2F {
        Some(Opcode::CPL)
    } else if b == 0x37 {
        Some(Opcode::SCF)
    } else if b == 0x3F {
        Some(Opcode::CCF)
    } else if b == 0x76 {
        Some(Opcode::HALT)
    } else if masked(b, 0xC0, 0x40) {
        Some(Opcode::LD(dst, src))
    } else if masked(b, 0xC7, 0xC6) {
        Some(Opcode::ALU(operation_spec(field3(b, 2)), Arg::Reg8(Register8::A), Arg::Imm8))
    } else if masked(b, 0xC0, 0x80) {
        Some(Opcode::ALU(operation_spec(field3(b, 2)), Arg::Reg8(Register8::A), src))
    } else if masked(b, 0xCF, 0xC1) {
        Some(Opcode::POP(reg16_spec(b, 2)))
    } else if masked(b, 0xCF, 0xC5) {
        Some(Opcode::PUSH(reg16_spec(b, 2)))
    } else if masked(b, 0xC7, 0xC7) {
        Some(Opcode::RST(field3(b, 2)))
    } else if masked(b, 0xE7, 0xC0) {
        Some(Opcode::RET(condition_spec(b)))
    } else if b == 0xC9 {
        Some(Opcode::RET(JumpCondition::Always))
    } else if b == 0xD9 {
        Some(Opcode::RETI)
    } else if masked(b, 0xE7, 0xC2) {
        Some(Opcode::JUMP(condition_spec(b), Arg::Addr16))
    } else if b == 0xC3 {
        Some(Opcode::JUMP(JumpCondition::Always, Arg::Addr16))
    } else if masked(b, 0xE7, 0xC4) {
        Some(Opcode::CALL(condition_spec(b), Arg::Addr16))
    } else if b == 0xCD {
        Some(Opcode::CALL(JumpCondition::Always, Arg::Addr16))
    } else if b == 0xE8 {
        Some(Opcode::ADD(Arg::Reg16(Register16::SP), Arg::Imm8))
    } else if b == 0xF8 {
        Some(Opcode::LD(Arg::Reg16(Register16::HL), Arg::SPPlusImm8))
    } else if b == 0xE0 {
        Some(Opcode::LD(Arg::FF00PlusImm8, Arg::Reg8(Register8::A)))
    } else if b == 0xF0 {
        Some(Opcode::LD(Arg::Reg8(Register8::A), Arg::FF00PlusImm8))
    } else if b == 0xE2 {
        Some(Opcode::LD(Arg::PtrReg8(Register8::C), Arg::Reg8(Register8::A)))
    } else if b == 0xF2 {
        Some(Opcode::LD(Arg::Reg8(Register8::A), Arg::PtrReg8(Register8::C)))
    } else if b == 0xEA {
        Some(Opcode::LD(Arg::Addr16, Arg::Reg8(Register8::A)))
    } else if b == 0xFA {
        Some(Opcode::LD(Arg::Reg8(Register8::A), Arg::Addr16))
    } else if b == 0xE9 {
        Some(Opcode::JUMP(JumpCondition::Always, Arg::Reg16(Register16::HL)))
    } else if b == 0xF9 {
        Some(Opcode::LD(Arg::Reg16(Register16::SP), Arg::Reg16(Register16::HL)))
    } else if b == 0xF3 {
        Some(Opcode::DI)
    } else if b == 0xFB {
        Some(Opcode::EI)
    } else if b == 0xCB {
        Some(Opcode::CALLBACK)
    } else {
        None
    }
}

/// The extended table: eight rotate/shift/swap groups over 0x00..0x3F, then
/// bit test, bit clear and bit set, each with a bit index and an operand.
pub open spec fn decode_extended_spec(b: u8) -> ExtendedOpcode {
    let arg = operand_spec(field3(b, 5));
    let n = field3(b, 2);
    if masked(b, 0xC0, 0x40) {
        ExtendedOpcode::BIT(n, arg)
    } else if masked(b, 0xC0, 0x80) {
        ExtendedOpcode::RES(n, arg)
    } else if masked(b, 0xC0, 0xC0) {
        ExtendedOpcode::SET(n, arg)
    } else if n == 0 {
        ExtendedOpcode::RLC(arg)
    } else if n == 1 {
        ExtendedOpcode::RRC(arg)
    } else if n == 2 {
        ExtendedOpcode::RL(arg)
    } else if n == 3 {
        ExtendedOpcode::RR(arg)
    } else if n == 4 {
        ExtendedOpcode::SLA(arg)
    } else if n == 5 {
        ExtendedOpcode::SRA(arg)
    } else if n == 6 {
        ExtendedOpcode::SWAP(arg)
    } else {
        ExtendedOpcode::SRL(arg)
    }
}

/// The patterns of the primary table, as conditions on the byte alone.
spec fn covered(b: u8) -> bool {
    b == 0x00 || b == 0x08 || masked(b, 0xCF, 0x01) || masked(b, 0xCF, 0x09) || masked(
        b,
        0xEF,
        0x02,
    ) || masked(b, 0xEF, 0x0A) || masked(b, 0xCF, 0x03) || masked(b, 0xCF, 0x0B) || masked(
        b,
        0xC7,
        0x04,
    ) || masked(b, 0xC7, 0x05) || masked(b, 0xC7, 0x06) || b == 0x07 || b == 0x0F || b == 0x17
        || b == 0x1F || b == 0x10 || b == 0x18 || masked(b, 0xE7, 0x20) || b == 0x22 || b == 0x2A
        || b == 0x32 || b == 0x3A || b == 0x27 || b == 0x2F || b == 0x37 || b == 0x3F || b == 0x76
        || masked(b, 0xC0, 0x40) || masked(b, 0xC7, 0xC6) || masked(b, 0xC0, 0x80) || masked(
        b,
        0xCF,
        0xC1,
    ) || masked(b, 0xCF, 0xC5) || masked(b, 0xC7, 0xC7) || masked(b, 0xE7, 0xC0) || b == 0xC9
        || b == 0xD9 || masked(b, 0xE7, 0xC2) || b == 0xC3 || masked(b, 0xE7, 0xC4) || b == 0xCD
        || b == 0xE8 || b == 0xF8 || b == 0xE0 || b == 0xF0 || b == 0xE2 || b == 0xF2 || b == 0xEA
        || b == 0xFA || b == 0xE9 || b == 0xF9 || b == 0xF3 || b == 0xFB || b == 0xCB
}

proof fn lemma_covered_iff_legal(b: u8)
    by (bit_vector)
    ensures
        covered(b) <==> !illegal_opcode(b),
{
}

/// Decoding is total outside the illegal set: every other byte of the
/// primary table decodes to an instruction, and each illegal byte to none.
pub proof fn law_decode_total(b: u8)
    ensures
        decode_spec(b) is Some <==> !illegal_opcode(b),
{
    reveal(decode_spec);
    lemma_covered_iff_legal(b);
}

/// The operand shapes each operation admits.
pub open spec fn well_formed(op: Opcode) -> bool {
    match op {
        Opcode::LD(x, y) => match (x, y) {
            (Arg::Reg8(_), Arg::Reg8(_)) | (Arg::Reg8(_), Arg::PtrReg16(_)) | (
                Arg::PtrReg16(_),
                Arg::Reg8(_),
            ) | (Arg::Reg8(_), Arg::Imm8) | (Arg::PtrReg16(_), Arg::Imm8) | (
                Arg::Addr16,
                Arg::Reg16(_),
            ) | (Arg::Reg16(_), Arg::Imm16) | (Arg::Reg16(_), Arg::SPPlusImm8) | (
                Arg::FF00PlusImm8,
                Arg::Reg8(_),
            ) | (Arg::Reg8(_), Arg::FF00PlusImm8) | (Arg::PtrReg8(_), Arg::Reg8(_)) | (
                Arg::Reg8(_),
                Arg::PtrReg8(_),
            ) | (Arg::Addr16, Arg::Reg8(_)) | (Arg::Reg8(_), Arg::Addr16) | (
                Arg::Reg16(_),
                Arg::Reg16(_),
            ) | (Arg::Reg16(_), Arg::Reg8(_)) | (Arg::Reg8(_), Arg::Reg16(_)) => true,
            _ => false,
        },
        Opcode::ADD(x, y) => match (x, y) {
            (Arg::Reg16(Register16::HL), Arg::Reg16(_)) | (Arg::Reg16(_), Arg::Imm8) => true,
            _ => false,
        },
        Opcode::INC(x) | Opcode::DEC(x) => x is Reg16 || x is Reg8 || x is PtrReg16,
        Opcode::JUMP(c, x) => x is Imm8 || x is Addr16 || (c is Always && x is Reg16),
        Opcode::LDI(x, y) | Opcode::LDD(x, y) => (x is PtrReg16 && y is Reg8) || (x is Reg8
            && y is PtrReg16),
        Opcode::ALU(_, x, y) => x == Arg::Reg8(Register8::A) && (y is Reg8 || y is PtrReg16
            || y is Imm8),
        Opcode::CALL(_, x) => x is Addr16,
        Opcode::RST(n) => n < 8,
        _ => true,
    }
}

/// An operand of the extended table is a register or the byte HL points
/// at, and a bit index is below 8.
pub open spec fn extended_well_formed(op: ExtendedOpcode) -> bool {
    match op {
        ExtendedOpcode::BIT(n, x) | ExtendedOpcode::RES(n, x) | ExtendedOpcode::SET(n, x) => n < 8
            && (x is Reg8 || x is PtrReg16),
        ExtendedOpcode::RLC(x) | ExtendedOpcode::RRC(x) | ExtendedOpcode::RL(x)
        | ExtendedOpcode::RR(x) | ExtendedOpcode::SLA(x) | ExtendedOpcode::SRA(x)
        | ExtendedOpcode::SWAP(x) | ExtendedOpcode::SRL(x) => x is Reg8 || x is PtrReg16,
    }
}

proof fn lemma_fields(b: u8)
    by (bit_vector)
    ensures
        (b >> 3u8) & 7u8 < 8u8,
        b & 7u8 < 8u8,
        b & 0xC0u8 == 0x40u8 && b != 0x76u8 ==> !((b >> 3u8) & 7u8 == 6u8 && b & 7u8 == 6u8),
{
}

proof fn lemma_operand(row: u8)
    ensures
        operand_spec(row) is Reg8 || operand_spec(row) == Arg::PtrReg16(Register16::HL),
        operand_spec(row) == Arg::PtrReg16(Register16::HL) <==> row == 6,
{
}

/// Decoding is total outside the illegal set, yields a well-formed
/// instruction, and depends on the byte alone; the extended table is total
/// and well-formed for every byte.
#[verifier::rlimit(100)]
pub proof fn law_decode_well_formed(b: u8)
    ensures
        decode_spec(b) is Some <==> !illegal_opcode(b),
        decode_spec(b) is Some ==> well_formed(decode_spec(b)->Some_0),
        extended_well_formed(decode_extended_spec(b)),
{
    law_decode_total(b);
    lemma_fields(b);
    lemma_operand(field3(b, 2));
    lemma_operand(field3(b, 5));
    reveal(decode_spec);
}

fn op_match(opcode: u8, mask: u8, expectation: u8) -> (r: bool)
    ensures
        r == masked(opcode, mask, expectation),
{
    opcode & mask == expectation
}

/// Whether `byte` is one of the undefined bytes of the primary table.
pub fn is_illegal(byte: u8) -> (r: bool)
    ensures
        r == illegal_opcode(byte),
{
    byte == 0xD3 || byte == 0xDB || byte == 0xDD || byte == 0xE3 || byte == 0xE4 || byte == 0xEB
        || byte == 0xEC || byte == 0xED || byte == 0xF4 || byte == 0xFC || byte == 0xFD
}

pub fn decode(byte: u8) -> (r: Opcode)
    requires
        !illegal_opcode(byte),
    ensures
        decode_spec(byte) == Some(r),
{
    proof {
        reveal(decode_spec);
        law_decode_total(byte);
    }
    let dst = destination(byte, 2);
    let src = destination(byte, 5);
    if byte == 0x00 {
        Opcode::NOP
    } else if byte == 0x08 {
        Opcode::LD(Arg::Addr16, Arg::Reg16(Register16::SP))
    } else if op_match(byte, 0xCF, 0x01) {
        Opcode::LD(Arg::Reg16(reg16(byte, 1, 2)), Arg::Imm16)
    } else if op_match(byte, 0xCF, 0x09) {
        Opcode::ADD(Arg::Reg16(Register16::HL), Arg::Reg16(reg16(byte, 1, 2)))
    } else if op_match(byte, 0xEF, 0x02) {
        Opcode::LD(Arg::Reg16(reg16(byte, 0, 2)), Arg::Reg8(Register8::A))
    } else if op_match(byte, 0xEF, 0x0A) {
        Opcode::LD(Arg::Reg8(Register8::A), Arg::Reg16(reg16(byte, 0, 2)))
    } else if op_match(byte, 0xCF, 0x03) {
        Opcode::INC(Arg::Reg16(reg16(byte, 1, 2)))
    } else if op_match(byte, 0xCF, 0x0B) {
        Opcode::DEC(Arg::Reg16(reg16(byte, 1, 2)))
    } else if op_match(byte, 0xC7, 0x04) {
        Opcode::INC(dst)
    } else if op_match(byte, 0xC7, 0x05) {
        Opcode::DEC(dst)
    } else if op_match(byte, 0xC7, 0x06) {
        Opcode::LD(dst, Arg::Imm8)
    } else if byte == 0x07 {
        Opcode::RLCA
    } else if byte == 0x0F {
        Opcode::RRCA
    } else if byte == 0x17 {
        Opcode::RLA
    } else if byte == 0x1F {
        Opcode::RRA
    } else if byte == 0x10 {
        Opcode::STOP
    } else if byte == 0x18 {
        Opcode::JUMP(JumpCondition::Always, Arg::Imm8)
    } else if op_match(byte, 0xE7, 0x20) {
        Opcode::JUMP(condition(byte, 3), Arg::Imm8)
    } else if byte == 0x22 {
        Opcode::LDI(Arg::PtrReg16(Register16::HL), Arg::Reg8(Register8::A))
    } else if byte == 0x2A {
        Opcode::LDI(Arg::Reg8(Register8::A), Arg::PtrReg16(Register16::HL))
    } else if byte == 0x32 {
        Opcode::LDD(Arg::PtrReg16(Register16::HL), Arg::Reg8(Register8::A))
    } else if byte == 0x3A {
        Opcode::LDD(Arg::Reg8(Register8::A), Arg::PtrReg16(Register16::HL))
    } else if byte == 0x27 {
        Opcode::DAA
    } else if byte == 0x2F {
        Opcode::CPL
    } else if byte == 0x37 {
        Opcode::SCF
    } else if byte == 0x3F {
        Opcode::CCF
    } else if byte == 0x76 {
        Opcode::HALT
    } else if op_match(byte, 0xC0, 0x40) {
        Opcode::LD(dst, src)
    } else if op_match(byte, 0xC7, 0xC6) {
        Opcode::ALU(operation(byte, 2), Arg::Reg8(Register8::A), Arg::Imm8)
    } else if op_match(byte, 0xC0, 0x80) {
        Opcode::ALU(operation(byte, 2), Arg::Reg8(Register8::A), src)
    } else if op_match(byte, 0xCF, 0xC1) {
        Opcode::POP(reg16(byte, 2, 2))
    } else if op_match(byte, 0xCF, 0xC5) {
        Opcode::PUSH(reg16(byte, 2, 2))
    } else if op_match(byte, 0xC7, 0xC7) {
        Opcode::RST(n(byte, 2))
    } else if op_match(byte, 0xE7, 0xC0) {
        Opcode::RET(condition(byte, 3))
    } else if byte == 0xC9 {
        Opcode::RET(JumpCondition::Always)
    } else if byte == 0xD9 {
        Opcode::RETI
    } else if op_match(byte, 0xE7, 0xC2) {
        Opcode::JUMP(condition(byte, 3), Arg::Addr16)
    } else if byte == 0xC3 {
        Opcode::JUMP(JumpCondition::Always, Arg::Addr16)
    } else if op_match(byte, 0xE7, 0xC4) {
        Opcode::CALL(condition(byte, 3), Arg::Addr16)
    } else if byte == 0xCD {
        Opcode::CALL(JumpCondition::Always, Arg::Addr16)
    } else if byte == 0xE8 {
        Opcode::ADD(Arg::Reg16(Register16::SP), Arg::Imm8)
    } else if byte == 0xF8 {
        Opcode::LD(Arg::Reg16(Register16::HL), Arg::SPPlusImm8)
    } else if byte == 0xE0 {
        Opcode::LD(Arg::FF00PlusImm8, Arg::Reg8(Register8::A))
    } else if byte == 0xF0 {
        Opcode::LD(Arg::Reg8(Register8::A), Arg::FF00PlusImm8)
    } else if byte == 0xE2 {
        Opcode::LD(Arg::PtrReg8(Register8::C), Arg::Reg8(Register8::A))
    } else if byte == 0xF2 {
        Opcode::LD(Arg::Reg8(Register8::A), Arg::PtrReg8(Register8::C))
    } else if byte == 0xEA {
        Opcode::LD(Arg::Addr16, Arg::Reg8(Register8::A))
    } else if byte == 0xFA {
        Opcode::LD(Arg::Reg8(Register8::A), Arg::Addr16)
    } else if byte == 0xE9 {
        Opcode::JUMP(JumpCondition::Always, Arg::Reg16(Register16::HL))
    } else if byte == 0xF9 {
        Opcode::LD(Arg::Reg16(Register16::SP), Arg::Reg16(Register16::HL))
    } else if byte == 0xF3 {
        Opcode::DI
    } else if byte == 0xFB {
        Opcode::EI
    } else {
        // Outside the illegal set, the only byte left is the extended prefix.
        Opcode::CALLBACK
    }
}

pub fn decode_extended(byte: u8) -> (r: ExtendedOpcode)
    ensures
        r == decode_extended_spec(byte),
{
    let arg = destination(byte, 5);
    let bit = n(byte, 2);
    if op_match(byte, 0xC0, 0x40) {
        ExtendedOpcode::BIT(bit, arg)
    } else if op_match(byte, 0xC0, 0x80) {
        ExtendedOpcode::RES(bit, arg)
    } else if op_match(byte, 0xC0, 0xC0) {
        ExtendedOpcode::SET(bit, arg)
    } else if bit == 0 {
        ExtendedOpcode::RLC(arg)
    } else if bit == 1 {
        ExtendedOpcode::RRC(arg)
    } else if bit == 2 {
        ExtendedOpcode::RL(arg)
    } else if bit == 3 {
        ExtendedOpcode::RR(arg)
    } else if bit == 4 {
        ExtendedOpcode::SLA(arg)
    } else if bit == 5 {
        ExtendedOpcode::SRA(arg)
    } else if bit == 6 {
        ExtendedOpcode::SWAP(arg)
    } else {
        ExtendedOpcode::SRL(arg)
    }
}

/// The 16-bit register in bits 5..4 of `byte`, from table `column`; the
/// field is read at `index` 2 in every table.
fn reg16(byte: u8, column: usize, index: usize) -> (r: Register16)
    requires
        index == 2,
    ensures
        r == reg16_spec(byte, column),
{
    let row = (byte >> 4u8) & 3u8;
    if row == 0 {
        Register16::BC
    } else if row == 1 {
        Register16::DE
    } else if column == 0 {
        Register16::DE
    } else if row == 2 {
        Register16::HL
    } else if column == 1 {
        Register16::SP
    } else {
        Register16::AF
    }
}

fn field(byte: u8, index: usize) -> (r: u8)
    requires
        index == 2 || index == 5,
    ensures
        r == field3(byte, index),
        r < 8,
{
    let r = if index == 2 {
        (byte >> 3u8) & 7u8
    } else {
        byte & 7u8
    };
    assert(r < 8) by (bit_vector)
        requires
            r == (byte >> 3u8) & 7u8 || r == byte & 7u8,
    ;
    r
}

/// The operand named by the 3-bit field at `index`.
fn destination(byte: u8, index: usize) -> (r: Arg)
    requires
        index == 2 || index == 5,
    ensures
        r == operand_spec(field3(byte, index)),
{
    let row = field(byte, index);
    if row == 0 {
        Arg::Reg8(Register8::B)
    } else if row == 1 {
        Arg::Reg8(Register8::C)
    } else if row == 2 {
        Arg::Reg8(Register8::D)
    } else if row == 3 {
        Arg::Reg8(Register8::E)
    } else if row == 4 {
        Arg::Reg8(Register8::H)
    } else if row == 5 {
        Arg::Reg8(Register8::L)
    } else if row == 6 {
        Arg::PtrReg16(Register16::HL)
    } else {
        Arg::Reg8(Register8::A)
    }
}

/// The jump condition in bits 4..3; the field is read at `index` 3.
fn condition(byte: u8, index: usize) -> (r: JumpCondition)
    requires
        index == 3,
    ensures
        r == condition_spec(byte),
{
    let row = (byte >> 3u8) & 3u8;
    if row == 0 {
        JumpCondition::NotZero
    } else if row == 1 {
        JumpCondition::Zero
    } else if row == 2 {
        JumpCondition::NotCarry
    } else {
        JumpCondition::Carry
    }
}

fn operation(byte: u8, index: usize) -> (r: AluOp)
    requires
        index == 2 || index == 5,
    ensures
        r == operation_spec(field3(byte, index)),
{
    let row = field(byte, index);
    if row == 0 {
        AluOp::Add
    } else if row == 1 {
        AluOp::Adc
    } else if row == 2 {
        AluOp::Sub
    } else if row == 3 {
        AluOp::Sbc
    } else if row == 4 {
        AluOp::And
    } else if row == 5 {
        AluOp::Xor
    } else if row == 6 {
        AluOp::Or
    } else {
        AluOp::Cp
    }
}

fn n(byte: u8, index: usize) -> (r: u8)
    requires
        index == 2 || index == 5,
    ensures
        r == field3(byte, index),
        r < 8,
{
    field(byte, index)
}

/// How many operand bytes follow the opcode for an operand.
pub open spec fn arg_len(a: Arg) -> int {
    match a {
        Arg::Imm8 | Arg::SPPlusImm8 | Arg::FF00PlusImm8 => 1,
        Arg::Imm16 | Arg::Addr16 => 2,
        _ => 0,
    }
}

/// The length in bytes of an instruction: the opcode and its operands, or
/// the prefix and the second opcode byte.
pub open spec fn op_len(op: Opcode) -> int {
    match op {
        Opcode::LD(x, y) | Opcode::ADD(x, y) | Opcode::LDI(x, y) | Opcode::LDD(x, y) => 1 + arg_len(
            x,
        ) + arg_len(y),
        Opcode::ALU(_, x, y) => 1 + arg_len(x) + arg_len(y),
        Opcode::INC(x) | Opcode::DEC(x) | Opcode::JUMP(_, x) | Opcode::CALL(_, x) => 1 + arg_len(x),
        Opcode::CALLBACK => 2,
        _ => 1,
    }
}

fn arg_size(a: Arg) -> (r: u16)
    ensures
        r == arg_len(a),
{
    match a {
        Arg::Imm8 | Arg::SPPlusImm8 | Arg::FF00PlusImm8 => 1,
        Arg::Imm16 | Arg::Addr16 => 2,
        _ => 0,
    }
}

/// The length in bytes of an instruction.
pub fn op_size(op: Opcode) -> (r: u16)
    ensures
        r == op_len(op),
        1 <= r <= 5,
{
    match op {
        Opcode::LD(x, y) | Opcode::ADD(x, y) | Opcode::LDI(x, y) | Opcode::LDD(x, y) => 1 + arg_size(
            x,
        ) + arg_size(y),
        Opcode::ALU(_, x, y) => 1 + arg_size(x) + arg_size(y),
        Opcode::INC(x) | Opcode::DEC(x) | Opcode::JUMP(_, x) | Opcode::CALL(_, x) => 1 + arg_size(x),
        Opcode::CALLBACK => 2,
        _ => 1,
    }
}

} // verus!
