//! Flag semantics of the arithmetic, rotate, shift and bit operations, as
//! functions of the register file and the operand.

use vstd::prelude::*;
use crate::opcodes::AluOp;
use crate::registers::Registers;

verus! {

/// The register file with the four flags replaced.
pub open spec fn with_flags(r: Registers, z: bool, n: bool, h: bool, c: bool) -> Registers {
    Registers { zf: z, nf: n, hf: h, cf: c, ..r }
}

pub open spec fn carry_in(r: Registers) -> int {
    if r.cf { 1 } else { 0 }
}

/// `x - y` modulo 256.
pub open spec fn sub8(x: int, y: int) -> u8 {
    ((x - y) % 256) as u8
}

/// The eight operations against the accumulator: the new accumulator and
/// flags. Compare leaves the accumulator as it was.
pub open spec fn alu_spec(op: AluOp, r: Registers, d: u8) -> Registers {
    let a = r.a;
    let c = carry_in(r);
    match op {
        AluOp::Add => {
            let v = ((a + d) % 256) as u8;
            with_flags(Registers { a: v, ..r }, v == 0, false, a % 16 + d % 16 > 15, a + d > 255)
        },
        AluOp::Adc => {
            let v = ((a + d + c) % 256) as u8;
            with_flags(
                Registers { a: v, ..r },
                v == 0,
                false,
                a % 16 + d % 16 + c > 15,
                a + d + c > 255,
            )
        },
        AluOp::Sub => {
            let v = sub8(a as int, d as int);
            with_flags(Registers { a: v, ..r }, v == 0, true, a % 16 < d % 16, a < d)
        },
        AluOp::Sbc => {
            let v = sub8(a as int, d + c);
            with_flags(Registers { a: v, ..r }, v == 0, true, a % 16 < d % 16 + c, a < d + c)
        },
        AluOp::And => {
            let v = a & d;
            with_flags(Registers { a: v, ..r }, v == 0, false, true, false)
        },
        AluOp::Xor => {
            let v = a ^ d;
            with_flags(Registers { a: v, ..r }, v == 0, false, false, false)
        },
        AluOp::Or => {
            let v = a | d;
            with_flags(Registers { a: v, ..r }, v == 0, false, false, false)
        },
        AluOp::Cp => {
            let v = sub8(a as int, d as int);
            with_flags(r, v == 0, true, a % 16 < d % 16, a < d)
        },
    }
}

/// 8-bit increment: Zero, Subtract cleared, Half-carry out of bit 3; Carry
/// kept.
pub open spec fn inc_spec(r: Registers, x: u8) -> (u8, Registers) {
    let v = ((x + 1) % 256) as u8;
    (v, Registers { zf: v == 0, nf: false, hf: x % 16 == 15, ..r })
}

/// 8-bit decrement: Zero, Subtract set, Half-carry on a borrow from bit 4;
/// Carry kept.
pub open spec fn dec_spec(r: Registers, x: u8) -> (u8, Registers) {
    let v = sub8(x as int, 1);
    (v, Registers { zf: v == 0, nf: true, hf: x % 16 == 0, ..r })
}

/// The flags a rotate or shift leaves: Zero from the result, Carry from the
/// bit shifted out.
pub open spec fn shifted(r: Registers, v: u8, c: bool) -> (u8, Registers) {
    (v, with_flags(r, v == 0, false, false, c))
}

/// Rotate left, bit 7 into bit 0 and Carry.
pub open spec fn rlc_spec(r: Registers, x: u8) -> (u8, Registers) {
    shifted(r, ((x * 2) % 256 + x / 128) as u8, x >= 128)
}

/// Rotate left through Carry.
pub open spec fn rl_spec(r: Registers, x: u8) -> (u8, Registers) {
    shifted(r, ((x * 2) % 256 + carry_in(r)) as u8, x >= 128)
}

/// Rotate right, bit 0 into bit 7 and Carry.
pub open spec fn rrc_spec(r: Registers, x: u8) -> (u8, Registers) {
    shifted(r, (x / 2 + (x % 2) * 128) as u8, x % 2 == 1)
}

/// Rotate right through Carry.
pub open spec fn rr_spec(r: Registers, x: u8) -> (u8, Registers) {
    shifted(r, (x / 2 + carry_in(r) * 128) as u8, x % 2 == 1)
}

/// Shift left, 0 into bit 0.
pub open spec fn sla_spec(r: Registers, x: u8) -> (u8, Registers) {
    shifted(r, ((x * 2) % 256) as u8, x >= 128)
}

/// Arithmetic shift right: bit 7 kept.
pub open spec fn sra_spec(r: Registers, x: u8) -> (u8, Registers) {
    shifted(r, (x / 2 + (x / 128) * 128) as u8, x % 2 == 1)
}

/// Logical shift right, 0 into bit 7.
pub open spec fn srl_spec(r: Registers, x: u8) -> (u8, Registers) {
    shifted(r, (x / 2) as u8, x % 2 == 1)
}

/// The two nibbles exchanged; Carry cleared.
pub open spec fn swap_spec(r: Registers, x: u8) -> (u8, Registers) {
    shifted(r, ((x % 16) * 16 + x / 16) as u8, false)
}

pub open spec fn test_bit(v: u8, n: u8) -> bool {
    (v >> n) & 1u8 == 1
}

/// Bit test: Zero when bit `n` is clear, Subtract cleared, Half-carry set,
/// Carry kept, the operand untouched.
pub open spec fn bit_spec(r: Registers, n: u8, v: u8) -> Registers {
    Registers { zf: !test_bit(v, n), nf: false, hf: true, ..r }
}

pub open spec fn res_spec(v: u8, n: u8) -> u8 {
    v & !(1u8 << n)
}

pub open spec fn set_spec(v: u8, n: u8) -> u8 {
    v | (1u8 << n)
}

/// Decimal adjust of the accumulator after a BCD addition or subtraction.
pub open spec fn daa_spec(r: Registers) -> Registers {
    let a = r.a;
    if !r.nf {
        let hi: int = if r.cf || a > 0x99 { 0x60 } else { 0 };
        let lo: int = if r.hf || a % 16 > 9 { 0x06 } else { 0 };
        let v = ((a + hi + lo) % 256) as u8;
        Registers { a: v, cf: hi == 0x60, hf: false, zf: v == 0, ..r }
    } else {
        let hi: int = if r.cf { 0x60 } else { 0 };
        let lo: int = if r.hf { 0x06 } else { 0 };
        let v = sub8(a as int, hi + lo);
        Registers { a: v, cf: hi == 0x60, hf: false, zf: v == 0, ..r }
    }
}

/// Whether adding `x` and `y` carries out of bit `index`.
pub open spec fn carries(x: int, y: int, index: nat) -> bool {
    let m = vstd::arithmetic::power2::pow2(index + 1) as int;
    x % m + y % m >= m
}

/// 16-bit add into HL: Subtract cleared, Half-carry out of bit 11, Carry
/// out of bit 15; Zero kept.
pub open spec fn add_hl_spec(r: Registers, hl: u16, d: u16) -> (u16, Registers) {
    (((hl + d) % 65536) as u16, Registers { nf: false, hf: carries(hl as int, d as int, 11), cf: carries(hl as int, d as int, 15), ..r })
}

/// A sign-extended 8-bit displacement.
pub open spec fn signed8(d: u8) -> int {
    if d < 128 { d as int } else { d - 256 }
}

/// A 16-bit register plus a signed 8-bit immediate; the flags come from
/// the low byte.
pub open spec fn add16imm_spec(r: Registers, x: u16, d: u8) -> (u16, Registers) {
    let v = ((x + signed8(d)) % 65536) as u16;
    (v, with_flags(r, v == 0, false, x % 16 + d % 16 > 15, x % 256 + d > 255))
}

} // verus!
