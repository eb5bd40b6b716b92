//! The CPU execution engine: fetch, decode and execute one instruction
//! against a memory bus.

use vstd::prelude::*;
use crate::alu::{
    add16imm_spec, add_hl_spec, alu_spec, bit_spec, carries, daa_spec, dec_spec, inc_spec,
    res_spec, rl_spec, rlc_spec, rr_spec, rrc_spec, set_spec, signed8, sla_spec, sra_spec,
    srl_spec, swap_spec, with_flags,
};
use crate::mmu::{load16, next_addr, store16, BusError, MMU};
use crate::opcodes::{
    decode, decode_extended, decode_extended_spec, decode_spec, extended_well_formed, illegal_opcode,
    is_illegal, law_decode_total, law_decode_well_formed, well_formed,
    op_len, op_size, AluOp, Arg, ExtendedOpcode, JumpCondition, Opcode,
};
use crate::real_mmu::{plain_ram, BusState, RealMMU};
use crate::registers::{Flag, Register16, Register8, Registers};
use crate::test_mmu::TestMMU;

verus! {

/// Why an instruction could not run.
#[derive(Debug, PartialEq, Eq, Structural, Copy, Clone)]
pub enum CpuError {
    /// The instruction at this address is illegal or not implemented.
    UnimplementedOpcode(u16),
    /// The bus refused an access.
    Bus(BusError),
}

/// Where execution goes next, if not to the following instruction, and the
/// cycle cost.
pub type ExecResult = (Option<u16>, u8);

pub struct CPU {
    pub regs: Registers,
    /// The interrupt-enable latch.
    pub interrupts: u32,
    /// Cycles run so far, modulo 2^32.
    pub cycles: u32,
    pub last_instr_cycles: u8,
}

pub open spec fn lift<T>(r: Result<T, BusError>) -> Result<T, CpuError> {
    match r {
        Ok(v) => Ok(v),
        Err(e) => Err(CpuError::Bus(e)),
    }
}

impl CPU {
    pub fn new() -> (r: CPU)
        ensures
            r.regs.zeroed(),
            r.interrupts == 0,
            r.cycles == 0,
            r.last_instr_cycles == 0,
    {
        CPU { regs: Registers::new(), interrupts: 0, cycles: 0, last_instr_cycles: 0 }
    }

    fn set_flags(&mut self, z: bool, n: bool, h: bool, c: bool)
        ensures
            final(self).regs == with_flags(old(self).regs, z, n, h, c),
            final(self).interrupts == old(self).interrupts,
            final(self).cycles == old(self).cycles,
            final(self).last_instr_cycles == old(self).last_instr_cycles,
    {
        self.regs.set_flag(Flag::ZF, z);
        self.regs.set_flag(Flag::NF, n);
        self.regs.set_flag(Flag::HF, h);
        self.regs.set_flag(Flag::CF, c);
    }

    fn alu_add_hl(&mut self, d: u16)
        ensures
            ({
                let (v, r) = add_hl_spec(old(self).regs, old(self).regs.get16(Register16::HL), d);
                final(self).regs == r.put16(Register16::HL, v)
            }),
            final(self).interrupts == old(self).interrupts,
            final(self).cycles == old(self).cycles,
            final(self).last_instr_cycles == old(self).last_instr_cycles,
    {
        let hl = self.regs.hl();
        let v = hl.wrapping_add(d);
        self.regs.set_hl(v);
        self.regs.set_flag(Flag::NF, false);
        let h = self.overflow16(hl, d, 11);
        let c = self.overflow16(hl, d, 15);
        self.regs.set_flag(Flag::HF, h);
        self.regs.set_flag(Flag::CF, c);
    }

    #[verifier::rlimit(60)]
    fn alu_op(&mut self, op: AluOp, d: u8)
        ensures
            final(self).regs == alu_spec(op, old(self).regs, d),
            final(self).interrupts == old(self).interrupts,
            final(self).cycles == old(self).cycles,
            final(self).last_instr_cycles == old(self).last_instr_cycles,
    {
        let a = self.regs.a();
        let c: u8 = if self.regs.get_flag(Flag::CF) { 1 } else { 0 };
        match op {
            AluOp::Add => {
                let v = a.wrapping_add(d);
                self.set_flags(v == 0, false, a % 16 + d % 16 > 15, a as u16 + d as u16 > 255);
                self.regs.set_a(v);
            },
            AluOp::Adc => {
                let v = a.wrapping_add(d).wrapping_add(c);
                self.set_flags(
                    v == 0,
                    false,
                    a % 16 + d % 16 + c > 15,
                    a as u16 + d as u16 + c as u16 > 255,
                );
                self.regs.set_a(v);
            },
            AluOp::Sub => {
                let v = a.wrapping_sub(d);
                self.set_flags(v == 0, true, a % 16 < d % 16, a < d);
                self.regs.set_a(v);
            },
            AluOp::Sbc => {
                let v = a.wrapping_sub(d).wrapping_sub(c);
                self.set_flags(v == 0, true, a % 16 < d % 16 + c, (a as u16) < d as u16 + c as u16);
                self.regs.set_a(v);
            },
            AluOp::And => {
                let v = a & d;
                self.set_flags(v == 0, false, true, false);
                self.regs.set_a(v);
            },
            AluOp::Xor => {
                let v = a ^ d;
                self.set_flags(v == 0, false, false, false);
                self.regs.set_a(v);
            },
            AluOp::Or => {
                let v = a | d;
                self.set_flags(v == 0, false, false, false);
                self.regs.set_a(v);
            },
            AluOp::Cp => {
                let v = a.wrapping_sub(d);
                self.set_flags(v == 0, true, a % 16 < d % 16, a < d);
            },
        }
    }

    fn check_jump_condition(&self, condition: JumpCondition) -> (r: bool)
        ensures
            r == condition_holds(self.regs, condition),
    {
        match condition {
            JumpCondition::Always => true,
            JumpCondition::NotZero => !self.regs.get_flag(Flag::ZF),
            JumpCondition::Zero => self.regs.get_flag(Flag::ZF),
            JumpCondition::NotCarry => !self.regs.get_flag(Flag::CF),
            JumpCondition::Carry => self.regs.get_flag(Flag::CF),
        }
    }

    fn alu_inc(&mut self, initial: u8) -> (v: u8)
        ensures
            (v, final(self).regs) == inc_spec(old(self).regs, initial),
            final(self).interrupts == old(self).interrupts,
            final(self).cycles == old(self).cycles,
            final(self).last_instr_cycles == old(self).last_instr_cycles,
    {
        let v = initial.wrapping_add(1);
        self.regs.set_flag(Flag::ZF, v == 0);
        self.regs.set_flag(Flag::NF, false);
        let h = self.overflow8(initial, 1, 3);
        proof {
            vstd::arithmetic::power2::lemma2_to64();
            assert(vstd::arithmetic::power2::pow2(3nat + 1) == 16);
        }
        self.regs.set_flag(Flag::HF, h);
        v
    }

    fn alu_dec(&mut self, initial: u8) -> (v: u8)
        ensures
            (v, final(self).regs) == dec_spec(old(self).regs, initial),
            final(self).interrupts == old(self).interrupts,
            final(self).cycles == old(self).cycles,
            final(self).last_instr_cycles == old(self).last_instr_cycles,
    {
        let v = initial.wrapping_sub(1);
        self.regs.set_flag(Flag::ZF, v == 0);
        self.regs.set_flag(Flag::NF, true);
        self.regs.set_flag(Flag::HF, initial % 16 == 0);
        v
    }

    fn alu_rlc(&mut self, v: u8) -> (r: u8)
        ensures
            (r, final(self).regs) == rlc_spec(old(self).regs, v),
            final(self).interrupts == old(self).interrupts,
            final(self).cycles == old(self).cycles,
            final(self).last_instr_cycles == old(self).last_instr_cycles,
    {
        let c = v >= 128;
        let r = ((v as u16 * 2) % 256) as u8 + v / 128;
        self.set_flags(r == 0, false, false, c);
        r
    }

    fn alu_rl(&mut self, v: u8) -> (r: u8)
        ensures
            (r, final(self).regs) == rl_spec(old(self).regs, v),
            final(self).interrupts == old(self).interrupts,
            final(self).cycles == old(self).cycles,
            final(self).last_instr_cycles == old(self).last_instr_cycles,
    {
        let c = v >= 128;
        let r = ((v as u16 * 2) % 256) as u8 + if self.regs.get_flag(Flag::CF) { 1u8 } else { 0u8 };
        self.set_flags(r == 0, false, false, c);
        r
    }

    fn alu_rrc(&mut self, v: u8) -> (r: u8)
        ensures
            (r, final(self).regs) == rrc_spec(old(self).regs, v),
            final(self).interrupts == old(self).interrupts,
            final(self).cycles == old(self).cycles,
            final(self).last_instr_cycles == old(self).last_instr_cycles,
    {
        let c = v % 2 == 1;
        let r = v / 2 + (v % 2) * 128;
        self.set_flags(r == 0, false, false, c);
        r
    }

    fn alu_rr(&mut self, v: u8) -> (r: u8)
        ensures
            (r, final(self).regs) == rr_spec(old(self).regs, v),
            final(self).interrupts == old(self).interrupts,
            final(self).cycles == old(self).cycles,
            final(self).last_instr_cycles == old(self).last_instr_cycles,
    {
        let c = v % 2 == 1;
        let r = v / 2 + if self.regs.get_flag(Flag::CF) { 128u8 } else { 0u8 };
        self.set_flags(r == 0, false, false, c);
        r
    }

    fn alu_sla(&mut self, a: u8) -> (r: u8)
        ensures
            (r, final(self).regs) == sla_spec(old(self).regs, a),
            final(self).interrupts == old(self).interrupts,
            final(self).cycles == old(self).cycles,
            final(self).last_instr_cycles == old(self).last_instr_cycles,
    {
        let c = a >= 128;
        let r = ((a as u16 * 2) % 256) as u8;
        self.set_flags(r == 0, false, false, c);
        r
    }

    fn alu_sra(&mut self, a: u8) -> (r: u8)
        ensures
            (r, final(self).regs) == sra_spec(old(self).regs, a),
            final(self).interrupts == old(self).interrupts,
            final(self).cycles == old(self).cycles,
            final(self).last_instr_cycles == old(self).last_instr_cycles,
    {
        let c = a % 2 == 1;
        let r = a / 2 + (a / 128) * 128;
        self.set_flags(r == 0, false, false, c);
        r
    }

    fn alu_swap(&mut self, a: u8) -> (r: u8)
        ensures
            (r, final(self).regs) == swap_spec(old(self).regs, a),
            final(self).interrupts == old(self).interrupts,
            final(self).cycles == old(self).cycles,
            final(self).last_instr_cycles == old(self).last_instr_cycles,
    {
        let r = (a % 16) * 16 + a / 16;
        self.set_flags(r == 0, false, false, false);
        r
    }

    fn alu_srl(&mut self, a: u8) -> (r: u8)
        ensures
            (r, final(self).regs) == srl_spec(old(self).regs, a),
            final(self).interrupts == old(self).interrupts,
            final(self).cycles == old(self).cycles,
            final(self).last_instr_cycles == old(self).last_instr_cycles,
    {
        let c = a % 2 == 1;
        let r = a / 2;
        self.set_flags(r == 0, false, false, c);
        r
    }

    fn alu_bit(&mut self, n: u8, v: u8)
        requires
            n < 8,
        ensures
            final(self).regs == bit_spec(old(self).regs, n, v),
            final(self).interrupts == old(self).interrupts,
            final(self).cycles == old(self).cycles,
            final(self).last_instr_cycles == old(self).last_instr_cycles,
    {
        let zero = (v >> n) & 1 != 1;
        self.regs.set_flag(Flag::NF, false);
        self.regs.set_flag(Flag::HF, true);
        self.regs.set_flag(Flag::ZF, zero);
    }

    fn alu_daa(&mut self)
        ensures
            final(self).regs == daa_spec(old(self).regs),
            final(self).interrupts == old(self).interrupts,
            final(self).cycles == old(self).cycles,
            final(self).last_instr_cycles == old(self).last_instr_cycles,
    {
        let a = self.regs.a();
        let mut adjust: u8 = 0;
        let new_a = if !self.regs.get_flag(Flag::NF) {
            if self.regs.get_flag(Flag::CF) || a > 0x99 {
                adjust = adjust + 0x60;
            }
            if self.regs.get_flag(Flag::HF) || a % 16 > 9 {
                adjust = adjust + 0x06;
            }
            a.wrapping_add(adjust)
        } else {
            if self.regs.get_flag(Flag::CF) {
                adjust = adjust + 0x60;
            }
            if self.regs.get_flag(Flag::HF) {
                adjust = adjust + 0x06;
            }
            a.wrapping_sub(adjust)
        };
        self.regs.set_flag(Flag::CF, adjust >= 0x60);
        self.regs.set_flag(Flag::HF, false);
        self.regs.set_flag(Flag::ZF, new_a == 0);
        self.regs.set_a(new_a);
    }

    fn alu_add16imm(&mut self, r: u16, d: u8) -> (v: u16)
        ensures
            (v, final(self).regs) == add16imm_spec(old(self).regs, r, d),
            final(self).interrupts == old(self).interrupts,
            final(self).cycles == old(self).cycles,
            final(self).last_instr_cycles == old(self).last_instr_cycles,
    {
        let v = if d < 128 {
            r.wrapping_add(d as u16)
        } else {
            r.wrapping_sub(256 - d as u16)
        };
        self.set_flags(v == 0, false, r % 16 + (d % 16) as u16 > 15, r % 256 + d as u16 > 255);
        v
    }

    fn overflow8(&self, n1: u8, n2: u8, index: u16) -> (r: bool)
        requires
            index < 31,
        ensures
            r == carries(n1 as int, n2 as int, index as nat),
    {
        self.overflow32(n1 as u32, n2 as u32, index)
    }

    fn overflow16(&self, n1: u16, n2: u16, index: u16) -> (r: bool)
        requires
            index < 31,
        ensures
            r == carries(n1 as int, n2 as int, index as nat),
    {
        self.overflow32(n1 as u32, n2 as u32, index)
    }

    fn overflow32(&self, n1: u32, n2: u32, index: u16) -> (r: bool)
        requires
            index < 31,
        ensures
            r == carries(n1 as int, n2 as int, index as nat),
    {
        let shift = (index + 1) as u32;
        proof {
            vstd::bits::lemma_u32_pow2_no_overflow(shift as nat);
            vstd::bits::lemma_u32_shl_is_mul(1, shift);
            vstd::arithmetic::power2::lemma_pow2_pos(shift as nat);
            if shift < 31 {
                vstd::arithmetic::power2::lemma_pow2_strictly_increases(shift as nat, 31);
            }
            vstd::arithmetic::power2::lemma2_to64();
        }
        let index_mask: u32 = 1u32 << shift;
        (n1 % index_mask) + (n2 % index_mask) >= index_mask
    }
}

/// What one instruction did: the register file, the interrupt latch and the
/// bus contents after it, where execution goes next if not to the following
/// instruction, and the cycle cost.
pub struct Outcome<T> {
    pub regs: Registers,
    pub interrupts: u32,
    pub mem: T,
    pub jump: Option<u16>,
    pub cycles: u8,
}

pub open spec fn fall<T>(regs: Registers, ime: u32, mem: T, cycles: u8) -> Result<Outcome<T>, CpuError> {
    Ok(Outcome { regs, interrupts: ime, mem, jump: None, cycles })
}

pub open spec fn goto<T>(regs: Registers, ime: u32, mem: T, target: u16, cycles: u8) -> Result<Outcome<T>, CpuError> {
    Ok(Outcome { regs, interrupts: ime, mem, jump: Some(target), cycles })
}

pub open spec fn add16(x: u16, k: int) -> u16 {
    ((x + k) % 65536) as u16
}

pub open spec fn get8<M: MMU>(m: M::Mem, a: u16) -> Result<u8, CpuError> {
    lift(M::load(m, a))
}

pub open spec fn put8<M: MMU>(m: M::Mem, a: u16, v: u8) -> Result<M::Mem, CpuError> {
    lift(M::store(m, a, v))
}

pub open spec fn get16<M: MMU>(m: M::Mem, a: u16) -> Result<u16, CpuError> {
    lift(load16::<M>(m, a))
}

pub open spec fn put16<M: MMU>(m: M::Mem, a: u16, v: u16) -> Result<M::Mem, CpuError> {
    lift(store16::<M>(m, a, v))
}

/// The byte after the opcode.
pub open spec fn arg8<M: MMU>(r: Registers, m: M::Mem) -> Result<u8, CpuError> {
    get8::<M>(m, next_addr(r.pc))
}

/// The little-endian word after the opcode.
pub open spec fn arg16<M: MMU>(r: Registers, m: M::Mem) -> Result<u16, CpuError> {
    get16::<M>(m, next_addr(r.pc))
}

/// The stack pointer moves down by two, then the word is written there.
pub open spec fn push_spec<M: MMU>(r: Registers, m: M::Mem, v: u16) -> Result<(Registers, M::Mem), CpuError> {
    let sp = add16(r.sp, -2);
    match put16::<M>(m, sp, v) {
        Ok(m1) => Ok((Registers { sp, ..r }, m1)),
        Err(e) => Err(e),
    }
}

/// The word at the stack pointer is read, then the stack pointer moves up
/// by two.
pub open spec fn pop_spec<M: MMU>(r: Registers, m: M::Mem) -> Result<(u16, Registers), CpuError> {
    match get16::<M>(m, r.sp) {
        Ok(v) => Ok((v, Registers { sp: add16(r.sp, 2), ..r })),
        Err(e) => Err(e),
    }
}

/// The result of an 8-bit rotate or shift of the extended table.
pub open spec fn shift_apply(op: ExtendedOpcode, r: Registers, x: u8) -> (u8, Registers) {
    match op {
        ExtendedOpcode::RLC(_) => rlc_spec(r, x),
        ExtendedOpcode::RRC(_) => rrc_spec(r, x),
        ExtendedOpcode::RL(_) => rl_spec(r, x),
        ExtendedOpcode::RR(_) => rr_spec(r, x),
        ExtendedOpcode::SLA(_) => sla_spec(r, x),
        ExtendedOpcode::SRA(_) => sra_spec(r, x),
        ExtendedOpcode::SWAP(_) => swap_spec(r, x),
        _ => srl_spec(r, x),
    }
}

/// An operation of the extended table: registers, bus contents and cycle
/// cost after it. Its operand is a register (8 cycles, 12 for a bit test
/// through HL) or the byte HL points at (16 cycles).
pub open spec fn cb_spec<M: MMU>(r: Registers, m: M::Mem, op: ExtendedOpcode) -> Result<(Registers, M::Mem, u8), CpuError> {
    let bad = Err(CpuError::UnimplementedOpcode(r.pc));
    match op {
        ExtendedOpcode::BIT(n, a) => if n >= 8 {
            bad
        } else {
            match a {
                Arg::Reg8(x) => Ok((bit_spec(r, n, r.get8(x)), m, 8u8)),
                Arg::PtrReg16(p) => match get8::<M>(m, r.get16(p)) {
                    Ok(v) => Ok((bit_spec(r, n, v), m, 12u8)),
                    Err(e) => Err(e),
                },
                _ => bad,
            }
        },
        ExtendedOpcode::RES(n, a) | ExtendedOpcode::SET(n, a) => if n >= 8 {
            bad
        } else {
            let f = |v: u8|
                if op is RES {
                    res_spec(v, n)
                } else {
                    set_spec(v, n)
                };
            match a {
                Arg::Reg8(x) => Ok((r.put8(x, f(r.get8(x))), m, 8u8)),
                Arg::PtrReg16(p) => match get8::<M>(m, r.get16(p)) {
                    Ok(v) => match put8::<M>(m, r.get16(p), f(v)) {
                        Ok(m1) => Ok((r, m1, 16u8)),
                        Err(e) => Err(e),
                    },
                    Err(e) => Err(e),
                },
                _ => bad,
            }
        },
        ExtendedOpcode::RLC(a) | ExtendedOpcode::RRC(a) | ExtendedOpcode::RL(a)
        | ExtendedOpcode::RR(a) | ExtendedOpcode::SLA(a) | ExtendedOpcode::SRA(a)
        | ExtendedOpcode::SWAP(a) | ExtendedOpcode::SRL(a) => match a {
            Arg::Reg8(x) => {
                let (v, r1) = shift_apply(op, r, r.get8(x));
                Ok((r1.put8(x, v), m, 8u8))
            },
            Arg::PtrReg16(p) => match get8::<M>(m, r.get16(p)) {
                Ok(v0) => {
                    let (v, r1) = shift_apply(op, r, v0);
                    match put8::<M>(m, r.get16(p), v) {
                        Ok(m1) => Ok((r1, m1, 16u8)),
                        Err(e) => Err(e),
                    }
                },
                Err(e) => Err(e),
            },
            _ => bad,
        },
    }
}

/// A rotate of the accumulator: as the extended rotate, Zero cleared.
pub open spec fn rotate_a(rot: (u8, Registers)) -> Registers {
    Registers { a: rot.0, zf: false, ..rot.1 }
}

/// The target of a relative jump: the displacement is added to the address
/// after the two-byte instruction.
pub open spec fn relative_target(pc: u16, d: u8) -> u16 {
    ((pc + 2 + signed8(d)) % 65536) as u16
}

/// The effect of executing `op`, fetched at `pc`, on the registers, the
/// interrupt latch and the bus contents. Operand bytes are read after the
/// current program counter of `r`.
#[verifier::opaque]
pub open spec fn exec_spec<M: MMU>(r: Registers, ime: u32, op: Opcode, pc: u16, m: M::Mem) -> Result<Outcome<M::Mem>, CpuError> {
    match op {
        Opcode::LD(Arg::Reg8(_), _) => load_reg8_spec::<M>(r, ime, op, pc, m),
        Opcode::LD(..) => load_spec::<M>(r, ime, op, pc, m),
        Opcode::LDI(..) | Opcode::LDD(..) => load_step_spec::<M>(r, ime, op, pc, m),
        Opcode::INC(Arg::Reg8(_)) | Opcode::INC(Arg::PtrReg16(_)) | Opcode::DEC(Arg::Reg8(_))
        | Opcode::DEC(Arg::PtrReg16(_)) => incdec8_spec::<M>(r, ime, op, pc, m),
        Opcode::ADD(..) | Opcode::INC(..) | Opcode::DEC(..) => arith_spec::<M>(r, ime, op, pc, m),
        Opcode::ALU(..) | Opcode::DAA | Opcode::CPL | Opcode::SCF | Opcode::CCF | Opcode::RLCA
        | Opcode::RRCA | Opcode::RLA | Opcode::RRA => logic_spec::<M>(r, ime, op, pc, m),
        _ => control_spec::<M>(r, ime, op, pc, m),
    }
}

/// Loads between registers, immediates and memory.
pub open spec fn load_spec<M: MMU>(r: Registers, ime: u32, op: Opcode, pc: u16, m: M::Mem) -> Result<Outcome<M::Mem>, CpuError> {
    let bad = Err(CpuError::UnimplementedOpcode(pc));
    match op {
        Opcode::LD(Arg::Addr16, Arg::Reg16(x)) => match arg16::<M>(r, m) {
            Ok(a) => match put16::<M>(m, a, r.get16(x)) {
                Ok(m1) => fall(r, ime, m1, 16),
                Err(e) => Err(e),
            },
            Err(e) => Err(e),
        },
        Opcode::LD(Arg::Reg16(x), Arg::Imm16) => match arg16::<M>(r, m) {
            Ok(v) => fall(r.put16(x, v), ime, m, 12),
            Err(e) => Err(e),
        },
        Opcode::LD(Arg::PtrReg16(p), Arg::Imm8) => match arg8::<M>(r, m) {
            Ok(v) => match put8::<M>(m, r.get16(p), v) {
                Ok(m1) => fall(r, ime, m1, 12),
                Err(e) => Err(e),
            },
            Err(e) => Err(e),
        },
        Opcode::LD(Arg::PtrReg16(p), Arg::Reg8(y)) | Opcode::LD(Arg::Reg16(p), Arg::Reg8(y)) => match put8::<M>(m, r.get16(p), r.get8(y)) {
            Ok(m1) => fall(r, ime, m1, 8),
            Err(e) => Err(e),
        },
        Opcode::LD(Arg::Reg16(x), Arg::SPPlusImm8) => match arg8::<M>(r, m) {
            Ok(d) => {
                let (v, r1) = add16imm_spec(r, r.sp, d);
                fall(r1.put16(x, v), ime, m, 12)
            },
            Err(e) => Err(e),
        },
        Opcode::LD(Arg::FF00PlusImm8, Arg::Reg8(y)) => match arg8::<M>(r, m) {
            Ok(d) => match put8::<M>(m, (0xFF00 + d) as u16, r.get8(y)) {
                Ok(m1) => fall(r, ime, m1, 12),
                Err(e) => Err(e),
            },
            Err(e) => Err(e),
        },
        Opcode::LD(Arg::PtrReg8(p), Arg::Reg8(y)) => match put8::<M>(m, (0xFF00 + r.get8(p)) as u16, r.get8(y)) {
            Ok(m1) => fall(r, ime, m1, 8),
            Err(e) => Err(e),
        },
        Opcode::LD(Arg::Addr16, Arg::Reg8(y)) => match arg16::<M>(r, m) {
            Ok(a) => match put8::<M>(m, a, r.get8(y)) {
                Ok(m1) => fall(r, ime, m1, 16),
                Err(e) => Err(e),
            },
            Err(e) => Err(e),
        },
        Opcode::LD(Arg::Reg16(x), Arg::Reg16(y)) => fall(r.put16(x, r.get16(y)), ime, m, 8),
        _ => bad,
    }
}

/// Loads into an 8-bit register.
pub open spec fn load_reg8_spec<M: MMU>(r: Registers, ime: u32, op: Opcode, pc: u16, m: M::Mem) -> Result<Outcome<M::Mem>, CpuError> {
    let bad = Err(CpuError::UnimplementedOpcode(pc));
    match op {
        Opcode::LD(Arg::Reg8(x), Arg::Imm8) => match arg8::<M>(r, m) {
            Ok(v) => fall(r.put8(x, v), ime, m, 8),
            Err(e) => Err(e),
        },
        Opcode::LD(Arg::Reg8(x), Arg::Reg8(y)) => fall(r.put8(x, r.get8(y)), ime, m, 4),
        Opcode::LD(Arg::Reg8(x), Arg::PtrReg16(p)) | Opcode::LD(Arg::Reg8(x), Arg::Reg16(p)) => match get8::<M>(m, r.get16(p)) {
            Ok(v) => fall(r.put8(x, v), ime, m, 8),
            Err(e) => Err(e),
        },
        Opcode::LD(Arg::Reg8(x), Arg::FF00PlusImm8) => match arg8::<M>(r, m) {
            Ok(d) => match get8::<M>(m, (0xFF00 + d) as u16) {
                Ok(v) => fall(r.put8(x, v), ime, m, 12),
                Err(e) => Err(e),
            },
            Err(e) => Err(e),
        },
        Opcode::LD(Arg::Reg8(x), Arg::PtrReg8(p)) => match get8::<M>(m, (0xFF00 + r.get8(p)) as u16) {
            Ok(v) => fall(r.put8(x, v), ime, m, 8),
            Err(e) => Err(e),
        },
        Opcode::LD(Arg::Reg8(x), Arg::Addr16) => match arg16::<M>(r, m) {
            Ok(a) => match get8::<M>(m, a) {
                Ok(v) => fall(r.put8(x, v), ime, m, 16),
                Err(e) => Err(e),
            },
            Err(e) => Err(e),
        },
        _ => bad,
    }
}

/// Loads through HL that step HL up or down.
pub open spec fn load_step_spec<M: MMU>(r: Registers, ime: u32, op: Opcode, pc: u16, m: M::Mem) -> Result<Outcome<M::Mem>, CpuError> {
    let bad = Err(CpuError::UnimplementedOpcode(pc));
    match op {
        Opcode::LDI(Arg::PtrReg16(p), Arg::Reg8(x)) | Opcode::LDD(Arg::PtrReg16(p), Arg::Reg8(x)) => {
            let step: int = if op is LDI { 1 } else { -1 };
            match put8::<M>(m, r.get16(p), r.get8(x)) {
                Ok(m1) => fall(r.put16(Register16::HL, add16(r.get16(p), step)), ime, m1, 8),
                Err(e) => Err(e),
            }
        },
        Opcode::LDI(Arg::Reg8(x), Arg::PtrReg16(p)) | Opcode::LDD(Arg::Reg8(x), Arg::PtrReg16(p)) => {
            let step: int = if op is LDI { 1 } else { -1 };
            match get8::<M>(m, r.get16(p)) {
                Ok(v) => {
                    let r1 = r.put8(x, v);
                    fall(r1.put16(Register16::HL, add16(r1.get16(p), step)), ime, m, 8)
                },
                Err(e) => Err(e),
            }
        },
        _ => bad,
    }
}

/// Arithmetic, logic, rotates of the accumulator and flag operations.
pub open spec fn arith_spec<M: MMU>(r: Registers, ime: u32, op: Opcode, pc: u16, m: M::Mem) -> Result<Outcome<M::Mem>, CpuError> {
    let bad = Err(CpuError::UnimplementedOpcode(pc));
    match op {
        Opcode::ADD(Arg::Reg16(Register16::HL), Arg::Reg16(x)) => {
            let (v, r1) = add_hl_spec(r, r.get16(Register16::HL), r.get16(x));
            fall(r1.put16(Register16::HL, v), ime, m, 8)
        },
        Opcode::INC(Arg::Reg16(x)) => fall(r.put16(x, add16(r.get16(x), 1)), ime, m, 8),
        Opcode::DEC(Arg::Reg16(x)) => fall(r.put16(x, add16(r.get16(x), -1)), ime, m, 8),
        Opcode::ADD(Arg::Reg16(x), Arg::Imm8) => match arg8::<M>(r, m) {
            Ok(d) => {
                let (v, r1) = add16imm_spec(r, r.get16(x), d);
                fall(r1.put16(x, v), ime, m, 16)
            },
            Err(e) => Err(e),
        },
        _ => bad,
    }
}

/// 8-bit increment and decrement of a register or of the byte a pair points at.
pub open spec fn incdec8_spec<M: MMU>(r: Registers, ime: u32, op: Opcode, pc: u16, m: M::Mem) -> Result<Outcome<M::Mem>, CpuError> {
    let bad = Err(CpuError::UnimplementedOpcode(pc));
    match op {
        Opcode::INC(Arg::Reg8(x)) => {
            let (v, r1) = inc_spec(r, r.get8(x));
            fall(r1.put8(x, v), ime, m, 4)
        },
        Opcode::DEC(Arg::Reg8(x)) => {
            let (v, r1) = dec_spec(r, r.get8(x));
            fall(r1.put8(x, v), ime, m, 8)
        },
        Opcode::INC(Arg::PtrReg16(p)) | Opcode::DEC(Arg::PtrReg16(p)) => match get8::<M>(m, r.get16(p)) {
            Ok(x) => {
                let (v, r1) = if op is INC {
                    inc_spec(r, x)
                } else {
                    dec_spec(r, x)
                };
                match put8::<M>(m, r.get16(p), v) {
                    Ok(m1) => fall(r1, ime, m1, 12),
                    Err(e) => Err(e),
                }
            },
            Err(e) => Err(e),
        },
        _ => bad,
    }
}

/// Operations against the accumulator and the flags.
pub open spec fn logic_spec<M: MMU>(r: Registers, ime: u32, op: Opcode, pc: u16, m: M::Mem) -> Result<Outcome<M::Mem>, CpuError> {
    let bad = Err(CpuError::UnimplementedOpcode(pc));
    match op {
        Opcode::RLCA => fall(rotate_a(rlc_spec(r, r.a)), ime, m, 4),
        Opcode::RRCA => fall(rotate_a(rrc_spec(r, r.a)), ime, m, 4),
        Opcode::RLA => fall(rotate_a(rl_spec(r, r.a)), ime, m, 4),
        Opcode::RRA => fall(rotate_a(rr_spec(r, r.a)), ime, m, 4),
        Opcode::DAA => fall(daa_spec(r), ime, m, 4),
        Opcode::CPL => fall(Registers { a: (255 - r.a) as u8, nf: true, hf: true, ..r }, ime, m, 4),
        Opcode::SCF => fall(Registers { cf: true, nf: false, hf: false, ..r }, ime, m, 4),
        Opcode::CCF => fall(Registers { cf: !r.cf, nf: false, hf: false, ..r }, ime, m, 4),
        Opcode::ALU(o, Arg::Reg8(Register8::A), Arg::Reg8(x)) => fall(alu_spec(o, r, r.get8(x)), ime, m, 4),
        Opcode::ALU(o, Arg::Reg8(Register8::A), Arg::PtrReg16(p)) => match get8::<M>(m, r.get16(p)) {
            Ok(d) => fall(alu_spec(o, r, d), ime, m, 8),
            Err(e) => Err(e),
        },
        Opcode::ALU(o, Arg::Reg8(Register8::A), Arg::Imm8) => match arg8::<M>(r, m) {
            Ok(d) => fall(alu_spec(o, r, d), ime, m, 8),
            Err(e) => Err(e),
        },
        _ => bad,
    }
}

/// Jumps, calls, returns, the stack, the interrupt latch and the extended prefix.
pub open spec fn control_spec<M: MMU>(r: Registers, ime: u32, op: Opcode, pc: u16, m: M::Mem) -> Result<Outcome<M::Mem>, CpuError> {
    let bad = Err(CpuError::UnimplementedOpcode(pc));
    match op {
        Opcode::NOP => fall(r, ime, m, 4),
        Opcode::JUMP(c, Arg::Imm8) => if condition_holds(r, c) {
            match arg8::<M>(r, m) {
                Ok(d) => goto(r, ime, m, relative_target(pc, d), 12),
                Err(e) => Err(e),
            }
        } else {
            fall(r, ime, m, 8)
        },
        Opcode::POP(x) => match pop_spec::<M>(r, m) {
            Ok((v, r1)) => fall(r1.put16(x, v), ime, m, 12),
            Err(e) => Err(e),
        },
        Opcode::PUSH(x) => match push_spec::<M>(r, m, r.get16(x)) {
            Ok((r1, m1)) => fall(r1, ime, m1, 16),
            Err(e) => Err(e),
        },
        Opcode::RST(n) => match push_spec::<M>(r, m, add16(pc, 1)) {
            Ok((r1, m1)) => goto(r1, ime, m1, (n * 8) as u16, 16),
            Err(e) => Err(e),
        },
        Opcode::RET(c) => if condition_holds(r, c) {
            match pop_spec::<M>(r, m) {
                Ok((v, r1)) => goto(r1, ime, m, v, if c is Always { 16u8 } else { 20u8 }),
                Err(e) => Err(e),
            }
        } else {
            fall(r, ime, m, 8)
        },
        Opcode::RETI => match pop_spec::<M>(r, m) {
            Ok((v, r1)) => goto(r1, 1, m, v, 16),
            Err(e) => Err(e),
        },
        Opcode::JUMP(c, Arg::Addr16) => if condition_holds(r, c) {
            match arg16::<M>(r, m) {
                Ok(a) => goto(r, ime, m, a, 12),
                Err(e) => Err(e),
            }
        } else {
            fall(r, ime, m, 8)
        },
        Opcode::CALL(c, Arg::Addr16) => if condition_holds(r, c) {
            match push_spec::<M>(r, m, add16(pc, 3)) {
                Ok((r1, m1)) => match arg16::<M>(r1, m1) {
                    Ok(a) => goto(r1, ime, m1, a, 24),
                    Err(e) => Err(e),
                },
                Err(e) => Err(e),
            }
        } else {
            fall(r, ime, m, 12)
        },
        Opcode::JUMP(JumpCondition::Always, Arg::Reg16(x)) => goto(r, ime, m, r.get16(x), 4),
        Opcode::DI => fall(r, 0, m, 4),
        Opcode::EI => fall(r, 1, m, 4),
        Opcode::CALLBACK => match arg8::<M>(r, m) {
            Ok(b) => match cb_spec::<M>(r, m, decode_extended_spec(b)) {
                Ok((r1, m1, k)) => fall(r1, ime, m1, k),
                Err(e) => Err(e),
            },
            Err(e) => Err(e),
        },
        _ => bad,
    }
}

fn bus_read8<M: MMU>(mmu: &M, a: u16) -> (r: Result<u8, CpuError>)
    ensures
        r == get8::<M>(mmu.mem(), a),
{
    match mmu.read8(a) {
        Ok(v) => Ok(v),
        Err(e) => Err(CpuError::Bus(e)),
    }
}

fn bus_read16<M: MMU>(mmu: &M, a: u16) -> (r: Result<u16, CpuError>)
    ensures
        r == get16::<M>(mmu.mem(), a),
{
    match mmu.read16(a) {
        Ok(v) => Ok(v),
        Err(e) => Err(CpuError::Bus(e)),
    }
}

fn bus_write8<M: MMU>(mmu: &mut M, a: u16, v: u8) -> (r: Result<(), CpuError>)
    ensures
        match put8::<M>(old(mmu).mem(), a, v) {
            Ok(m) => r is Ok && final(mmu).mem() == m,
            Err(e) => r == Err::<(), CpuError>(e),
        },
{
    match mmu.write8(a, v) {
        Ok(()) => Ok(()),
        Err(e) => Err(CpuError::Bus(e)),
    }
}

fn bus_write16<M: MMU>(mmu: &mut M, a: u16, v: u16) -> (r: Result<(), CpuError>)
    ensures
        match put16::<M>(old(mmu).mem(), a, v) {
            Ok(m) => r is Ok && final(mmu).mem() == m,
            Err(e) => r == Err::<(), CpuError>(e),
        },
{
    match mmu.write16(a, v) {
        Ok(()) => Ok(()),
        Err(e) => Err(CpuError::Bus(e)),
    }
}

impl CPU {
    /// Moves the stack pointer down by two and writes `value` there.
    pub fn push<M: MMU>(&mut self, value: u16, mmu: &mut M) -> (r: Result<(), CpuError>)
        ensures
            match push_spec::<M>(old(self).regs, old(mmu).mem(), value) {
                Ok((regs, m)) => r is Ok && final(self).regs == regs && final(mmu).mem() == m,
                Err(e) => r == Err::<(), CpuError>(e),
            },
            final(self).interrupts == old(self).interrupts,
            final(self).cycles == old(self).cycles,
            final(self).last_instr_cycles == old(self).last_instr_cycles,
    {
        let sp = self.regs.sp().wrapping_sub(2);
        self.regs.set_sp(sp);
        bus_write16(mmu, sp, value)
    }

    /// Reads the word at the stack pointer and moves the stack pointer up by
    /// two.
    pub fn pop<M: MMU>(&mut self, mmu: &M) -> (r: Result<u16, CpuError>)
        ensures
            match pop_spec::<M>(old(self).regs, mmu.mem()) {
                Ok((v, regs)) => r == Ok::<u16, CpuError>(v) && final(self).regs == regs,
                Err(e) => r == Err::<u16, CpuError>(e),
            },
            final(self).interrupts == old(self).interrupts,
            final(self).cycles == old(self).cycles,
            final(self).last_instr_cycles == old(self).last_instr_cycles,
    {
        match bus_read16(mmu, self.regs.sp()) {
            Ok(v) => {
                self.regs.set_sp(self.regs.sp().wrapping_add(2));
                Ok(v)
            },
            Err(e) => Err(e),
        }
    }

    fn read_arg8<M: MMU>(&self, mmu: &M) -> (r: Result<u8, CpuError>)
        ensures
            r == arg8::<M>(self.regs, mmu.mem()),
    {
        bus_read8(mmu, self.regs.pc().wrapping_add(1))
    }

    fn read_arg16<M: MMU>(&self, mmu: &M) -> (r: Result<u16, CpuError>)
        ensures
            r == arg16::<M>(self.regs, mmu.mem()),
    {
        bus_read16(mmu, self.regs.pc().wrapping_add(1))
    }

    /// Runs an operation of the extended table and returns its cycle cost.
    #[verifier::rlimit(100)]
    pub fn exec_cb<M: MMU>(&mut self, decoded_opcode: ExtendedOpcode, mmu: &mut M) -> (r: Result<u8, CpuError>)
        ensures
            match cb_spec::<M>(old(self).regs, old(mmu).mem(), decoded_opcode) {
                Ok((regs, m, k)) => r == Ok::<u8, CpuError>(k) && final(self).regs == regs && final(mmu).mem() == m,
                Err(e) => r == Err::<u8, CpuError>(e),
            },
            final(self).interrupts == old(self).interrupts,
            final(self).cycles == old(self).cycles,
            final(self).last_instr_cycles == old(self).last_instr_cycles,
    {
        let bad = Err(CpuError::UnimplementedOpcode(self.regs.pc()));
        match decoded_opcode {
            ExtendedOpcode::BIT(n, arg) => {
                if n >= 8 {
                    return bad;
                }
                match arg {
                    Arg::Reg8(x) => {
                        let v = self.regs.read8(x);
                        self.alu_bit(n, v);
                        Ok(8)
                    },
                    Arg::PtrReg16(p) => match bus_read8(mmu, self.regs.read16(p)) {
                        Ok(v) => {
                            self.alu_bit(n, v);
                            Ok(12)
                        },
                        Err(e) => Err(e),
                    },
                    _ => bad,
                }
            },
            ExtendedOpcode::RES(n, arg) | ExtendedOpcode::SET(n, arg) => {
                if n >= 8 {
                    return bad;
                }
                let res = matches!(decoded_opcode, ExtendedOpcode::RES(_, _));
                match arg {
                    Arg::Reg8(x) => {
                        let v = self.regs.read8(x);
                        let w = if res { v & !(1u8 << n) } else { v | (1u8 << n) };
                        self.regs.write8(x, w);
                        Ok(8)
                    },
                    Arg::PtrReg16(p) => {
                        let ptr = self.regs.read16(p);
                        match bus_read8(mmu, ptr) {
                            Ok(v) => {
                                let w = if res { v & !(1u8 << n) } else { v | (1u8 << n) };
                                match bus_write8(mmu, ptr, w) {
                                    Ok(()) => Ok(16),
                                    Err(e) => Err(e),
                                }
                            },
                            Err(e) => Err(e),
                        }
                    },
                    _ => bad,
                }
            },
            ExtendedOpcode::RLC(arg) | ExtendedOpcode::RRC(arg) | ExtendedOpcode::RL(arg)
            | ExtendedOpcode::RR(arg) | ExtendedOpcode::SLA(arg) | ExtendedOpcode::SRA(arg)
            | ExtendedOpcode::SWAP(arg) | ExtendedOpcode::SRL(arg) => {
                match arg {
                    Arg::Reg8(x) => {
                        let v = self.regs.read8(x);
                        let w = self.shift(decoded_opcode, v);
                        self.regs.write8(x, w);
                        Ok(8)
                    },
                    Arg::PtrReg16(p) => {
                        let ptr = self.regs.read16(p);
                        match bus_read8(mmu, ptr) {
                            Ok(v) => {
                                let w = self.shift(decoded_opcode, v);
                                match bus_write8(mmu, ptr, w) {
                                    Ok(()) => Ok(16),
                                    Err(e) => Err(e),
                                }
                            },
                            Err(e) => Err(e),
                        }
                    },
                    _ => bad,
                }
            },
        }
    }

    /// The rotate or shift that `op` names, applied to `v`.
    fn shift(&mut self, op: ExtendedOpcode, v: u8) -> (r: u8)
        ensures
            (r, final(self).regs) == shift_apply(op, old(self).regs, v),
            final(self).interrupts == old(self).interrupts,
            final(self).cycles == old(self).cycles,
            final(self).last_instr_cycles == old(self).last_instr_cycles,
    {
        match op {
            ExtendedOpcode::RLC(_) => self.alu_rlc(v),
            ExtendedOpcode::RRC(_) => self.alu_rrc(v),
            ExtendedOpcode::RL(_) => self.alu_rl(v),
            ExtendedOpcode::RR(_) => self.alu_rr(v),
            ExtendedOpcode::SLA(_) => self.alu_sla(v),
            ExtendedOpcode::SRA(_) => self.alu_sra(v),
            ExtendedOpcode::SWAP(_) => self.alu_swap(v),
            _ => self.alu_srl(v),
        }
    }
}

impl CPU {
    /// Executes `opcode`, fetched at `pc`; operand bytes are read after the
    /// current program counter. Returns where execution goes next, if not
    /// to the following instruction, and the cycle cost.
    pub fn exec_opcode<M: MMU>(&mut self, opcode: Opcode, pc: u16, mmu: &mut M) -> (r: Result<ExecResult, CpuError>)
        ensures
            match exec_spec::<M>(old(self).regs, old(self).interrupts, opcode, pc, old(mmu).mem()) {
                Ok(o) => r == Ok::<ExecResult, CpuError>((o.jump, o.cycles)) && final(self).regs == o.regs
                    && final(self).interrupts == o.interrupts && final(mmu).mem() == o.mem,
                Err(e) => r == Err::<ExecResult, CpuError>(e),
            },
            final(self).cycles == old(self).cycles,
            final(self).last_instr_cycles == old(self).last_instr_cycles,
    {
        proof {
            reveal(exec_spec);
        }
        match opcode {
            Opcode::LD(Arg::Reg8(_), _) => self.exec_load_reg8(opcode, pc, mmu),
            Opcode::LD(..) => self.exec_load(opcode, pc, mmu),
            Opcode::LDI(..) | Opcode::LDD(..) => self.exec_load_step(opcode, pc, mmu),
            Opcode::INC(Arg::Reg8(_)) | Opcode::INC(Arg::PtrReg16(_)) | Opcode::DEC(Arg::Reg8(_))
            | Opcode::DEC(Arg::PtrReg16(_)) => self.exec_incdec8(opcode, pc, mmu),
            Opcode::ADD(..) | Opcode::INC(..) | Opcode::DEC(..) => self.exec_arith(opcode, pc, mmu),
            Opcode::ALU(..) | Opcode::DAA | Opcode::CPL | Opcode::SCF | Opcode::CCF | Opcode::RLCA
            | Opcode::RRCA | Opcode::RLA | Opcode::RRA => self.exec_logic(opcode, pc, mmu),
            _ => self.exec_control(opcode, pc, mmu),
        }
    }

    /// Loads between registers, immediates and memory.
    #[verifier::spinoff_prover]
    #[verifier::rlimit(100)]
    fn exec_load<M: MMU>(&mut self, opcode: Opcode, pc: u16, mmu: &mut M) -> (r: Result<ExecResult, CpuError>)
        requires
            opcode is LD && !(opcode->LD_0 is Reg8),
        ensures
            match load_spec::<M>(old(self).regs, old(self).interrupts, opcode, pc, old(mmu).mem()) {
                Ok(o) => r == Ok::<ExecResult, CpuError>((o.jump, o.cycles)) && final(self).regs == o.regs
                    && final(self).interrupts == o.interrupts && final(mmu).mem() == o.mem,
                Err(e) => r == Err::<ExecResult, CpuError>(e),
            },
            final(self).cycles == old(self).cycles,
            final(self).last_instr_cycles == old(self).last_instr_cycles,
    {
        let bad = Err(CpuError::UnimplementedOpcode(pc));
        match opcode {
            Opcode::LD(Arg::Addr16, Arg::Reg16(x)) => match self.read_arg16(mmu) {
                Ok(a) => match bus_write16(mmu, a, self.regs.read16(x)) {
                    Ok(()) => Ok((None, 16)),
                    Err(e) => Err(e),
                },
                Err(e) => Err(e),
            },
            Opcode::LD(Arg::Reg16(x), Arg::Imm16) => match self.read_arg16(mmu) {
                Ok(v) => {
                    self.regs.write16(x, v);
                    Ok((None, 12))
                },
                Err(e) => Err(e),
            },
            Opcode::LD(Arg::PtrReg16(p), Arg::Imm8) => match self.read_arg8(mmu) {
                Ok(v) => match bus_write8(mmu, self.regs.read16(p), v) {
                    Ok(()) => Ok((None, 12)),
                    Err(e) => Err(e),
                },
                Err(e) => Err(e),
            },
            Opcode::LD(Arg::PtrReg16(p), Arg::Reg8(y)) | Opcode::LD(Arg::Reg16(p), Arg::Reg8(y)) => {
                match bus_write8(mmu, self.regs.read16(p), self.regs.read8(y)) {
                    Ok(()) => Ok((None, 8)),
                    Err(e) => Err(e),
                }
            },
            Opcode::LD(Arg::Reg16(x), Arg::SPPlusImm8) => match self.read_arg8(mmu) {
                Ok(d) => {
                    let v = self.alu_add16imm(self.regs.sp(), d);
                    self.regs.write16(x, v);
                    Ok((None, 12))
                },
                Err(e) => Err(e),
            },
            Opcode::LD(Arg::FF00PlusImm8, Arg::Reg8(y)) => match self.read_arg8(mmu) {
                Ok(d) => match bus_write8(mmu, 0xFF00 + d as u16, self.regs.read8(y)) {
                    Ok(()) => Ok((None, 12)),
                    Err(e) => Err(e),
                },
                Err(e) => Err(e),
            },
            Opcode::LD(Arg::PtrReg8(p), Arg::Reg8(y)) => {
                match bus_write8(mmu, 0xFF00 + self.regs.read8(p) as u16, self.regs.read8(y)) {
                    Ok(()) => Ok((None, 8)),
                    Err(e) => Err(e),
                }
            },
            Opcode::LD(Arg::Addr16, Arg::Reg8(y)) => match self.read_arg16(mmu) {
                Ok(a) => match bus_write8(mmu, a, self.regs.read8(y)) {
                    Ok(()) => Ok((None, 16)),
                    Err(e) => Err(e),
                },
                Err(e) => Err(e),
            },
            Opcode::LD(Arg::Reg16(x), Arg::Reg16(y)) => {
                self.regs.write16(x, self.regs.read16(y));
                Ok((None, 8))
            },
            _ => bad,
        }
    }

    /// Loads into an 8-bit register.
    #[verifier::spinoff_prover]
    #[verifier::rlimit(100)]
    fn exec_load_reg8<M: MMU>(&mut self, opcode: Opcode, pc: u16, mmu: &mut M) -> (r: Result<ExecResult, CpuError>)
        requires
            opcode is LD && opcode->LD_0 is Reg8,
        ensures
            match load_reg8_spec::<M>(old(self).regs, old(self).interrupts, opcode, pc, old(mmu).mem()) {
                Ok(o) => r == Ok::<ExecResult, CpuError>((o.jump, o.cycles)) && final(self).regs == o.regs
                    && final(self).interrupts == o.interrupts && final(mmu).mem() == o.mem,
                Err(e) => r == Err::<ExecResult, CpuError>(e),
            },
            final(self).cycles == old(self).cycles,
            final(self).last_instr_cycles == old(self).last_instr_cycles,
    {
        let bad = Err(CpuError::UnimplementedOpcode(pc));
        match opcode {
            Opcode::LD(Arg::Reg8(x), Arg::Imm8) => match self.read_arg8(mmu) {
                Ok(v) => {
                    self.regs.write8(x, v);
                    Ok((None, 8))
                },
                Err(e) => Err(e),
            },
            Opcode::LD(Arg::Reg8(x), Arg::Reg8(y)) => {
                self.regs.write8(x, self.regs.read8(y));
                Ok((None, 4))
            },
            Opcode::LD(Arg::Reg8(x), Arg::PtrReg16(p)) | Opcode::LD(Arg::Reg8(x), Arg::Reg16(p)) => {
                match bus_read8(mmu, self.regs.read16(p)) {
                    Ok(v) => {
                        self.regs.write8(x, v);
                        Ok((None, 8))
                    },
                    Err(e) => Err(e),
                }
            },
            Opcode::LD(Arg::Reg8(x), Arg::FF00PlusImm8) => match self.read_arg8(mmu) {
                Ok(d) => match bus_read8(mmu, 0xFF00 + d as u16) {
                    Ok(v) => {
                        self.regs.write8(x, v);
                        Ok((None, 12))
                    },
                    Err(e) => Err(e),
                },
                Err(e) => Err(e),
            },
            Opcode::LD(Arg::Reg8(x), Arg::PtrReg8(p)) => {
                match bus_read8(mmu, 0xFF00 + self.regs.read8(p) as u16) {
                    Ok(v) => {
                        self.regs.write8(x, v);
                        Ok((None, 8))
                    },
                    Err(e) => Err(e),
                }
            },
            Opcode::LD(Arg::Reg8(x), Arg::Addr16) => match self.read_arg16(mmu) {
                Ok(a) => match bus_read8(mmu, a) {
                    Ok(v) => {
                        self.regs.write8(x, v);
                        Ok((None, 16))
                    },
                    Err(e) => Err(e),
                },
                Err(e) => Err(e),
            },
            _ => bad,
        }
    }

    /// Loads through HL that step HL up or down.
    #[verifier::spinoff_prover]
    #[verifier::rlimit(100)]
    fn exec_load_step<M: MMU>(&mut self, opcode: Opcode, pc: u16, mmu: &mut M) -> (r: Result<ExecResult, CpuError>)
        requires
            opcode is LDI || opcode is LDD,
        ensures
            match load_step_spec::<M>(old(self).regs, old(self).interrupts, opcode, pc, old(mmu).mem()) {
                Ok(o) => r == Ok::<ExecResult, CpuError>((o.jump, o.cycles)) && final(self).regs == o.regs
                    && final(self).interrupts == o.interrupts && final(mmu).mem() == o.mem,
                Err(e) => r == Err::<ExecResult, CpuError>(e),
            },
            final(self).cycles == old(self).cycles,
            final(self).last_instr_cycles == old(self).last_instr_cycles,
    {
        let bad = Err(CpuError::UnimplementedOpcode(pc));
        match opcode {
            Opcode::LDI(Arg::PtrReg16(p), Arg::Reg8(x)) => {
                match bus_write8(mmu, self.regs.read16(p), self.regs.read8(x)) {
                    Ok(()) => {
                        self.regs.set_hl(self.regs.read16(p).wrapping_add(1));
                        Ok((None, 8))
                    },
                    Err(e) => Err(e),
                }
            },
            Opcode::LDD(Arg::PtrReg16(p), Arg::Reg8(x)) => {
                match bus_write8(mmu, self.regs.read16(p), self.regs.read8(x)) {
                    Ok(()) => {
                        self.regs.set_hl(self.regs.read16(p).wrapping_sub(1));
                        Ok((None, 8))
                    },
                    Err(e) => Err(e),
                }
            },
            Opcode::LDI(Arg::Reg8(x), Arg::PtrReg16(p)) => {
                match bus_read8(mmu, self.regs.read16(p)) {
                    Ok(v) => {
                        self.regs.write8(x, v);
                        self.regs.set_hl(self.regs.read16(p).wrapping_add(1));
                        Ok((None, 8))
                    },
                    Err(e) => Err(e),
                }
            },
            Opcode::LDD(Arg::Reg8(x), Arg::PtrReg16(p)) => {
                match bus_read8(mmu, self.regs.read16(p)) {
                    Ok(v) => {
                        self.regs.write8(x, v);
                        self.regs.set_hl(self.regs.read16(p).wrapping_sub(1));
                        Ok((None, 8))
                    },
                    Err(e) => Err(e),
                }
            },
            _ => bad,
        }
    }

    /// Arithmetic, logic, rotates of the accumulator and flag operations.
    #[verifier::spinoff_prover]
    #[verifier::rlimit(100)]
    fn exec_arith<M: MMU>(&mut self, opcode: Opcode, pc: u16, mmu: &mut M) -> (r: Result<ExecResult, CpuError>)
        requires
            opcode is ADD || (opcode is INC && !(opcode->INC_0 is Reg8 || opcode->INC_0 is PtrReg16))
                || (opcode is DEC && !(opcode->DEC_0 is Reg8 || opcode->DEC_0 is PtrReg16)),
        ensures
            match arith_spec::<M>(old(self).regs, old(self).interrupts, opcode, pc, old(mmu).mem()) {
                Ok(o) => r == Ok::<ExecResult, CpuError>((o.jump, o.cycles)) && final(self).regs == o.regs
                    && final(self).interrupts == o.interrupts && final(mmu).mem() == o.mem,
                Err(e) => r == Err::<ExecResult, CpuError>(e),
            },
            final(self).cycles == old(self).cycles,
            final(self).last_instr_cycles == old(self).last_instr_cycles,
    {
        let bad = Err(CpuError::UnimplementedOpcode(pc));
        match opcode {
            Opcode::ADD(Arg::Reg16(Register16::HL), Arg::Reg16(x)) => {
                self.alu_add_hl(self.regs.read16(x));
                Ok((None, 8))
            },
            Opcode::INC(Arg::Reg16(x)) => {
                let v = self.regs.read16(x);
                let w = v.wrapping_add(1);
                assert(w == add16(v, 1));
                self.regs.write16(x, w);
                Ok((None, 8))
            },
            Opcode::DEC(Arg::Reg16(x)) => {
                let v = self.regs.read16(x);
                let w = v.wrapping_sub(1);
                assert(w == add16(v, -1));
                self.regs.write16(x, w);
                Ok((None, 8))
            },
            Opcode::ADD(Arg::Reg16(x), Arg::Imm8) => match self.read_arg8(mmu) {
                Ok(d) => {
                    let v = self.alu_add16imm(self.regs.read16(x), d);
                    self.regs.write16(x, v);
                    Ok((None, 16))
                },
                Err(e) => Err(e),
            },
            _ => bad,
        }
    }

    /// 8-bit increment and decrement of a register or of the byte a pair points at.
    #[verifier::spinoff_prover]
    #[verifier::rlimit(100)]
    fn exec_incdec8<M: MMU>(&mut self, opcode: Opcode, pc: u16, mmu: &mut M) -> (r: Result<ExecResult, CpuError>)
        requires
            (opcode is INC && (opcode->INC_0 is Reg8 || opcode->INC_0 is PtrReg16)) || (opcode is DEC
                && (opcode->DEC_0 is Reg8 || opcode->DEC_0 is PtrReg16)),
        ensures
            match incdec8_spec::<M>(old(self).regs, old(self).interrupts, opcode, pc, old(mmu).mem()) {
                Ok(o) => r == Ok::<ExecResult, CpuError>((o.jump, o.cycles)) && final(self).regs == o.regs
                    && final(self).interrupts == o.interrupts && final(mmu).mem() == o.mem,
                Err(e) => r == Err::<ExecResult, CpuError>(e),
            },
            final(self).cycles == old(self).cycles,
            final(self).last_instr_cycles == old(self).last_instr_cycles,
    {
        let bad = Err(CpuError::UnimplementedOpcode(pc));
        match opcode {
            Opcode::INC(Arg::Reg8(x)) => {
                let v = self.alu_inc(self.regs.read8(x));
                self.regs.write8(x, v);
                Ok((None, 4))
            },
            Opcode::DEC(Arg::Reg8(x)) => {
                let v = self.alu_dec(self.regs.read8(x));
                self.regs.write8(x, v);
                Ok((None, 8))
            },
            Opcode::INC(Arg::PtrReg16(p)) => {
                let ptr = self.regs.read16(p);
                match bus_read8(mmu, ptr) {
                    Ok(x) => {
                        let v = self.alu_inc(x);
                        match bus_write8(mmu, ptr, v) {
                            Ok(()) => Ok((None, 12)),
                            Err(e) => Err(e),
                        }
                    },
                    Err(e) => Err(e),
                }
            },
            Opcode::DEC(Arg::PtrReg16(p)) => {
                let ptr = self.regs.read16(p);
                match bus_read8(mmu, ptr) {
                    Ok(x) => {
                        let v = self.alu_dec(x);
                        match bus_write8(mmu, ptr, v) {
                            Ok(()) => Ok((None, 12)),
                            Err(e) => Err(e),
                        }
                    },
                    Err(e) => Err(e),
                }
            },
            _ => bad,
        }
    }

    /// Operations against the accumulator and the flags.
    #[verifier::spinoff_prover]
    #[verifier::rlimit(100)]
    fn exec_logic<M: MMU>(&mut self, opcode: Opcode, pc: u16, mmu: &mut M) -> (r: Result<ExecResult, CpuError>)
        requires
            opcode is ALU || opcode is DAA || opcode is CPL || opcode is SCF || opcode is CCF || opcode is RLCA || opcode is RRCA || opcode is RLA || opcode is RRA,
        ensures
            match logic_spec::<M>(old(self).regs, old(self).interrupts, opcode, pc, old(mmu).mem()) {
                Ok(o) => r == Ok::<ExecResult, CpuError>((o.jump, o.cycles)) && final(self).regs == o.regs
                    && final(self).interrupts == o.interrupts && final(mmu).mem() == o.mem,
                Err(e) => r == Err::<ExecResult, CpuError>(e),
            },
            final(self).cycles == old(self).cycles,
            final(self).last_instr_cycles == old(self).last_instr_cycles,
    {
        let bad = Err(CpuError::UnimplementedOpcode(pc));
        match opcode {
            Opcode::RLCA => {
                let v = self.alu_rlc(self.regs.a());
                self.finish_rotate_a(v);
                Ok((None, 4))
            },
            Opcode::RRCA => {
                let v = self.alu_rrc(self.regs.a());
                self.finish_rotate_a(v);
                Ok((None, 4))
            },
            Opcode::RLA => {
                let v = self.alu_rl(self.regs.a());
                self.finish_rotate_a(v);
                Ok((None, 4))
            },
            Opcode::RRA => {
                let v = self.alu_rr(self.regs.a());
                self.finish_rotate_a(v);
                Ok((None, 4))
            },
            Opcode::DAA => {
                self.alu_daa();
                Ok((None, 4))
            },
            Opcode::CPL => {
                self.regs.set_a(255 - self.regs.a());
                self.regs.set_flag(Flag::NF, true);
                self.regs.set_flag(Flag::HF, true);
                Ok((None, 4))
            },
            Opcode::SCF => {
                self.regs.set_flag(Flag::CF, true);
                self.regs.set_flag(Flag::NF, false);
                self.regs.set_flag(Flag::HF, false);
                Ok((None, 4))
            },
            Opcode::CCF => {
                self.regs.set_flag(Flag::CF, !self.regs.get_flag(Flag::CF));
                self.regs.set_flag(Flag::NF, false);
                self.regs.set_flag(Flag::HF, false);
                Ok((None, 4))
            },
            Opcode::ALU(op, Arg::Reg8(Register8::A), Arg::Reg8(x)) => {
                self.alu_op(op, self.regs.read8(x));
                Ok((None, 4))
            },
            Opcode::ALU(op, Arg::Reg8(Register8::A), Arg::PtrReg16(p)) => {
                match bus_read8(mmu, self.regs.read16(p)) {
                    Ok(d) => {
                        self.alu_op(op, d);
                        Ok((None, 8))
                    },
                    Err(e) => Err(e),
                }
            },
            Opcode::ALU(op, Arg::Reg8(Register8::A), Arg::Imm8) => match self.read_arg8(mmu) {
                Ok(d) => {
                    self.alu_op(op, d);
                    Ok((None, 8))
                },
                Err(e) => Err(e),
            },
            _ => bad,
        }
    }

    /// Jumps, calls, returns, the stack, the interrupt latch and the extended prefix.
    #[verifier::spinoff_prover]
    #[verifier::rlimit(100)]
    fn exec_control<M: MMU>(&mut self, opcode: Opcode, pc: u16, mmu: &mut M) -> (r: Result<ExecResult, CpuError>)
        requires
            !(opcode is LD || opcode is LDI || opcode is LDD || opcode is ADD || opcode is INC
                || opcode is DEC || opcode is ALU || opcode is DAA || opcode is CPL || opcode is SCF
                || opcode is CCF || opcode is RLCA || opcode is RRCA || opcode is RLA || opcode is RRA),
        ensures
            match control_spec::<M>(old(self).regs, old(self).interrupts, opcode, pc, old(mmu).mem()) {
                Ok(o) => r == Ok::<ExecResult, CpuError>((o.jump, o.cycles)) && final(self).regs == o.regs
                    && final(self).interrupts == o.interrupts && final(mmu).mem() == o.mem,
                Err(e) => r == Err::<ExecResult, CpuError>(e),
            },
            final(self).cycles == old(self).cycles,
            final(self).last_instr_cycles == old(self).last_instr_cycles,
    {
        let bad = Err(CpuError::UnimplementedOpcode(pc));
        match opcode {
            Opcode::NOP => Ok((None, 4)),
            Opcode::JUMP(c, Arg::Imm8) => {
                if self.check_jump_condition(c) {
                    match self.read_arg8(mmu) {
                        Ok(d) => {
                            let base = pc.wrapping_add(2);
                            let target = if d < 128 {
                                base.wrapping_add(d as u16)
                            } else {
                                base.wrapping_sub(256 - d as u16)
                            };
                            Ok((Some(target), 12))
                        },
                        Err(e) => Err(e),
                    }
                } else {
                    Ok((None, 8))
                }
            },
            Opcode::POP(x) => match self.pop(mmu) {
                Ok(v) => {
                    self.regs.write16(x, v);
                    Ok((None, 12))
                },
                Err(e) => Err(e),
            },
            Opcode::PUSH(x) => match self.push(self.regs.read16(x), mmu) {
                Ok(()) => Ok((None, 16)),
                Err(e) => Err(e),
            },
            Opcode::RST(n) => match self.push(pc.wrapping_add(1), mmu) {
                Ok(()) => Ok((Some((n as u16) * 8), 16)),
                Err(e) => Err(e),
            },
            Opcode::RET(c) => {
                if self.check_jump_condition(c) {
                    match self.pop(mmu) {
                        Ok(v) => Ok((Some(v), if matches!(c, JumpCondition::Always) { 16 } else { 20 })),
                        Err(e) => Err(e),
                    }
                } else {
                    Ok((None, 8))
                }
            },
            Opcode::RETI => match self.pop(mmu) {
                Ok(v) => {
                    self.interrupts = 1;
                    Ok((Some(v), 16))
                },
                Err(e) => Err(e),
            },
            Opcode::JUMP(c, Arg::Addr16) => {
                if self.check_jump_condition(c) {
                    match self.read_arg16(mmu) {
                        Ok(a) => Ok((Some(a), 12)),
                        Err(e) => Err(e),
                    }
                } else {
                    Ok((None, 8))
                }
            },
            Opcode::CALL(c, Arg::Addr16) => {
                if self.check_jump_condition(c) {
                    match self.push(pc.wrapping_add(3), mmu) {
                        Ok(()) => match self.read_arg16(mmu) {
                            Ok(a) => Ok((Some(a), 24)),
                            Err(e) => Err(e),
                        },
                        Err(e) => Err(e),
                    }
                } else {
                    Ok((None, 12))
                }
            },
            Opcode::JUMP(JumpCondition::Always, Arg::Reg16(x)) => Ok((Some(self.regs.read16(x)), 4)),
            Opcode::DI => {
                self.interrupts = 0;
                Ok((None, 4))
            },
            Opcode::EI => {
                self.interrupts = 1;
                Ok((None, 4))
            },
            Opcode::CALLBACK => match self.read_arg8(mmu) {
                Ok(b) => {
                    let extended_opcode = decode_extended(b);
                    match self.exec_cb(extended_opcode, mmu) {
                        Ok(k) => Ok((None, k)),
                        Err(e) => Err(e),
                    }
                },
                Err(e) => Err(e),
            },
            _ => bad,
        }
    }

    /// Stores a rotated accumulator; rotates of the accumulator clear Zero.
    fn finish_rotate_a(&mut self, v: u8)
        ensures
            final(self).regs == (Registers { a: v, zf: false, ..old(self).regs }),
            final(self).interrupts == old(self).interrupts,
            final(self).cycles == old(self).cycles,
            final(self).last_instr_cycles == old(self).last_instr_cycles,
    {
        self.regs.set_a(v);
        self.regs.set_flag(Flag::ZF, false);
    }
}

/// The address of the next instruction: the jump target, or the address
/// after the instruction.
pub open spec fn next_pc(jump: Option<u16>, op: Opcode, pc: u16) -> u16 {
    match jump {
        Some(t) => t,
        None => ((pc + op_len(op)) % 65536) as u16,
    }
}

/// One fetch-decode-execute step: the CPU and bus contents after it, or
/// why it could not run.
pub open spec fn step_spec<M: MMU>(c: CPU, m: M::Mem) -> Result<(CPU, M::Mem), CpuError> {
    let pc = c.regs.pc;
    match get8::<M>(m, pc) {
        Err(e) => Err(e),
        Ok(b) => match decode_spec(b) {
            None => Err(CpuError::UnimplementedOpcode(pc)),
            Some(op) => match exec_spec::<M>(c.regs, c.interrupts, op, pc, m) {
                Err(e) => Err(e),
                Ok(o) => Ok(
                    (
                        CPU {
                            regs: Registers { pc: next_pc(o.jump, op, pc), ..o.regs },
                            interrupts: o.interrupts,
                            cycles: ((c.cycles + o.cycles) % 0x1_0000_0000) as u32,
                            last_instr_cycles: o.cycles,
                        },
                        o.mem,
                    ),
                ),
            },
        },
    }
}

impl CPU {
    /// Executes the instruction at the program counter, moves the program
    /// counter on, and returns the cycle cost.
    pub fn exec<M: MMU>(&mut self, mmu: &mut M) -> (r: Result<u8, CpuError>)
        ensures
            match step_spec::<M>(*old(self), old(mmu).mem()) {
                Ok((c, m)) => r == Ok::<u8, CpuError>(c.last_instr_cycles) && *final(self) == c
                    && final(mmu).mem() == m,
                Err(e) => r == Err::<u8, CpuError>(e),
            },
    {
        let current_pc = self.regs.pc();
        let byte = match bus_read8(mmu, current_pc) {
            Ok(b) => b,
            Err(e) => return Err(e),
        };
        if is_illegal(byte) {
            proof {
                law_decode_total(byte);
            }
            return Err(CpuError::UnimplementedOpcode(current_pc));
        }
        let opcode = decode(byte);
        match self.exec_opcode(opcode, current_pc, mmu) {
            Err(e) => Err(e),
            Ok((jump_to, cycles)) => {
                let new_pc = match jump_to {
                    Some(t) => t,
                    None => current_pc.wrapping_add(op_size(opcode)),
                };
                self.regs.set_pc(new_pc);
                self.last_instr_cycles = cycles;
                self.cycles = self.cycles.wrapping_add(cycles as u32);
                Ok(cycles)
            },
        }
    }
}

proof fn lemma_flat_access(m: Seq<u8>, a: u16, v: u8, w: u16)
    requires
        m.len() == 0x10000,
    ensures
        get8::<TestMMU>(m, a) is Ok,
        get16::<TestMMU>(m, a) is Ok,
        put8::<TestMMU>(m, a, v) is Ok,
        put8::<TestMMU>(m, a, v)->Ok_0.len() == 0x10000,
        put16::<TestMMU>(m, a, w) is Ok,
        put16::<TestMMU>(m, a, w)->Ok_0.len() == 0x10000,
{
}

/// On the flat bus every well-formed operation of the extended table runs.
pub proof fn law_extended_runs(r: Registers, m: Seq<u8>, op: ExtendedOpcode)
    requires
        extended_well_formed(op),
        m.len() == 0x10000,
    ensures
        cb_spec::<TestMMU>(r, m, op) is Ok,
{
    assert forall|a: u16, v: u8| #[trigger] put8::<TestMMU>(m, a, v) is Ok by {
        lemma_flat_access(m, a, v, 0);
    }
    assert forall|a: u16| #[trigger] get8::<TestMMU>(m, a) is Ok by {
        lemma_flat_access(m, a, 0, 0);
    }
}

/// On the flat bus every well-formed instruction but HALT and STOP runs:
/// the engine refuses none of the shapes the decoder produces.
#[verifier::rlimit(100)]
pub proof fn law_well_formed_runs(r: Registers, ime: u32, op: Opcode, pc: u16, m: Seq<u8>)
    requires
        well_formed(op),
        op != Opcode::HALT,
        op != Opcode::STOP,
        m.len() == 0x10000,
    ensures
        exec_spec::<TestMMU>(r, ime, op, pc, m) is Ok,
{
    reveal(exec_spec);
    assert forall|a: u16, v: u8| #[trigger] put8::<TestMMU>(m, a, v) is Ok by {
        lemma_flat_access(m, a, v, 0);
    }
    assert forall|a: u16| #[trigger] get8::<TestMMU>(m, a) is Ok by {
        lemma_flat_access(m, a, 0, 0);
    }
    assert forall|a: u16| #[trigger] get16::<TestMMU>(m, a) is Ok by {
        lemma_flat_access(m, a, 0, 0);
    }
    assert forall|a: u16, w: u16| #[trigger] put16::<TestMMU>(m, a, w) is Ok by {
        lemma_flat_access(m, a, 0, w);
    }
    if op is CALL {
        let sp = add16(r.sp, -2);
        lemma_flat_access(m, sp, 0, add16(pc, 3));
        lemma_flat_access(put16::<TestMMU>(m, sp, add16(pc, 3))->Ok_0, next_addr(r.pc), 0, 0);
    }
    if op is CALLBACK {
        let b = get8::<TestMMU>(m, next_addr(r.pc))->Ok_0;
        law_decode_well_formed(b);
        law_extended_runs(r, m, decode_extended_spec(b));
    }
}

/// Every byte outside the illegal set, apart from HALT and STOP, decodes to
/// an instruction that the engine runs on the flat bus.
pub proof fn law_decoded_runs(b: u8, r: Registers, ime: u32, pc: u16, m: Seq<u8>)
    requires
        !illegal_opcode(b),
        b != 0x76,
        b != 0x10,
        m.len() == 0x10000,
    ensures
        exec_spec::<TestMMU>(r, ime, decode_spec(b)->Some_0, pc, m) is Ok,
{
    law_decode_well_formed(b);
    reveal(decode_spec);
    law_well_formed_runs(r, ime, decode_spec(b)->Some_0, pc, m);
}

/// On the flat bus, popping right after a push returns the value pushed and
/// leaves the registers as they were before the push, for every stack
/// pointer.
pub proof fn law_push_pop(r: Registers, m: Seq<u8>, v: u16)
    requires
        m.len() == 0x10000,
    ensures
        push_spec::<TestMMU>(r, m, v) is Ok,
        pop_spec::<TestMMU>(
            push_spec::<TestMMU>(r, m, v)->Ok_0.0,
            push_spec::<TestMMU>(r, m, v)->Ok_0.1,
        ) == Ok::<(u16, Registers), CpuError>((v, r)),
{
    crate::test_mmu::law_word_round_trip(m, add16(r.sp, -2), v);
    assert(add16(add16(r.sp, -2), 2) == r.sp);
    let r1 = push_spec::<TestMMU>(r, m, v)->Ok_0.0;
    assert((Registers { sp: add16(r1.sp, 2), ..r1 }) == r);
}

/// On the segmented bus the same holds when the two bytes below the stack
/// pointer are plain RAM.
pub proof fn law_push_pop_ram(r: Registers, s: BusState, v: u16)
    requires
        s.wf(),
        plain_ram(add16(r.sp, -2)),
        plain_ram(add16(r.sp, -1)),
    ensures
        push_spec::<RealMMU>(r, s, v) is Ok,
        pop_spec::<RealMMU>(
            push_spec::<RealMMU>(r, s, v)->Ok_0.0,
            push_spec::<RealMMU>(r, s, v)->Ok_0.1,
        ) == Ok::<(u16, Registers), CpuError>((v, r)),
{
    assert(next_addr(add16(r.sp, -2)) == add16(r.sp, -1));
    crate::real_mmu::law_word_round_trip(s, add16(r.sp, -2), v);
    assert(add16(add16(r.sp, -2), 2) == r.sp);
    let r1 = push_spec::<RealMMU>(r, s, v)->Ok_0.0;
    assert((Registers { sp: add16(r1.sp, 2), ..r1 }) == r);
}

pub open spec fn condition_holds(r: Registers, c: JumpCondition) -> bool {
    match c {
        JumpCondition::Always => true,
        JumpCondition::NotZero => !r.zf,
        JumpCondition::Zero => r.zf,
        JumpCondition::NotCarry => !r.cf,
        JumpCondition::Carry => r.cf,
    }
}

} // verus!
