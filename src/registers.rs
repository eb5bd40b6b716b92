//! The CPU register file: four 8-bit register pairs, of which the
//! accumulator+flags pair keeps its flags as four single bits, plus the
//! stack pointer and the program counter.

use vstd::prelude::*;

verus! {

/// A status flag in the low byte of the accumulator+flags pair.
#[derive(Debug, PartialEq, Eq, Structural, Copy, Clone)]
pub enum Flag {
    /// Zero, bit 7.
    ZF,
    /// Subtract, bit 6.
    NF,
    /// Half-carry, bit 5.
    HF,
    /// Carry, bit 4.
    CF,
}

#[derive(Debug, PartialEq, Eq, Structural, Copy, Clone)]
pub enum Register8 {
    A,
    B,
    C,
    D,
    E,
    H,
    L,
}

#[derive(Debug, PartialEq, Eq, Structural, Copy, Clone)]
pub enum Register16 {
    BC,
    DE,
    HL,
    SP,
    PC,
    AF,
}

/// The 16-bit value of a pair: high byte first.
pub open spec fn join16(hi: u8, lo: u8) -> u16 {
    (hi as int * 256 + lo as int) as u16
}

pub open spec fn high_byte(v: u16) -> u8 {
    (v / 256) as u8
}

pub open spec fn low_byte(v: u16) -> u8 {
    (v % 256) as u8
}

/// Whether bit `k` of `v` is set.
pub open spec fn bit_set(v: u8, k: nat) -> bool {
    (v as nat / vstd::arithmetic::power2::pow2(k)) % 2 == 1
}

/// The flags byte: Zero, Subtract, Half-carry and Carry at bits 7 to 4, the
/// low nibble zero.
pub open spec fn flags_byte(z: bool, n: bool, h: bool, c: bool) -> u8 {
    ((if z { 128int } else { 0 }) + (if n { 64int } else { 0 }) + (if h { 32int } else { 0 }) + (
    if c { 16int } else { 0 })) as u8
}

/// The register file. The flags are held as single bits, so the low nibble
/// of the flags byte is zero by construction.
#[derive(Debug, Copy, Clone)]
pub struct Registers {
    pub a: u8,
    pub b: u8,
    pub c: u8,
    pub d: u8,
    pub e: u8,
    pub h: u8,
    pub l: u8,
    pub sp: u16,
    pub pc: u16,
    pub zf: bool,
    pub nf: bool,
    pub hf: bool,
    pub cf: bool,
}

impl Registers {
    /// The flags byte, the low half of the accumulator+flags pair.
    pub open spec fn f_spec(self) -> u8 {
        flags_byte(self.zf, self.nf, self.hf, self.cf)
    }

    pub open spec fn zeroed(self) -> bool {
        self.a == 0 && self.b == 0 && self.c == 0 && self.d == 0 && self.e == 0 && self.h == 0
            && self.l == 0 && self.sp == 0 && self.pc == 0 && !self.zf && !self.nf && !self.hf
            && !self.cf
    }

    pub open spec fn get8(self, r: Register8) -> u8 {
        match r {
            Register8::A => self.a,
            Register8::B => self.b,
            Register8::C => self.c,
            Register8::D => self.d,
            Register8::E => self.e,
            Register8::H => self.h,
            Register8::L => self.l,
        }
    }

    pub open spec fn put8(self, r: Register8, v: u8) -> Registers {
        match r {
            Register8::A => Registers { a: v, ..self },
            Register8::B => Registers { b: v, ..self },
            Register8::C => Registers { c: v, ..self },
            Register8::D => Registers { d: v, ..self },
            Register8::E => Registers { e: v, ..self },
            Register8::H => Registers { h: v, ..self },
            Register8::L => Registers { l: v, ..self },
        }
    }

    pub open spec fn get16(self, r: Register16) -> u16 {
        match r {
            Register16::BC => join16(self.b, self.c),
            Register16::DE => join16(self.d, self.e),
            Register16::HL => join16(self.h, self.l),
            Register16::SP => self.sp,
            Register16::PC => self.pc,
            Register16::AF => join16(self.a, self.f_spec()),
        }
    }

    /// Writing a pair stores its high byte in the first register and its low
    /// byte in the second; for the accumulator+flags pair only the top four
    /// bits of the low byte are kept, as the four flags.
    pub open spec fn put16(self, r: Register16, v: u16) -> Registers {
        match r {
            Register16::BC => Registers { b: high_byte(v), c: low_byte(v), ..self },
            Register16::DE => Registers { d: high_byte(v), e: low_byte(v), ..self },
            Register16::HL => Registers { h: high_byte(v), l: low_byte(v), ..self },
            Register16::SP => Registers { sp: v, ..self },
            Register16::PC => Registers { pc: v, ..self },
            Register16::AF => Registers {
                a: high_byte(v),
                zf: bit_set(low_byte(v), 7),
                nf: bit_set(low_byte(v), 6),
                hf: bit_set(low_byte(v), 5),
                cf: bit_set(low_byte(v), 4),
                ..self
            },
        }
    }

    pub open spec fn flag(self, f: Flag) -> bool {
        match f {
            Flag::ZF => self.zf,
            Flag::NF => self.nf,
            Flag::HF => self.hf,
            Flag::CF => self.cf,
        }
    }

    pub open spec fn put_flag(self, f: Flag, v: bool) -> Registers {
        match f {
            Flag::ZF => Registers { zf: v, ..self },
            Flag::NF => Registers { nf: v, ..self },
            Flag::HF => Registers { hf: v, ..self },
            Flag::CF => Registers { cf: v, ..self },
        }
    }

    pub fn new() -> (r: Registers)
        ensures
            r.zeroed(),
    {
        Registers {
            a: 0,
            b: 0,
            c: 0,
            d: 0,
            e: 0,
            h: 0,
            l: 0,
            sp: 0,
            pc: 0,
            zf: false,
            nf: false,
            hf: false,
            cf: false,
        }
    }

    pub fn read8(&self, reg: Register8) -> (r: u8)
        ensures
            r == self.get8(reg),
    {
        match reg {
            Register8::A => self.a(),
            Register8::B => self.b(),
            Register8::C => self.c(),
            Register8::D => self.d(),
            Register8::E => self.e(),
            Register8::H => self.h(),
            Register8::L => self.l(),
        }
    }

    pub fn a(&self) -> (r: u8)
        ensures
            r == self.a,
    {
        self.a
    }

    pub fn b(&self) -> (r: u8)
        ensures
            r == self.b,
    {
        self.b
    }

    pub fn c(&self) -> (r: u8)
        ensures
            r == self.c,
    {
        self.c
    }

    pub fn d(&self) -> (r: u8)
        ensures
            r == self.d,
    {
        self.d
    }

    pub fn e(&self) -> (r: u8)
        ensures
            r == self.e,
    {
        self.e
    }

    pub fn h(&self) -> (r: u8)
        ensures
            r == self.h,
    {
        self.h
    }

    pub fn l(&self) -> (r: u8)
        ensures
            r == self.l,
    {
        self.l
    }

    /// The flags byte.
    fn f(&self) -> (r: u8)
        ensures
            r == self.f_spec(),
    {
        let mut f: u8 = 0;
        if self.zf {
            f = f + 128;
        }
        if self.nf {
            f = f + 64;
        }
        if self.hf {
            f = f + 32;
        }
        if self.cf {
            f = f + 16;
        }
        f
    }

    pub fn read16(&self, reg: Register16) -> (r: u16)
        ensures
            r == self.get16(reg),
    {
        match reg {
            Register16::BC => self.bc(),
            Register16::DE => self.de(),
            Register16::HL => self.hl(),
            Register16::SP => self.sp(),
            Register16::PC => self.pc(),
            Register16::AF => self.af(),
        }
    }

    pub fn af(&self) -> (r: u16)
        ensures
            r == join16(self.a, self.f_spec()),
    {
        reg8x2_to_reg16(self.a, self.f())
    }

    pub fn bc(&self) -> (r: u16)
        ensures
            r == join16(self.b, self.c),
    {
        reg8x2_to_reg16(self.b, self.c)
    }

    pub fn de(&self) -> (r: u16)
        ensures
            r == join16(self.d, self.e),
    {
        reg8x2_to_reg16(self.d, self.e)
    }

    pub fn hl(&self) -> (r: u16)
        ensures
            r == join16(self.h, self.l),
    {
        reg8x2_to_reg16(self.h, self.l)
    }

    pub fn sp(&self) -> (r: u16)
        ensures
            r == self.sp,
    {
        self.sp
    }

    pub fn pc(&self) -> (r: u16)
        ensures
            r == self.pc,
    {
        self.pc
    }

    pub fn write8(&mut self, reg: Register8, value: u8)
        ensures
            *final(self) == old(self).put8(reg, value),
    {
        match reg {
            Register8::A => self.set_a(value),
            Register8::B => self.set_b(value),
            Register8::C => self.set_c(value),
            Register8::D => self.set_d(value),
            Register8::E => self.set_e(value),
            Register8::H => self.set_h(value),
            Register8::L => self.set_l(value),
        }
    }

    pub fn set_a(&mut self, value: u8)
        ensures
            *final(self) == old(self).put8(Register8::A, value),
    {
        self.a = value;
    }

    pub fn set_b(&mut self, value: u8)
        ensures
            *final(self) == old(self).put8(Register8::B, value),
    {
        self.b = value;
    }

    pub fn set_c(&mut self, value: u8)
        ensures
            *final(self) == old(self).put8(Register8::C, value),
    {
        self.c = value;
    }

    pub fn set_d(&mut self, value: u8)
        ensures
            *final(self) == old(self).put8(Register8::D, value),
    {
        self.d = value;
    }

    pub fn set_e(&mut self, value: u8)
        ensures
            *final(self) == old(self).put8(Register8::E, value),
    {
        self.e = value;
    }

    pub fn set_h(&mut self, value: u8)
        ensures
            *final(self) == old(self).put8(Register8::H, value),
    {
        self.h = value;
    }

    pub fn set_l(&mut self, value: u8)
        ensures
            *final(self) == old(self).put8(Register8::L, value),
    {
        self.l = value;
    }

    pub fn write16(&mut self, reg: Register16, value: u16)
        ensures
            *final(self) == old(self).put16(reg, value),
    {
        match reg {
            Register16::BC => self.set_bc(value),
            Register16::DE => self.set_de(value),
            Register16::HL => self.set_hl(value),
            Register16::SP => self.set_sp(value),
            Register16::PC => self.set_pc(value),
            Register16::AF => self.set_af(value),
        }
    }

    pub fn set_af(&mut self, v: u16)
        ensures
            *final(self) == old(self).put16(Register16::AF, v),
    {
        let (hi, lo) = reg16_to_reg8x2(v);
        self.a = hi;
        proof {
            lemma_flag_bits(lo);
        }
        self.zf = lo >= 128;
        self.nf = (lo / 64) % 2 == 1;
        self.hf = (lo / 32) % 2 == 1;
        self.cf = (lo / 16) % 2 == 1;
    }

    pub fn set_bc(&mut self, v: u16)
        ensures
            *final(self) == old(self).put16(Register16::BC, v),
    {
        let (hi, lo) = reg16_to_reg8x2(v);
        self.b = hi;
        self.c = lo;
    }

    pub fn set_de(&mut self, v: u16)
        ensures
            *final(self) == old(self).put16(Register16::DE, v),
    {
        let (hi, lo) = reg16_to_reg8x2(v);
        self.d = hi;
        self.e = lo;
    }

    pub fn set_hl(&mut self, v: u16)
        ensures
            *final(self) == old(self).put16(Register16::HL, v),
    {
        let (hi, lo) = reg16_to_reg8x2(v);
        self.h = hi;
        self.l = lo;
    }

    pub fn set_sp(&mut self, v: u16)
        ensures
            *final(self) == old(self).put16(Register16::SP, v),
    {
        self.sp = v;
    }

    pub fn set_pc(&mut self, v: u16)
        ensures
            *final(self) == old(self).put16(Register16::PC, v),
    {
        self.pc = v;
    }

    pub fn get_flag(&self, flag: Flag) -> (r: bool)
        ensures
            r == self.flag(flag),
    {
        match flag {
            Flag::ZF => self.zf,
            Flag::NF => self.nf,
            Flag::HF => self.hf,
            Flag::CF => self.cf,
        }
    }

    pub fn set_flag(&mut self, flag: Flag, value: bool)
        ensures
            *final(self) == old(self).put_flag(flag, value),
    {
        match flag {
            Flag::ZF => self.zf = value,
            Flag::NF => self.nf = value,
            Flag::HF => self.hf = value,
            Flag::CF => self.cf = value,
        }
    }
}

/// The two 8-bit halves of a general-purpose pair, high first.
pub open spec fn halves(pair: Register16) -> (Register8, Register8) {
    match pair {
        Register16::BC => (Register8::B, Register8::C),
        Register16::DE => (Register8::D, Register8::E),
        _ => (Register8::H, Register8::L),
    }
}

/// Writing an 8-bit register and reading it back gives the value written;
/// the other registers keep theirs.
pub proof fn law_register8_round_trip(regs: Registers, r: Register8, v: u8)
    ensures
        regs.put8(r, v).get8(r) == v,
        forall|o: Register8| o != r ==> #[trigger] regs.put8(r, v).get8(o) == regs.get8(o),
{
}

/// Writing `(hi << 8) | lo` to a general-purpose pair puts `hi` in its first
/// register and `lo` in its second, and reading the pair back gives the
/// word written.
pub proof fn law_register_pair_round_trip(regs: Registers, pair: Register16, hi: u8, lo: u8)
    requires
        pair == Register16::BC || pair == Register16::DE || pair == Register16::HL,
    ensures
        regs.put16(pair, join16(hi, lo)).get8(halves(pair).0) == hi,
        regs.put16(pair, join16(hi, lo)).get8(halves(pair).1) == lo,
        regs.put16(pair, join16(hi, lo)).get16(pair) == join16(hi, lo),
{
    assert((hi as int * 256 + lo as int) / 256 == hi) by (nonlinear_arith);
    assert((hi as int * 256 + lo as int) % 256 == lo) by (nonlinear_arith);
}

/// Writing a word to any 16-bit register and reading it back gives the word,
/// except that the accumulator+flags pair keeps only the top four bits of
/// its low byte.
pub proof fn law_register16_round_trip(regs: Registers, r: Register16, v: u16)
    ensures
        r != Register16::AF ==> regs.put16(r, v).get16(r) == v,
        r == Register16::AF ==> regs.put16(r, v).get16(r) == v - v % 16,
        r == Register16::AF ==> regs.put16(r, v).get8(Register8::A) == high_byte(v),
{
    let lo = low_byte(v);
    assert(v == (v / 256) * 256 + v % 256);
    if r == Register16::AF {
        vstd::arithmetic::power2::lemma2_to64();
        let f = flags_byte(bit_set(lo, 7), bit_set(lo, 6), bit_set(lo, 5), bit_set(lo, 4));
        assert(f == lo - lo % 16) by {
            lemma_flag_bits(lo);
        }
        assert(v % 16 == lo % 16);
    }
}

/// The bits 7 to 4 of a byte, as `bit_set` reads them.
proof fn lemma_flag_bits(lo: u8)
    ensures
        bit_set(lo, 7) == (lo >= 128),
        bit_set(lo, 6) == ((lo / 64) % 2 == 1),
        bit_set(lo, 5) == ((lo / 32) % 2 == 1),
        bit_set(lo, 4) == ((lo / 16) % 2 == 1),
{
    vstd::arithmetic::power2::lemma2_to64();
}

fn reg8x2_to_reg16(hi: u8, lo: u8) -> (r: u16)
    ensures
        r == join16(hi, lo),
{
    (hi as u16) * 256 + (lo as u16)
}

fn reg16_to_reg8x2(v: u16) -> (r: (u8, u8))
    ensures
        r.0 == high_byte(v),
        r.1 == low_byte(v),
{
    ((v / 256) as u8, (v % 256) as u8)
}

} // verus!
