use gameboy::cpu::{ExecResult, CPU};
use gameboy::mmu::MMU;
use gameboy::opcodes::AluOp::{Adc, Add, And, Cp, Or, Sbc, Sub, Xor};
use gameboy::opcodes::Arg::{Addr16, FF00PlusImm8, Imm16, Imm8, PtrReg16, PtrReg8, Reg16, Reg8, SPPlusImm8};
use gameboy::opcodes::ExtendedOpcode::{BIT, RES, RL, RLC, RR, RRC, SET, SLA, SRA, SRL, SWAP};
use gameboy::opcodes::JumpCondition::{Always, NotZero};
use gameboy::opcodes::Opcode;
use gameboy::opcodes::Opcode::{
    ADD, ALU, CALL, CCF, CPL, DAA, DEC, DI, EI, INC, JUMP, LD, LDD, LDI, NOP, POP, PUSH, RET, RETI,
    RLA, RLCA, RRA, RRCA, RST, SCF,
};
use gameboy::registers::Flag::{CF, HF, NF, ZF};
use gameboy::registers::Register16;
use gameboy::registers::Register16::{BC, HL, SP};
use gameboy::registers::Register8::{A, B, C};
use gameboy::test_mmu::TestMMU;

fn new_test_cpu() -> (CPU, TestMMU) {
    (CPU::new(), TestMMU::new())
}

/// Runs `opcode` as if fetched at the current program counter.
fn exec(cpu: &mut CPU, mmu: &mut TestMMU, opcode: Opcode) -> ExecResult {
    let pc = cpu.regs.pc();
    mmu.write8(pc, 0x0).unwrap();
    cpu.exec_opcode(opcode, pc, mmu).unwrap()
}

/// Runs `opcode` with an 8-bit operand after it.
fn exec_arg8(cpu: &mut CPU, mmu: &mut TestMMU, opcode: Opcode, arg8: u8) -> ExecResult {
    let pc = cpu.regs.pc();
    mmu.write8(pc, 0x0).unwrap();
    mmu.write8(pc.wrapping_add(1), arg8).unwrap();
    cpu.exec_opcode(opcode, pc, mmu).unwrap()
}

/// Runs `opcode` with a 16-bit operand after it.
fn exec_arg16(cpu: &mut CPU, mmu: &mut TestMMU, opcode: Opcode, arg16: u16) -> ExecResult {
    let pc = cpu.regs.pc();
    mmu.write8(pc, 0x0).unwrap();
    mmu.write16(pc.wrapping_add(1), arg16).unwrap();
    cpu.exec_opcode(opcode, pc, mmu).unwrap()
}

#[test]
fn mod_new_cpu() {
  let (cpu, _mmu) = new_test_cpu();

  assert_eq!(cpu.regs.read16(Register16::BC), 0);
}

#[test]
fn opcode_nop() {
  let (mut cpu, mut mmu) = new_test_cpu();

  exec(&mut cpu, &mut mmu, NOP);
}

#[test]
fn opcode_ld_ptr16_sp() {
  let (mut cpu, mut mmu) = new_test_cpu();
  cpu.regs.set_sp(2047);

  exec_arg16(&mut cpu, &mut mmu, LD(Addr16, Reg16(SP)), 0xff90);

  assert_eq!(mmu.read16(0xff90u16).unwrap(), 2047);
}

#[test]
fn opcode_add_hl_r16() {
  let (mut cpu, mut mmu) = new_test_cpu();

  cpu.regs.write16(HL, 128);
  cpu.regs.write16(BC, 127);
  exec(&mut cpu, &mut mmu, ADD(Reg16(HL), Reg16(BC)));
  assert_eq!(cpu.regs.read16(HL), 255);
}

#[test]
fn opcode_add_hl_r16_flags() {
  let (mut cpu, mut mmu) = new_test_cpu();

  // carry from bit 11
  cpu.regs.write16(HL, 0b0000_1000_0000_0000);
  cpu.regs.write16(BC, 0b0000_1000_0000_0000);
  exec(&mut cpu, &mut mmu, ADD(Reg16(HL), Reg16(BC)));

  assert_eq!(cpu.regs.get_flag(NF), false);
  assert_eq!(cpu.regs.get_flag(HF), true);
  assert_eq!(cpu.regs.get_flag(CF), false);

  // carry from bit 15
  cpu.regs.write16(HL, 0b1000_0000_0000_0000);
  cpu.regs.write16(BC, 0b1000_0000_0000_0000);
  exec(&mut cpu, &mut mmu, ADD(Reg16(HL), Reg16(BC)));

  assert_eq!(cpu.regs.get_flag(NF), false);
  assert_eq!(cpu.regs.get_flag(HF), false);
  assert_eq!(cpu.regs.get_flag(CF), true);

  // carry from bit 11 and 15
  cpu.regs.write16(HL, 0b1000_1000_0000_0000);
  cpu.regs.write16(BC, 0b1000_1000_0000_0000);
  exec(&mut cpu, &mut mmu, ADD(Reg16(HL), Reg16(BC)));

  assert_eq!(cpu.regs.get_flag(NF), false);
  assert_eq!(cpu.regs.get_flag(HF), true);
  assert_eq!(cpu.regs.get_flag(CF), true);

  // carry from bit 11 and 15 indirectly
  cpu.regs.write16(HL, 0b1100_0100_0000_0000);
  cpu.regs.write16(BC, 0b0100_1100_0000_0000);
  exec(&mut cpu, &mut mmu, ADD(Reg16(HL), Reg16(BC)));

  assert_eq!(cpu.regs.get_flag(NF), false);
  assert_eq!(cpu.regs.get_flag(HF), true);
  assert_eq!(cpu.regs.get_flag(CF), true);
}

#[test]
fn opcode_ld_r16_a() {
  let (mut cpu, mut mmu) = new_test_cpu();
  cpu.regs.write8(A, 127);
  cpu.regs.write16(BC, 0xff90);

  exec(&mut cpu, &mut mmu, LD(PtrReg16(BC), Reg8(A)));

  assert_eq!(mmu.read8(0xff90u16).unwrap(), 127);
}

#[test]
fn opcode_ld_a_r16() {
  let (mut cpu, mut mmu) = new_test_cpu();

  mmu.write8(0xff90u16, 127).unwrap();
  cpu.regs.write16(BC, 0xff90);
  exec(&mut cpu, &mut mmu, LD(Reg8(A), PtrReg16(BC)));
  assert_eq!(cpu.regs.read8(A), 127);
}

#[test]
fn opcode_inc_r16() {
  let (mut cpu, mut mmu) = new_test_cpu();
  cpu.regs.write16(BC, 257);
  exec(&mut cpu, &mut mmu, INC(Reg16(BC)));

  assert_eq!(cpu.regs.read16(BC), 258);
}

#[test]
fn opcode_dec_r16() {
  let (mut cpu, mut mmu) = new_test_cpu();
  cpu.regs.write16(HL, 1023);

  exec(&mut cpu, &mut mmu, DEC(Reg16(HL)));

  assert_eq!(cpu.regs.read16(HL), 1022);
}

#[test]
fn opcode_inc_r8() {
  let (mut cpu, mut mmu) = new_test_cpu();
  cpu.regs.set_b(1);

  exec(&mut cpu, &mut mmu, INC(Reg8(B)));

  assert_eq!(cpu.regs.read8(B), 2);
}

#[test]
fn opcode_inc_r8_flags() {
  let (mut cpu, mut mmu) = new_test_cpu();

  // NF is set to false
  cpu.regs.set_a(8);
  exec(&mut cpu, &mut mmu, INC(Reg8(A)));
  assert_eq!(cpu.regs.get_flag(NF), false);

  // ZF is set to true if result is 0
  cpu.regs.set_a(0xFF);
  exec(&mut cpu, &mut mmu, INC(Reg8(A)));
  assert_eq!(cpu.regs.get_flag(ZF), true);

  // ZF is set to false if result is not 0
  cpu.regs.set_a(0xFE);
  exec(&mut cpu, &mut mmu, INC(Reg8(A)));
  assert_eq!(cpu.regs.get_flag(ZF), false);

  // HF is set to true if overflows from bit 3
  cpu.regs.set_a(0b0000_1111);
  exec(&mut cpu, &mut mmu, INC(Reg8(A)));
  assert_eq!(cpu.regs.get_flag(HF), true);

  // HF is set to false if does not overflow from bit 3
  cpu.regs.set_a(0b0000_0111);
  exec(&mut cpu, &mut mmu, INC(Reg8(A)));
  assert_eq!(cpu.regs.get_flag(HF), false);
}

#[test]
fn opcode_dec_r8() {
  let (mut cpu, mut mmu) = new_test_cpu();
  cpu.regs.set_b(1);

  exec(&mut cpu, &mut mmu, DEC(Reg8(B)));

  assert_eq!(cpu.regs.b(), 0);
}

#[test]
fn opcode_dec_ptr_hl() {
  let (mut cpu, mut mmu) = new_test_cpu();
  cpu.regs.set_hl(0xff90);
  mmu.write8(0xff90u16, 7).unwrap();

  exec(&mut cpu, &mut mmu, DEC(PtrReg16(HL)));

  assert_eq!(mmu.read8(0xff90u16).unwrap(), 6);
}

#[test]
fn opcode_dec_r8_flags() {
  let (mut cpu, mut mmu) = new_test_cpu();

  // NF is set to true
  cpu.regs.set_a(8);
  exec(&mut cpu, &mut mmu, DEC(Reg8(A)));
  assert_eq!(cpu.regs.get_flag(NF), true);

  // ZF is set to true if result is 0
  cpu.regs.set_a(0x01);
  exec(&mut cpu, &mut mmu, DEC(Reg8(A)));
  assert_eq!(cpu.regs.get_flag(ZF), true);

  // ZF is set to false if result is not 0
  cpu.regs.set_a(0x02);
  exec(&mut cpu, &mut mmu, DEC(Reg8(A)));
  assert_eq!(cpu.regs.get_flag(ZF), false);

  // HF is set to true if overflows from bit 3
  cpu.regs.set_a(0b0000_0000);
  exec(&mut cpu, &mut mmu, DEC(Reg8(A)));
  assert_eq!(cpu.regs.get_flag(HF), true);

  // HF is set to false if does not overflow from bit 3
  cpu.regs.set_a(0b0000_1000);
  exec(&mut cpu, &mut mmu, DEC(Reg8(A)));
  assert_eq!(cpu.regs.get_flag(HF), false);
}

#[test]
fn opcode_ld_r8_n8() {
  let (mut cpu, mut mmu) = new_test_cpu();

  exec_arg8(&mut cpu, &mut mmu, LD(Reg8(B), Imm8), 1);

  assert_eq!(cpu.regs.read8(B), 1);
}

#[test]
fn opcode_rlca() {
  let (mut cpu, mut mmu) = new_test_cpu();
  cpu.regs.set_a(0b0000_0010);

  exec(&mut cpu, &mut mmu, RLCA);

  assert_eq!(cpu.regs.a(), 0b0000_0100);
}

#[test]
fn opcode_rlca_flags() {
  let (mut cpu, mut mmu) = new_test_cpu();

  // ZH, HF and NF flags set to false
  cpu.regs.set_a(0b0000_0010);
  exec(&mut cpu, &mut mmu, RLCA);
  assert_eq!(cpu.regs.get_flag(HF), false);
  assert_eq!(cpu.regs.get_flag(NF), false);
  assert_eq!(cpu.regs.get_flag(ZF), false);

  // CF flag set to false if carry not used
  cpu.regs.set_a(0b0000_0010);
  exec(&mut cpu, &mut mmu, RLCA);
  assert_eq!(cpu.regs.get_flag(CF), false);

  // CF flag set to false if carry used
  cpu.regs.set_a(0b1000_0000);
  exec(&mut cpu, &mut mmu, RLCA);
  assert_eq!(cpu.regs.get_flag(CF), true);
}

#[test]
fn opcode_rrca() {
  let (mut cpu, mut mmu) = new_test_cpu();
  cpu.regs.set_a(0b0000_0010);

  exec(&mut cpu, &mut mmu, RRCA);

  assert_eq!(cpu.regs.a(), 0b0000_0001);
}

#[test]
fn opcode_rrca_flags() {
  let (mut cpu, mut mmu) = new_test_cpu();

  // ZH, HF and NF flags set to false
  cpu.regs.set_a(0b0000_0010);
  exec(&mut cpu, &mut mmu, RRCA);
  assert_eq!(cpu.regs.get_flag(HF), false);
  assert_eq!(cpu.regs.get_flag(NF), false);
  assert_eq!(cpu.regs.get_flag(ZF), false);

  // CF flag set to false if carry not used
  cpu.regs.set_a(0b0000_0010);
  exec(&mut cpu, &mut mmu, RRCA);
  assert_eq!(cpu.regs.get_flag(CF), false);

  // CF flag set to false if carry used
  cpu.regs.set_a(0b0000_0001);
  exec(&mut cpu, &mut mmu, RRCA);
  assert_eq!(cpu.regs.get_flag(CF), true);
}

#[test]
fn opcode_rla() {
  let (mut cpu, mut mmu) = new_test_cpu();

  // RLA
  cpu.regs.set_a(0b0000_0010);
  cpu.regs.set_flag(CF, false);
  exec(&mut cpu, &mut mmu, RLA);
  assert_eq!(cpu.regs.a(), 0b0000_0100);

  // RLA without carry flag
  cpu.regs.set_a(0b1000_0000);
  cpu.regs.set_flag(CF, false);
  exec(&mut cpu, &mut mmu, RLA);
  assert_eq!(cpu.regs.a(), 0b0000_0000);

  // RLA with carry flag
  cpu.regs.set_a(0b1000_0000);
  cpu.regs.set_flag(CF, true);
  exec(&mut cpu, &mut mmu, RLA);
  assert_eq!(cpu.regs.a(), 0b0000_0001);
}

#[test]
fn opcode_rla_flags() {
  let (mut cpu, mut mmu) = new_test_cpu();

  // ZH, HF and NF flags set to false
  cpu.regs.set_a(0b0000_0010);
  exec(&mut cpu, &mut mmu, RLA);
  assert_eq!(cpu.regs.get_flag(HF), false);
  assert_eq!(cpu.regs.get_flag(NF), false);
  assert_eq!(cpu.regs.get_flag(ZF), false);

  // CF flag set to false if carry not used
  cpu.regs.set_a(0b0000_0010);
  exec(&mut cpu, &mut mmu, RLA);
  assert_eq!(cpu.regs.get_flag(CF), false);

  // CF flag set to false if carry used
  cpu.regs.set_a(0b1000_0000);
  exec(&mut cpu, &mut mmu, RLA);
  assert_eq!(cpu.regs.get_flag(CF), true);
}

#[test]
fn opcode_rra() {
  let (mut cpu, mut mmu) = new_test_cpu();

  // RRA
  cpu.regs.set_a(0b0000_0010);
  cpu.regs.set_flag(CF, false);
  exec(&mut cpu, &mut mmu, RRA);
  assert_eq!(cpu.regs.a(), 0b0000_0001);

  // RRA without carry flag
  cpu.regs.set_a(0b0000_0001);
  cpu.regs.set_flag(CF, false);
  exec(&mut cpu, &mut mmu, RRA);
  assert_eq!(cpu.regs.a(), 0b0000_0000);

  // RRA with carry flag
  cpu.regs.set_a(0b0000_0001);
  cpu.regs.set_flag(CF, true);
  exec(&mut cpu, &mut mmu, RRA);
  assert_eq!(cpu.regs.a(), 0b1000_0000);
}

#[test]
fn opcode_rra_flags() {
  let (mut cpu, mut mmu) = new_test_cpu();

  // ZH, HF and NF flags set to false
  cpu.regs.set_a(0b0000_0010);
  exec(&mut cpu, &mut mmu, RRA);
  assert_eq!(cpu.regs.get_flag(HF), false);
  assert_eq!(cpu.regs.get_flag(NF), false);
  assert_eq!(cpu.regs.get_flag(ZF), false);

  // CF flag set to false if carry not used
  cpu.regs.set_a(0b0000_0010);
  exec(&mut cpu, &mut mmu, RRA);
  assert_eq!(cpu.regs.get_flag(CF), false);

  // CF flag set to false if carry used
  cpu.regs.set_a(0b0000_0001);
  exec(&mut cpu, &mut mmu, RRA);
  assert_eq!(cpu.regs.get_flag(CF), true);
}

#[test]
fn opcode_jr_n() {
  let (mut cpu, mut mmu) = new_test_cpu();

  let (jump, _) = exec_arg8(&mut cpu, &mut mmu, JUMP(Always, Imm8), 0b0000_0011);

  assert_eq!(jump, Some(5));
}

#[test]
fn opcode_jr_f_n() {
  let (mut cpu, mut mmu) = new_test_cpu();

  // JR NZ, N increments by N if NZ
  cpu.regs.set_pc(0);
  cpu.regs.set_flag(ZF, false);
  let (jump, _) = exec_arg8(&mut cpu, &mut mmu, JUMP(NotZero, Imm8), 0b0000_1000);
  assert_eq!(jump, Some(10));

  // JR NZ, N increments by 2 if not NZ
  cpu.regs.set_pc(0);
  cpu.regs.set_flag(ZF, true);
  let (jump, _) = exec_arg8(&mut cpu, &mut mmu, JUMP(NotZero, Imm8), 0b0000_1000);
  assert_eq!(jump, None);
}

#[test]
fn opcode_ldi_hl_a() {
  let (mut cpu, mut mmu) = new_test_cpu();
  cpu.regs.set_hl(0xff90);
  cpu.regs.set_a(2);

  exec(&mut cpu, &mut mmu, LDI(PtrReg16(HL), Reg8(A)));

  assert_eq!(mmu.read8(0xff90u16).unwrap(), 2);
  assert_eq!(cpu.regs.hl(), 0xff91);
}

#[test]
fn opcode_ldi_a_hl() {
  let (mut cpu, mut mmu) = new_test_cpu();
  cpu.regs.set_hl(128);
  mmu.write8(128u16, 2).unwrap();

  exec(&mut cpu, &mut mmu, LDI(Reg8(A), PtrReg16(HL)));

  assert_eq!(cpu.regs.a(), 2);
  assert_eq!(cpu.regs.hl(), 129);
}

#[test]
fn opcode_ldd_hl_a() {
  let (mut cpu, mut mmu) = new_test_cpu();
  cpu.regs.set_hl(0xff90);
  cpu.regs.set_a(2);

  exec(&mut cpu, &mut mmu, LDD(PtrReg16(HL), Reg8(A)));

  assert_eq!(mmu.read8(0xff90u16).unwrap(), 2);
  assert_eq!(cpu.regs.hl(), 0xff8f);
}

#[test]
fn opcode_ldd_a_hl() {
  let (mut cpu, mut mmu) = new_test_cpu();
  cpu.regs.set_hl(128);
  mmu.write8(128u16, 2).unwrap();

  exec(&mut cpu, &mut mmu, LDD(Reg8(A), PtrReg16(HL)));

  assert_eq!(cpu.regs.a(), 2);
  assert_eq!(cpu.regs.hl(), 127);
}

#[test]
fn opcode_daa() {
  let (mut cpu, mut mmu) = new_test_cpu();

  // adds 0x06 to A if small digit is greater than 9
  cpu.regs.set_flag(NF, false);
  cpu.regs.set_a(0x0A);
  exec(&mut cpu, &mut mmu, DAA);
  assert_eq!(cpu.regs.a(), 0x10);

  // adds 0x60 to A if big digit is greater than 9 and CF is set
  cpu.regs.set_flag(NF, false);
  cpu.regs.set_flag(CF, true);
  cpu.regs.set_a(0xA0);
  exec(&mut cpu, &mut mmu, DAA);
  assert_eq!(cpu.regs.a(), 0x00);

  // subs 0x06 to A if small digit if C and H flags are set
  cpu.regs.set_flag(NF, true);
  cpu.regs.set_flag(CF, false);
  cpu.regs.set_flag(HF, true);
  cpu.regs.set_a(0x07);
  exec(&mut cpu, &mut mmu, DAA);
  assert_eq!(cpu.regs.a(), 0x01);

  // subs 0x60 to A if small digit if C and C flags are set
  cpu.regs.set_flag(NF, true);
  cpu.regs.set_flag(CF, true);
  cpu.regs.set_flag(HF, false);
  cpu.regs.set_a(0x70);
  exec(&mut cpu, &mut mmu, DAA);
  assert_eq!(cpu.regs.a(), 0x10);
}

#[test]
fn opcode_daa_flags() {
  let (mut cpu, mut mmu) = new_test_cpu();

  // HF flag is reset
  cpu.regs.set_flag(NF, false);
  cpu.regs.set_a(0x0A);
  exec(&mut cpu, &mut mmu, DAA);
  assert_eq!(cpu.regs.get_flag(HF), false);

  // ZF flag is set if result is zero
  cpu.regs.set_flag(NF, false);
  cpu.regs.set_flag(CF, true);
  cpu.regs.set_a(0xA0);
  exec(&mut cpu, &mut mmu, DAA);
  assert_eq!(cpu.regs.get_flag(ZF), true);

  // ZF flag is reset if result is not zero
  cpu.regs.set_flag(NF, true);
  cpu.regs.set_flag(CF, false);
  cpu.regs.set_flag(HF, true);
  cpu.regs.set_a(0x07);
  exec(&mut cpu, &mut mmu, DAA);
  assert_eq!(cpu.regs.get_flag(ZF), false);

  // CF flag is set if adjustment is 0x60
  cpu.regs.set_flag(NF, false);
  cpu.regs.set_flag(CF, true);
  cpu.regs.set_a(0x07);
  exec(&mut cpu, &mut mmu, DAA);
  assert_eq!(cpu.regs.get_flag(CF), true);

  // CF flag is reset if adjustment is lower than 0x60
  cpu.regs.set_flag(NF, false);
  cpu.regs.set_flag(CF, false);
  cpu.regs.set_a(0x07);
  exec(&mut cpu, &mut mmu, DAA);
  assert_eq!(cpu.regs.get_flag(CF), false);
}

#[test]
fn opcode_cpl() {
  let (mut cpu, mut mmu) = new_test_cpu();
  cpu.regs.set_a(1);

  exec(&mut cpu, &mut mmu, CPL);

  assert_eq!(cpu.regs.a(), 254);
}

#[test]
fn opcode_cpl_flags() {
  let (mut cpu, mut mmu) = new_test_cpu();
  cpu.regs.set_a(1);

  exec(&mut cpu, &mut mmu, CPL);

  assert_eq!(cpu.regs.get_flag(NF), true);
  assert_eq!(cpu.regs.get_flag(HF), true);
}

#[test]
fn opcode_scf() {
  let (mut cpu, mut mmu) = new_test_cpu();

  exec(&mut cpu, &mut mmu, SCF);

  assert_eq!(cpu.regs.get_flag(NF), false);
  assert_eq!(cpu.regs.get_flag(HF), false);
  assert_eq!(cpu.regs.get_flag(CF), true);
}

#[test]
fn opcode_ccf() {
  let (mut cpu, mut mmu) = new_test_cpu();

  exec(&mut cpu, &mut mmu, CCF);
  assert_eq!(cpu.regs.get_flag(NF), false);
  assert_eq!(cpu.regs.get_flag(HF), false);
  assert_eq!(cpu.regs.get_flag(CF), true);

  exec(&mut cpu, &mut mmu, CCF);
  assert_eq!(cpu.regs.get_flag(NF), false);
  assert_eq!(cpu.regs.get_flag(HF), false);
  assert_eq!(cpu.regs.get_flag(CF), false);

  exec(&mut cpu, &mut mmu, CCF);
  assert_eq!(cpu.regs.get_flag(NF), false);
  assert_eq!(cpu.regs.get_flag(HF), false);
  assert_eq!(cpu.regs.get_flag(CF), true);
}

#[test]
fn opcode_ld_b_r8() {
  let (mut cpu, mut mmu) = new_test_cpu();
  cpu.regs.set_c(2);

  exec(&mut cpu, &mut mmu, LD(Reg8(B), Reg8(C)));

  assert_eq!(cpu.regs.b(), 2);
}

#[test]
fn opcode_ld_hl_r8() {
  let (mut cpu, mut mmu) = new_test_cpu();
  cpu.regs.set_hl(0xff90);
  cpu.regs.set_b(1);

  exec(&mut cpu, &mut mmu, LD(PtrReg16(HL), Reg8(B)));

  assert_eq!(mmu.read8(0xff90u16).unwrap(), 1);
}

#[test]
fn opcode_add_a_r8() {
  let (mut cpu, mut mmu) = new_test_cpu();
  cpu.regs.set_a(1);
  cpu.regs.set_b(2);

  exec(&mut cpu, &mut mmu, ALU(Add, Reg8(A), Reg8(B)));

  assert_eq!(cpu.regs.a(), 3);
}

#[test]
fn opcode_add_a_hl() {
  let (mut cpu, mut mmu) = new_test_cpu();
  cpu.regs.set_a(1);
  cpu.regs.set_hl(0xff90);
  mmu.write8(0xff90u16, 2).unwrap();

  exec(&mut cpu, &mut mmu, ALU(Add, Reg8(A), PtrReg16(HL)));

  assert_eq!(cpu.regs.a(), 3);
}

#[test]
fn opcode_add_a_n() {
  let (mut cpu, mut mmu) = new_test_cpu();
  cpu.regs.set_a(1);

  exec_arg8(&mut cpu, &mut mmu, ALU(Add, Reg8(A), Imm8), 2);

  assert_eq!(cpu.regs.a(), 3);
}

#[test]
fn opcode_add_flags() {
  let (mut cpu, mut mmu) = new_test_cpu();

  // ZF flag set if result is zero
  cpu.regs.set_a(0);
  cpu.regs.set_b(0);
  exec(&mut cpu, &mut mmu, ALU(Add, Reg8(A), Reg8(B)));
  assert_eq!(cpu.regs.get_flag(ZF), true);

  // HF flag set if overflow from bit 3
  cpu.regs.set_a(0x0A);
  cpu.regs.set_b(0x0A);
  exec(&mut cpu, &mut mmu, ALU(Add, Reg8(A), Reg8(B)));
  assert_eq!(cpu.regs.get_flag(HF), true);

  // NF flag reset
  cpu.regs.set_a(7);
  cpu.regs.set_b(7);
  exec(&mut cpu, &mut mmu, ALU(Add, Reg8(A), Reg8(B)));
  assert_eq!(cpu.regs.get_flag(NF), false);

  // CF flag reset
  cpu.regs.set_a(0xA0);
  cpu.regs.set_b(0xA0);
  exec(&mut cpu, &mut mmu, ALU(Add, Reg8(A), Reg8(B)));
  assert_eq!(cpu.regs.get_flag(CF), true);
}

#[test]
fn opcode_adc() {
  let (mut cpu, mut mmu) = new_test_cpu();
  cpu.regs.set_a(1);
  cpu.regs.set_b(2);

  exec(&mut cpu, &mut mmu, ALU(Adc, Reg8(A), Reg8(B)));

  assert_eq!(cpu.regs.a(), 3);
}

#[test]
fn opcode_adc_flags() {
  let (mut cpu, mut mmu) = new_test_cpu();

  // ZF flag set if result is zero
  cpu.regs.set_a(0);
  cpu.regs.set_b(0);
  exec(&mut cpu, &mut mmu, ALU(Adc, Reg8(A), Reg8(B)));
  assert_eq!(cpu.regs.get_flag(ZF), true);

  // HF flag set if overflow from bit 3
  cpu.regs.set_a(0x0A);
  cpu.regs.set_b(0x0A);
  exec(&mut cpu, &mut mmu, ALU(Adc, Reg8(A), Reg8(B)));
  assert_eq!(cpu.regs.get_flag(HF), true);

  // NF flag reset
  cpu.regs.set_a(7);
  cpu.regs.set_b(7);
  exec(&mut cpu, &mut mmu, ALU(Adc, Reg8(A), Reg8(B)));
  assert_eq!(cpu.regs.get_flag(NF), false);

  // CF flag reset
  cpu.regs.set_a(0xA0);
  cpu.regs.set_b(0xA0);
  exec(&mut cpu, &mut mmu, ALU(Adc, Reg8(A), Reg8(B)));
  assert_eq!(cpu.regs.get_flag(CF), true);
}

#[test]
fn opcode_sub() {
  let (mut cpu, mut mmu) = new_test_cpu();
  cpu.regs.set_a(5);
  cpu.regs.set_b(2);

  exec(&mut cpu, &mut mmu, ALU(Sub, Reg8(A), Reg8(B)));

  assert_eq!(cpu.regs.a(), 3);
}

#[test]
fn opcode_sub_flags() {
  let (mut cpu, mut mmu) = new_test_cpu();

  // ZF flag set if result is zero
  cpu.regs.set_a(0);
  cpu.regs.set_b(0);
  exec(&mut cpu, &mut mmu, ALU(Sub, Reg8(A), Reg8(B)));
  assert_eq!(cpu.regs.get_flag(ZF), true);

  // HF flag set if borrow from bit 4
  cpu.regs.set_a(0x10);
  cpu.regs.set_b(0x01);
  exec(&mut cpu, &mut mmu, ALU(Sub, Reg8(A), Reg8(B)));
  assert_eq!(cpu.regs.get_flag(HF), true);

  // NF flag set
  cpu.regs.set_a(7);
  cpu.regs.set_b(7);
  exec(&mut cpu, &mut mmu, ALU(Sub, Reg8(A), Reg8(B)));
  assert_eq!(cpu.regs.get_flag(NF), true);

  // CF flag set if r8 > A
  cpu.regs.set_a(0xA0);
  cpu.regs.set_b(0xB0);
  exec(&mut cpu, &mut mmu, ALU(Sub, Reg8(A), Reg8(B)));
  assert_eq!(cpu.regs.get_flag(CF), true);
}

#[test]
fn opcode_sbc() {
  let (mut cpu, mut mmu) = new_test_cpu();
  cpu.regs.set_a(5);
  cpu.regs.set_b(2);

  exec(&mut cpu, &mut mmu, ALU(Sbc, Reg8(A), Reg8(B)));

  assert_eq!(cpu.regs.a(), 3);
}

#[test]
fn opcode_sbc_flags() {
  let (mut cpu, mut mmu) = new_test_cpu();

  // ZF flag set if result is zero
  cpu.regs.set_a(0);
  cpu.regs.set_b(0);
  exec(&mut cpu, &mut mmu, ALU(Sbc, Reg8(A), Reg8(B)));
  assert_eq!(cpu.regs.get_flag(ZF), true);

  // HF flag set if borrow from bit 4
  cpu.regs.set_a(0x10);
  cpu.regs.set_b(0x01);
  exec(&mut cpu, &mut mmu, ALU(Sbc, Reg8(A), Reg8(B)));
  assert_eq!(cpu.regs.get_flag(HF), true);

  // NF flag set
  cpu.regs.set_a(7);
  cpu.regs.set_b(7);
  exec(&mut cpu, &mut mmu, ALU(Sbc, Reg8(A), Reg8(B)));
  assert_eq!(cpu.regs.get_flag(NF), true);

  // CF flag set if r8 > A
  cpu.regs.set_a(0xA0);
  cpu.regs.set_b(0xB0);
  exec(&mut cpu, &mut mmu, ALU(Sbc, Reg8(A), Reg8(B)));
  assert_eq!(cpu.regs.get_flag(CF), true);
}

#[test]
fn opcode_and() {
  let (mut cpu, mut mmu) = new_test_cpu();
  cpu.regs.set_a(5);
  cpu.regs.set_b(3);

  exec(&mut cpu, &mut mmu, ALU(And, Reg8(A), Reg8(B)));

  assert_eq!(cpu.regs.a(), 1);
}

#[test]
fn opcode_and_flags() {
  let (mut cpu, mut mmu) = new_test_cpu();

  // ZF flag set if result is zero
  cpu.regs.set_a(0);
  cpu.regs.set_b(0);
  exec(&mut cpu, &mut mmu, ALU(And, Reg8(A), Reg8(B)));
  assert_eq!(cpu.regs.get_flag(ZF), true);

  // HF flag always set
  cpu.regs.set_a(0x10);
  cpu.regs.set_b(0x01);
  exec(&mut cpu, &mut mmu, ALU(And, Reg8(A), Reg8(B)));
  assert_eq!(cpu.regs.get_flag(HF), true);

  // NF flag reset
  cpu.regs.set_a(7);
  cpu.regs.set_b(7);
  exec(&mut cpu, &mut mmu, ALU(And, Reg8(A), Reg8(B)));
  assert_eq!(cpu.regs.get_flag(NF), false);

  // CF flag reset
  cpu.regs.set_a(0xA0);
  cpu.regs.set_b(0xB0);
  exec(&mut cpu, &mut mmu, ALU(And, Reg8(A), Reg8(B)));
  assert_eq!(cpu.regs.get_flag(CF), false);
}

#[test]
fn opcode_xor() {
  let (mut cpu, mut mmu) = new_test_cpu();
  cpu.regs.set_a(5);
  cpu.regs.set_b(3);

  exec(&mut cpu, &mut mmu, ALU(Xor, Reg8(A), Reg8(B)));

  assert_eq!(cpu.regs.a(), 6);
}

#[test]
fn opcode_xor_flags() {
  let (mut cpu, mut mmu) = new_test_cpu();

  // ZF flag set if result is zero
  cpu.regs.set_a(0);
  cpu.regs.set_b(0);
  exec(&mut cpu, &mut mmu, ALU(Xor, Reg8(A), Reg8(B)));
  assert_eq!(cpu.regs.get_flag(ZF), true);

  // HF flag always reset
  cpu.regs.set_a(0x10);
  cpu.regs.set_b(0x01);
  exec(&mut cpu, &mut mmu, ALU(Xor, Reg8(A), Reg8(B)));
  assert_eq!(cpu.regs.get_flag(HF), false);

  // NF flag reset
  cpu.regs.set_a(7);
  cpu.regs.set_b(7);
  exec(&mut cpu, &mut mmu, ALU(Xor, Reg8(A), Reg8(B)));
  assert_eq!(cpu.regs.get_flag(NF), false);

  // CF flag reset
  cpu.regs.set_a(0xA0);
  cpu.regs.set_b(0xB0);
  exec(&mut cpu, &mut mmu, ALU(Xor, Reg8(A), Reg8(B)));
  assert_eq!(cpu.regs.get_flag(CF), false);
}

#[test]
fn opcode_or() {
  let (mut cpu, mut mmu) = new_test_cpu();
  cpu.regs.set_a(5);
  cpu.regs.set_b(3);

  exec(&mut cpu, &mut mmu, ALU(Or, Reg8(A), Reg8(B)));

  assert_eq!(cpu.regs.a(), 7);
}

#[test]
fn opcode_or_flags() {
  let (mut cpu, mut mmu) = new_test_cpu();

  // ZF flag set if result is zero
  cpu.regs.set_a(0);
  cpu.regs.set_b(0);
  exec(&mut cpu, &mut mmu, ALU(Or, Reg8(A), Reg8(B)));
  assert_eq!(cpu.regs.get_flag(ZF), true);

  // HF flag always reset
  cpu.regs.set_a(0x10);
  cpu.regs.set_b(0x01);
  exec(&mut cpu, &mut mmu, ALU(Or, Reg8(A), Reg8(B)));
  assert_eq!(cpu.regs.get_flag(HF), false);

  // NF flag reset
  cpu.regs.set_a(7);
  cpu.regs.set_b(7);
  exec(&mut cpu, &mut mmu, ALU(Or, Reg8(A), Reg8(B)));
  assert_eq!(cpu.regs.get_flag(NF), false);

  // CF flag reset
  cpu.regs.set_a(0xA0);
  cpu.regs.set_b(0xB0);
  exec(&mut cpu, &mut mmu, ALU(Or, Reg8(A), Reg8(B)));
  assert_eq!(cpu.regs.get_flag(CF), false);
}

#[test]
fn opcode_cp() {
  let (mut cpu, mut mmu) = new_test_cpu();
  cpu.regs.set_a(5);
  cpu.regs.set_b(2);

  exec(&mut cpu, &mut mmu, ALU(Cp, Reg8(A), Reg8(B)));

  assert_eq!(cpu.regs.a(), 5);
}

#[test]
fn opcode_cp_flags() {
  let (mut cpu, mut mmu) = new_test_cpu();

  // ZF flag set if result is zero
  cpu.regs.set_a(0);
  cpu.regs.set_b(0);
  exec(&mut cpu, &mut mmu, ALU(Cp, Reg8(A), Reg8(B)));
  assert_eq!(cpu.regs.get_flag(ZF), true);

  // HF flag set if borrow from bit 4
  cpu.regs.set_a(0x10);
  cpu.regs.set_b(0x01);
  exec(&mut cpu, &mut mmu, ALU(Cp, Reg8(A), Reg8(B)));
  assert_eq!(cpu.regs.get_flag(HF), true);

  // NF flag set
  cpu.regs.set_a(7);
  cpu.regs.set_b(7);
  exec(&mut cpu, &mut mmu, ALU(Cp, Reg8(A), Reg8(B)));
  assert_eq!(cpu.regs.get_flag(NF), true);

  // CF flag set if r8 > A
  cpu.regs.set_a(0xA0);
  cpu.regs.set_b(0xB0);
  exec(&mut cpu, &mut mmu, ALU(Cp, Reg8(A), Reg8(B)));
  assert_eq!(cpu.regs.get_flag(CF), true);
}

#[test]
fn opcode_pop() {
  let (mut cpu, mut mmu) = new_test_cpu();
  cpu.regs.set_sp(1024);
  mmu.write16(1024u16, 0xAF).unwrap();

  exec(&mut cpu, &mut mmu, POP(BC));

  assert_eq!(cpu.regs.bc(), 0xAF);
  assert_eq!(cpu.regs.sp(), 1026);
}

#[test]
fn opcode_push() {
  let (mut cpu, mut mmu) = new_test_cpu();
  cpu.regs.set_sp(0xff90);
  cpu.regs.set_bc(0xAF);

  exec(&mut cpu, &mut mmu, PUSH(BC));

  assert_eq!(cpu.regs.sp(), 0xff8e);
  assert_eq!(mmu.read16(0xff8eu16).unwrap(), 0xAF);
}

#[test]
fn opcode_rst() {
  let (mut cpu, mut mmu) = new_test_cpu();
  cpu.regs.set_sp(0xff90);

  let (jump, _) = exec(&mut cpu, &mut mmu, RST(7));

  assert_eq!(jump, Some(0x38));
}

#[test]
fn opcode_ret_f() {
  let (mut cpu, mut mmu) = new_test_cpu();

  // RET NZ if Z flag is not set
  cpu.regs.set_pc(0);
  cpu.regs.set_sp(0xff90);
  cpu.regs.set_flag(ZF, false);
  cpu.push(666, &mut mmu).unwrap();
  let (jump, _) = exec(&mut cpu, &mut mmu, RET(NotZero));
  assert_eq!(cpu.regs.sp(), 0xff90);
  assert_eq!(jump, Some(666));

  // RET NZ if Z flag is set
  cpu.regs.set_pc(0);
  cpu.regs.set_sp(0xff90);
  cpu.regs.set_flag(ZF, true);
  cpu.push(666, &mut mmu).unwrap();
  let (jump, _) = exec(&mut cpu, &mut mmu, RET(NotZero));
  assert_eq!(jump, None);
  assert_eq!(cpu.regs.sp(), 0xff8e);
}

#[test]
fn opcode_ret() {
  let (mut cpu, mut mmu) = new_test_cpu();

  cpu.regs.set_sp(0xff90);
  cpu.push(666, &mut mmu).unwrap();

  let (jump, _) = exec(&mut cpu, &mut mmu, RET(Always));

  assert_eq!(cpu.regs.sp(), 0xff90);
  assert_eq!(jump, Some(666));
}

#[test]
fn opcode_reti() {
  let (mut cpu, mut mmu) = new_test_cpu();

  cpu.regs.set_sp(0xff90);
  cpu.push(666, &mut mmu).unwrap();
  let (jump, _) = exec(&mut cpu, &mut mmu, RETI);
  assert_eq!(cpu.regs.sp(), 0xff90);
  assert_eq!(jump, Some(666));
  assert_eq!(cpu.interrupts, 1);
}

#[test]
fn opcode_jp_f_n() {
  let (mut cpu, mut mmu) = new_test_cpu();

  // JP NZ, N when ZF is not set
  cpu.regs.set_pc(0);
  cpu.regs.set_flag(ZF, false);
  let (jump, _) = exec_arg16(&mut cpu, &mut mmu, JUMP(NotZero, Addr16), 123);
  assert_eq!(jump, Some(123));

  // JP NZ, N when ZF is set
  cpu.regs.set_pc(0);
  cpu.regs.set_flag(ZF, true);
  let (jump, _) = exec_arg16(&mut cpu, &mut mmu, JUMP(NotZero, Addr16), 123);
  assert_eq!(jump, None);
}

#[test]
fn opcode_jp_n() {
  let (mut cpu, mut mmu) = new_test_cpu();

  let (jump, _) = exec_arg16(&mut cpu, &mut mmu, JUMP(Always, Imm8), 123);

  assert_eq!(jump, Some(125));
}

#[test]
fn opcode_call_f_n() {
  let (mut cpu, mut mmu) = new_test_cpu();

  // CALL NZ, N when ZF is not set
  cpu.regs.set_pc(0);
  cpu.regs.set_flag(ZF, false);
  cpu.regs.set_sp(0xff90);
  let (jump, _) = exec_arg16(&mut cpu, &mut mmu, CALL(NotZero, Addr16), 123);
  assert_eq!(cpu.regs.sp(), 0xff8e);
  assert_eq!(mmu.read16(0xff8eu16).unwrap(), 3);
  assert_eq!(jump, Some(123));

  // CALL NZ, N when ZF is set
  cpu.regs.set_pc(0);
  cpu.regs.set_flag(ZF, true);
  cpu.regs.set_sp(0xff90);
  let (jump, _) = exec_arg16(&mut cpu, &mut mmu, CALL(NotZero, Addr16), 123);
  assert_eq!(cpu.regs.sp(), 0xff90);
  assert_eq!(jump, None);
}

#[test]
fn opcode_call_n() {
  let (mut cpu, mut mmu) = new_test_cpu();
  cpu.regs.set_sp(0xff90);

  let (jump, _) = exec_arg16(&mut cpu, &mut mmu, CALL(Always, Addr16), 123);

  assert_eq!(cpu.regs.sp(), 0xff8e);
  assert_eq!(mmu.read16(0xff8eu16).unwrap(), 3);
  assert_eq!(jump, Some(123));
}

#[test]
fn opcode_add_sp_n() {
  let (mut cpu, mut mmu) = new_test_cpu();
  cpu.regs.set_sp(1);

  exec_arg8(&mut cpu, &mut mmu, ADD(Reg16(SP), Imm8), 3);

  assert_eq!(cpu.regs.sp(), 4);
}

#[test]
fn opcode_ld_hl_sp_n() {
  let (mut cpu, mut mmu) = new_test_cpu();
  cpu.regs.set_sp(1);

  exec_arg8(&mut cpu, &mut mmu, LD(Reg16(HL), SPPlusImm8), 3);

  assert_eq!(cpu.regs.hl(), 4);
}

#[test]
fn opcode_ld_ff00_n_a() {
  let (mut cpu, mut mmu) = new_test_cpu();
  cpu.regs.set_a(1);

  exec_arg8(&mut cpu, &mut mmu, LD(FF00PlusImm8, Reg8(A)), 0x80);

  assert_eq!(mmu.read8(0xFF80u16).unwrap(), 1);
}

#[test]
fn opcode_ld_a_ff00_n() {
  let (mut cpu, mut mmu) = new_test_cpu();
  mmu.write8(0xFF80u16, 1).unwrap();

  exec_arg8(&mut cpu, &mut mmu, LD(Reg8(A), FF00PlusImm8), 0x80);

  assert_eq!(cpu.regs.a(), 1);
}

#[test]
fn opcode_ld_c_a() {
  let (mut cpu, mut mmu) = new_test_cpu();
  cpu.regs.set_a(1);
  cpu.regs.set_c(0x80);

  exec(&mut cpu, &mut mmu, LD(PtrReg8(C), Reg8(A)));

  assert_eq!(mmu.read8(0xFF80u16).unwrap(), 1);
}

#[test]
fn opcode_ld_a_c() {
  let (mut cpu, mut mmu) = new_test_cpu();
  cpu.regs.set_c(0x80);
  mmu.write8(0xFF80u16, 1).unwrap();

  exec(&mut cpu, &mut mmu, LD(Reg8(A), PtrReg8(C)));

  assert_eq!(cpu.regs.a(), 1);
}

#[test]
fn opcode_ld_n_a() {
  let (mut cpu, mut mmu) = new_test_cpu();
  cpu.regs.set_a(1);

  exec_arg16(&mut cpu, &mut mmu, LD(Addr16, Reg8(A)), 0xff90);

  assert_eq!(mmu.read8(0xff90u16).unwrap(), 1);
}

#[test]
fn opcode_ld_a_n() {
  let (mut cpu, mut mmu) = new_test_cpu();
  mmu.write16(0xff90u16, 1).unwrap();

  exec_arg16(&mut cpu, &mut mmu, LD(Reg8(A), Addr16), 0xff90);

  assert_eq!(cpu.regs.a(), 1);
}

#[test]
fn opcode_jp_hl() {
  let (mut cpu, mut mmu) = new_test_cpu();
  cpu.regs.set_hl(123);

  let (jump, _) = exec(&mut cpu, &mut mmu, JUMP(Always, Reg16(HL)));

  assert_eq!(jump, Some(123));
}

#[test]
fn opcode_ld_sp_hl() {
  let (mut cpu, mut mmu) = new_test_cpu();
  cpu.regs.set_hl(123);

  exec(&mut cpu, &mut mmu, LD(Reg16(SP), Reg16(HL)));

  assert_eq!(cpu.regs.sp(), 123);
}

#[test]
fn opcode_di() {
  let (mut cpu, mut mmu) = new_test_cpu();

  exec(&mut cpu, &mut mmu, DI);

  assert_eq!(cpu.interrupts, 0);
}

#[test]
fn opcode_ei() {
  let (mut cpu, mut mmu) = new_test_cpu();

  exec(&mut cpu, &mut mmu, EI);

  assert_eq!(cpu.interrupts, 1);
}

#[test]
fn opcode_cb_rlc() {
  let (mut cpu, mut mmu) = new_test_cpu();
  cpu.regs.set_b(0b0000_0010);

  cpu.exec_cb(RLC(Reg8(B)), &mut mmu).unwrap();

  assert_eq!(cpu.regs.b(), 0b0000_0100);
}

#[test]
fn opcode_cb_rrc() {
  let (mut cpu, mut mmu) = new_test_cpu();
  cpu.regs.set_b(0b0000_1010);
  mmu.write8(0u16, 0xCB).unwrap();

  cpu.exec_cb(RRC(Reg8(B)), &mut mmu).unwrap();

  assert_eq!(cpu.regs.b(), 0b0000_0101);
}

#[test]
fn opcode_cb_rl() {
  let (mut cpu, mut mmu) = new_test_cpu();
  cpu.regs.set_b(0b0000_0010);
  mmu.write8(0u16, 0xCB).unwrap();

  cpu.exec_cb(RL(Reg8(B)), &mut mmu).unwrap();

  assert_eq!(cpu.regs.b(), 0b0000_0100);
}

#[test]
fn opcode_cb_rr() {
  let (mut cpu, mut mmu) = new_test_cpu();
  cpu.regs.set_b(0b0000_1010);

  cpu.exec_cb(RR(Reg8(B)), &mut mmu).unwrap();

  assert_eq!(cpu.regs.b(), 0b0000_0101);
}

#[test]
fn opcode_cb_sla_d() {
  let (mut cpu, mut mmu) = new_test_cpu();
  cpu.regs.set_b(0b0000_0001);

  cpu.exec_cb(SLA(Reg8(B)), &mut mmu).unwrap();

  assert_eq!(cpu.regs.b(), 0b0000_0010);
}

#[test]
fn opcode_cb_sla_d_flags() {
  let (mut cpu, mut mmu) = new_test_cpu();

  // Sets ZF flag if result is 0
  cpu.regs.set_b(0b1000_0000);
  cpu.exec_cb(SLA(Reg8(B)), &mut mmu).unwrap();
  assert_eq!(cpu.regs.get_flag(ZF), true);

  // Does not set ZF flag if result is 0
  cpu.regs.set_b(0b0100_0000);
  cpu.exec_cb(SLA(Reg8(B)), &mut mmu).unwrap();
  assert_eq!(cpu.regs.get_flag(ZF), false);
}

#[test]
fn opcode_cb_sra_d() {
  let (mut cpu, mut mmu) = new_test_cpu();
  cpu.regs.set_b(0b0000_0010);

  cpu.exec_cb(SRA(Reg8(B)), &mut mmu).unwrap();

  assert_eq!(cpu.regs.b(), 0b0000_0001);
}

#[test]
fn opcode_cb_sra_d_flags() {
  let (mut cpu, mut mmu) = new_test_cpu();

  // Sets ZF flag if result is 0
  cpu.regs.set_b(0b0000_0001);
  cpu.exec_cb(SRA(Reg8(B)), &mut mmu).unwrap();
  assert_eq!(cpu.regs.get_flag(ZF), true);

  // Does not set ZF flag if result is 0
  cpu.regs.set_b(0b0000_0010);
  cpu.exec_cb(SRA(Reg8(B)), &mut mmu).unwrap();
  assert_eq!(cpu.regs.get_flag(ZF), false);
}

#[test]
fn opcode_cb_swap_d() {
  let (mut cpu, mut mmu) = new_test_cpu();
  cpu.regs.set_hl(0xff90);
  mmu.write8(0xff90u16, 0x12).unwrap();

  cpu.exec_cb(SWAP(PtrReg16(HL)), &mut mmu).unwrap();

  assert_eq!(mmu.read8(0xff90u16).unwrap(), 0x21);
}

#[test]
fn opcode_cb_srl_d() {
  let (mut cpu, mut mmu) = new_test_cpu();
  cpu.regs.set_b(0b0000_0010);

  cpu.exec_cb(SRL(Reg8(B)), &mut mmu).unwrap();

  assert_eq!(cpu.regs.b(), 0b0000_0001);
}

#[test]
fn opcode_cb_srl_d_flags() {
  let (mut cpu, mut mmu) = new_test_cpu();

  // Sets ZF flag if result is 0
  cpu.regs.set_b(0b0000_0001);
  cpu.exec_cb(SRL(Reg8(B)), &mut mmu).unwrap();
  assert_eq!(cpu.regs.get_flag(ZF), true);

  // Does not set ZF flag if result is 0
  cpu.regs.set_b(0b0000_0010);
  cpu.exec_cb(SRL(Reg8(B)), &mut mmu).unwrap();
  assert_eq!(cpu.regs.get_flag(ZF), false);
}

#[test]
fn opcode_cb_bit_n_d_flags() {
  let (mut cpu, mut mmu) = new_test_cpu();

  // BIT N, B sets ZF if bit N is zero
  cpu.regs.set_b(0b0000_0000);
  cpu.exec_cb(BIT(0, Reg8(B)), &mut mmu).unwrap();
  assert_eq!(cpu.regs.get_flag(ZF), true);

  // BIT N, C does not change ZF if bit N is 1
  cpu.regs.set_flag(ZF, false);
  cpu.regs.set_c(0b0000_0100);
  cpu.exec_cb(BIT(2, Reg8(C)), &mut mmu).unwrap();
  assert_eq!(cpu.regs.get_flag(ZF), false);

  // BIT N, (HL) sets ZF if bit N is zero
  cpu.regs.set_hl(123);
  mmu.write8(123u16, 0b0000_0000).unwrap();
  cpu.exec_cb(BIT(0, Reg8(B)), &mut mmu).unwrap();
  assert_eq!(cpu.regs.get_flag(ZF), true);

  // BIT N, A does not change ZF if bit N is 1
  cpu.regs.set_flag(ZF, false);
  cpu.regs.set_a(0b1000_0000);
  cpu.exec_cb(BIT(7, Reg8(A)), &mut mmu).unwrap();
  assert_eq!(cpu.regs.get_flag(ZF), false);
}

#[test]
fn opcode_cb_res_n_d() {
  let (mut cpu, mut mmu) = new_test_cpu();

  // RES N, B
  cpu.regs.set_b(0xFF);
  cpu.exec_cb(RES(2, Reg8(B)), &mut mmu).unwrap();
  assert_eq!(cpu.regs.b(), 0b1111_1011);

  // RES N, (HL)
  cpu.regs.set_hl(0xff90);
  mmu.write8(0xff90u16, 0xFF).unwrap();
  cpu.exec_cb(RES(2, PtrReg16(HL)), &mut mmu).unwrap();
  assert_eq!(mmu.read8(0xff90u16).unwrap(), 0b1111_1011);
}

#[test]
fn opcode_cb_set_n_d() {
  let (mut cpu, mut mmu) = new_test_cpu();

  // SET N, B
  cpu.regs.set_b(0x00);
  cpu.exec_cb(SET(2, Reg8(B)), &mut mmu).unwrap();
  assert_eq!(cpu.regs.b(), 0b0000_0100);

  // SET N, (HL)
  cpu.regs.set_hl(0xff90);
  mmu.write8(0xff90u16, 0x00).unwrap();
  cpu.exec_cb(SET(2, PtrReg16(HL)), &mut mmu).unwrap();
  assert_eq!(mmu.read8(0xff90u16).unwrap(), 0b0000_0100);
}
