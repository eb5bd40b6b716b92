use gameboy::cpu::{CpuError, CPU};
use gameboy::mmu::{BusError, MMU};
use gameboy::opcodes::AluOp::{Add, Sbc, Sub};
use gameboy::opcodes::Arg::{Imm8, Reg8};
use gameboy::opcodes::ExtendedOpcode::SRA;
use gameboy::opcodes::JumpCondition::Always;
use gameboy::opcodes::Opcode::{ALU, DAA, JUMP, RLCA};
use gameboy::opcodes::{decode, decode_extended, is_illegal, op_size, Opcode};
use gameboy::real_mmu::RealMMU;
use gameboy::registers::Flag::{CF, HF, NF, ZF};
use gameboy::registers::Register8::{A, B};
use gameboy::test_mmu::TestMMU;

/// Loads `program` at address 0 of a flat bus.
fn with_program(program: &[u8]) -> (CPU, TestMMU) {
  let mut mmu = TestMMU::new();
  for (i, b) in program.iter().enumerate() {
    mmu.write8(i as u16, *b).unwrap();
  }
  (CPU::new(), mmu)
}

#[test]
fn add_sets_half_carry_from_bit_3() {
  let (mut cpu, mut mmu) = with_program(&[0x80]);
  cpu.regs.set_a(0x0A);
  cpu.regs.set_b(0x0A);

  cpu.exec(&mut mmu).unwrap();

  assert_eq!(cpu.regs.a(), 0x14);
  assert!(cpu.regs.get_flag(HF));
}

#[test]
fn add_of_zeroes_sets_zero_clears_carry() {
  let (mut cpu, mut mmu) = with_program(&[0x80]);
  cpu.regs.set_flag(CF, true);

  cpu.exec(&mut mmu).unwrap();

  assert!(cpu.regs.get_flag(ZF));
  assert!(!cpu.regs.get_flag(CF));
}

#[test]
fn sub_with_borrow_sets_carry_and_subtract() {
  let (mut cpu, mut mmu) = with_program(&[0x90]);
  cpu.regs.set_a(0xA0);
  cpu.regs.set_b(0xB0);

  cpu.exec(&mut mmu).unwrap();

  assert_eq!(cpu.regs.a(), 0xF0);
  assert!(cpu.regs.get_flag(CF));
  assert!(cpu.regs.get_flag(NF));
}

#[test]
fn daa_after_addition() {
  let (mut cpu, mut mmu) = with_program(&[0x27, 0x27]);
  cpu.regs.set_a(0x0A);

  cpu.exec(&mut mmu).unwrap();
  assert_eq!(cpu.regs.a(), 0x10);

  cpu.regs.set_a(0xA0);
  cpu.regs.set_flag(CF, true);
  cpu.regs.set_flag(NF, false);
  cpu.exec(&mut mmu).unwrap();
  assert_eq!(cpu.regs.a(), 0x00);
  assert!(cpu.regs.get_flag(CF));
  assert!(cpu.regs.get_flag(ZF));
}

#[test]
fn rlca_rotates_top_bit_into_carry() {
  let (mut cpu, mut mmu) = with_program(&[0x07, 0x07]);
  cpu.regs.set_a(0b0000_0010);

  cpu.exec(&mut mmu).unwrap();
  assert_eq!(cpu.regs.a(), 0b0000_0100);
  assert!(!cpu.regs.get_flag(CF));

  cpu.regs.set_a(0b1000_0000);
  cpu.exec(&mut mmu).unwrap();
  assert_eq!(cpu.regs.a(), 0b0000_0001);
  assert!(cpu.regs.get_flag(CF));
}

#[test]
fn rlca_clears_zero_even_on_zero_result() {
  let (mut cpu, mut mmu) = with_program(&[0x07]);
  cpu.regs.set_flag(ZF, true);

  cpu.exec(&mut mmu).unwrap();

  assert_eq!(cpu.regs.a(), 0);
  assert!(!cpu.regs.get_flag(ZF));
}

#[test]
fn relative_jump_counts_from_instruction_end() {
  let (mut cpu, mut mmu) = with_program(&[0x18, 0x03]);

  assert_eq!(cpu.exec(&mut mmu).unwrap(), 12);

  assert_eq!(cpu.regs.pc(), 5);
}

#[test]
fn relative_jump_backwards() {
  let (mut cpu, mut mmu) = with_program(&[0x00, 0x00, 0x18, 0xFC]);
  cpu.regs.set_pc(2);

  cpu.exec(&mut mmu).unwrap();

  assert_eq!(cpu.regs.pc(), 0);
}

#[test]
fn fetch_advances_by_instruction_length() {
  let (mut cpu, mut mmu) = with_program(&[0x00, 0x3E, 0x42, 0x01, 0x34, 0x12, 0xCB, 0x00]);

  assert_eq!(cpu.exec(&mut mmu).unwrap(), 4);
  assert_eq!(cpu.regs.pc(), 1);
  assert_eq!(cpu.exec(&mut mmu).unwrap(), 8);
  assert_eq!(cpu.regs.a(), 0x42);
  assert_eq!(cpu.regs.pc(), 3);
  assert_eq!(cpu.exec(&mut mmu).unwrap(), 12);
  assert_eq!(cpu.regs.bc(), 0x1234);
  assert_eq!(cpu.regs.pc(), 6);
  cpu.exec(&mut mmu).unwrap();
  assert_eq!(cpu.regs.pc(), 8);
  assert_eq!(cpu.regs.b(), 0x24);
  assert_eq!(cpu.cycles, 4 + 8 + 12 + 8);
  assert_eq!(cpu.last_instr_cycles, 8);
}

#[test]
fn illegal_opcode_is_reported() {
  let (mut cpu, mut mmu) = with_program(&[0xD3]);

  assert_eq!(cpu.exec(&mut mmu), Err(CpuError::UnimplementedOpcode(0)));
  assert_eq!(cpu.regs.pc(), 0);
}

#[test]
fn halt_is_not_implemented() {
  let (mut cpu, mut mmu) = with_program(&[0x00, 0x76]);
  cpu.regs.set_pc(1);

  assert_eq!(cpu.exec(&mut mmu), Err(CpuError::UnimplementedOpcode(1)));
}

#[test]
fn write_to_rom_is_reported() {
  let mut cpu = CPU::new();
  let mut mmu = RealMMU::new(None, vec![0x02; 0x8000]);

  assert_eq!(cpu.exec(&mut mmu), Err(CpuError::Bus(BusError::IllegalWrite(0))));
}

#[test]
fn call_then_ret_returns_after_call() {
  let (mut cpu, mut mmu) = with_program(&[0xCD, 0x10, 0x00]);
  mmu.write8(0x10, 0xC9).unwrap();
  cpu.regs.set_sp(0xFFFE);

  assert_eq!(cpu.exec(&mut mmu).unwrap(), 24);
  assert_eq!(cpu.regs.pc(), 0x10);
  assert_eq!(cpu.regs.sp(), 0xFFFC);
  cpu.exec(&mut mmu).unwrap();
  assert_eq!(cpu.regs.pc(), 3);
  assert_eq!(cpu.regs.sp(), 0xFFFE);
}

#[test]
fn rst_pushes_following_address() {
  let (mut cpu, mut mmu) = with_program(&[0x00, 0xFF]);
  cpu.regs.set_pc(1);
  cpu.regs.set_sp(0xFF90);

  cpu.exec(&mut mmu).unwrap();

  assert_eq!(cpu.regs.pc(), 0x38);
  assert_eq!(mmu.read16(0xFF8E).unwrap(), 2);
}

#[test]
fn push_pop_round_trip_wraps_stack() {
  let mut cpu = CPU::new();
  let mut mmu = TestMMU::new();
  cpu.regs.set_sp(0x0001);

  cpu.push(0xABCD, &mut mmu).unwrap();
  assert_eq!(cpu.regs.sp(), 0xFFFF);
  assert_eq!(cpu.pop(&mmu).unwrap(), 0xABCD);
  assert_eq!(cpu.regs.sp(), 0x0001);
}

#[test]
fn pop_af_keeps_flag_bits_only() {
  let (mut cpu, mut mmu) = with_program(&[0xF1]);
  cpu.regs.set_sp(0x100);
  mmu.write16(0x100, 0x12FF).unwrap();

  cpu.exec(&mut mmu).unwrap();

  assert_eq!(cpu.regs.af(), 0x12F0);
}

#[test]
fn sbc_borrow_counts_carry_in() {
  let mut cpu = CPU::new();
  let mut mmu = TestMMU::new();
  cpu.regs.set_a(0x05);
  cpu.regs.set_b(0x05);
  cpu.regs.set_flag(CF, true);

  cpu.exec_opcode(ALU(Sbc, Reg8(A), Reg8(B)), 0, &mut mmu).unwrap();

  assert_eq!(cpu.regs.a(), 0xFF);
  assert!(cpu.regs.get_flag(CF));
  assert!(cpu.regs.get_flag(HF));
}

#[test]
fn sra_carries_out_bottom_bit() {
  let mut cpu = CPU::new();
  let mut mmu = TestMMU::new();
  cpu.regs.set_b(0b1000_0001);

  cpu.exec_cb(SRA(Reg8(B)), &mut mmu).unwrap();

  assert_eq!(cpu.regs.b(), 0b1100_0000);
  assert!(cpu.regs.get_flag(CF));
}

#[test]
fn add_immediate_and_sub_register() {
  let mut cpu = CPU::new();
  let mut mmu = TestMMU::new();
  mmu.write8(1, 0xFF).unwrap();
  cpu.regs.set_a(0x01);

  cpu.exec_opcode(ALU(Add, Reg8(A), Imm8), 0, &mut mmu).unwrap();
  assert_eq!(cpu.regs.a(), 0x00);
  assert!(cpu.regs.get_flag(ZF) && cpu.regs.get_flag(CF) && cpu.regs.get_flag(HF));

  cpu.regs.set_b(0x01);
  cpu.exec_opcode(ALU(Sub, Reg8(A), Reg8(B)), 0, &mut mmu).unwrap();
  assert_eq!(cpu.regs.a(), 0xFF);
}

#[test]
fn daa_and_rlca_decode() {
  assert_eq!(decode(0x27), DAA);
  assert_eq!(decode(0x07), RLCA);
  assert_eq!(decode(0x18), JUMP(Always, Imm8));
}

#[test]
fn decoding_is_total_outside_illegal_set() {
  let illegal = [0xD3, 0xDB, 0xDD, 0xE3, 0xE4, 0xEB, 0xEC, 0xED, 0xF4, 0xFC, 0xFD];
  for b in 0..=255u8 {
    assert_eq!(is_illegal(b), illegal.contains(&b));
    if !is_illegal(b) {
      let first: Opcode = decode(b);
      assert_eq!(first, decode(b));
      assert!(op_size(first) >= 1 && op_size(first) <= 3);
    }
    assert_eq!(decode_extended(b), decode_extended(b));
  }
}

#[test]
fn instruction_lengths() {
  assert_eq!(op_size(decode(0x00)), 1);
  assert_eq!(op_size(decode(0x06)), 2);
  assert_eq!(op_size(decode(0x01)), 3);
  assert_eq!(op_size(decode(0xCB)), 2);
  assert_eq!(op_size(decode(0xE0)), 2);
  assert_eq!(op_size(decode(0xFA)), 3);
}
