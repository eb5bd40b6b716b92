//! Core of an 8-bit handheld console emulator: register file, opcode
//! decoder, CPU execution engine, memory bus and the pixel-processing
//! unit's timing state machine.

pub mod registers;
pub mod opcodes;
pub mod mmu;
pub mod test_mmu;
pub mod memory;
pub mod real_mmu;
pub mod addrs;
pub mod alu;
pub mod cpu;
pub mod step;
pub mod gpu_registers;
