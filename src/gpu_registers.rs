//! Access to the pixel-processing unit's I/O registers through the bus.

use vstd::prelude::*;
use crate::mmu::{BusError, MMU};

verus! {

#[derive(Debug, PartialEq, Eq, Structural, Copy, Clone)]
pub enum Reg {
    LCDControl,
    ScrollY,
    ScrollX,
    CurrentScanLine,
    BGPalette,
}

pub open spec fn reg_addr(r: Reg) -> u16 {
    match r {
        Reg::LCDControl => 0xFF40,
        Reg::ScrollY => 0xFF42,
        Reg::ScrollX => 0xFF43,
        Reg::CurrentScanLine => 0xFF44,
        Reg::BGPalette => 0xFF47,
    }
}

fn address(reg: Reg) -> (r: u16)
    ensures
        r == reg_addr(reg),
{
    match reg {
        Reg::LCDControl => 0xFF40,
        Reg::ScrollY => 0xFF42,
        Reg::ScrollX => 0xFF43,
        Reg::CurrentScanLine => 0xFF44,
        Reg::BGPalette => 0xFF47,
    }
}

pub fn read<M: MMU>(mmu: &M, reg: Reg) -> (r: Result<u8, BusError>)
    ensures
        r == M::load(mmu.mem(), reg_addr(reg)),
{
    mmu.read8(address(reg))
}

pub fn write<M: MMU>(mmu: &mut M, reg: Reg, value: u8) -> (r: Result<(), BusError>)
    ensures
        match M::store(old(mmu).mem(), reg_addr(reg), value) {
            Ok(m) => r is Ok && final(mmu).mem() == m,
            Err(e) => r == Err::<(), BusError>(e),
        },
{
    mmu.write8(address(reg), value)
}

} // verus!
