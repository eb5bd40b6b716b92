//! The memory bus interface: byte and little-endian word access over a
//! 16-bit address space, each access either served or refused.

use vstd::prelude::*;
use crate::registers::{high_byte, join16, low_byte};

verus! {

/// Why the bus refused an access.
#[derive(Debug, PartialEq, Eq, Structural, Copy, Clone)]
pub enum BusError {
    /// The address falls in no range the bus serves.
    OutOfRangeAddress(u16),
    /// The address belongs to a read-only range.
    IllegalWrite(u16),
}

/// The address after `a`, wrapping at the top of the address space.
pub open spec fn next_addr(a: u16) -> u16 {
    ((a + 1) % 0x10000) as u16
}

/// A memory bus. `Mem` models its contents; `load` and `store` say what an
/// access does to them.
pub trait MMU: Sized {
    type Mem;

    spec fn mem(&self) -> Self::Mem;

    /// The byte a read at `addr` returns, or why it is refused.
    spec fn load(m: Self::Mem, addr: u16) -> Result<u8, BusError>;

    /// The contents after a write of `value` at `addr`, or why it is refused.
    spec fn store(m: Self::Mem, addr: u16, value: u8) -> Result<Self::Mem, BusError>;

    fn read8(&self, addr: u16) -> (r: Result<u8, BusError>)
        ensures
            r == Self::load(self.mem(), addr),
    ;

    fn write8(&mut self, addr: u16, value: u8) -> (r: Result<(), BusError>)
        ensures
            match Self::store(old(self).mem(), addr, value) {
                Ok(m) => r is Ok && final(self).mem() == m,
                Err(e) => r == Err::<(), BusError>(e),
            },
    ;

    /// A little-endian word: the low byte at `addr`, the high byte after it.
    fn read16(&self, addr: u16) -> (r: Result<u16, BusError>)
        ensures
            r == match Self::load(self.mem(), addr) {
                Err(e) => Err(e),
                Ok(lo) => match Self::load(self.mem(), next_addr(addr)) {
                    Err(e) => Err(e),
                    Ok(hi) => Ok(join16(hi, lo)),
                },
            },
    {
        match self.read8(addr) {
            Err(e) => Err(e),
            Ok(lo) => match self.read8(addr.wrapping_add(1)) {
                Err(e) => Err(e),
                Ok(hi) => Ok((hi as u16) * 256 + (lo as u16)),
            },
        }
    }

    /// Two byte writes, the low byte first.
    fn write16(&mut self, addr: u16, value: u16) -> (r: Result<(), BusError>)
        ensures
            match Self::store(old(self).mem(), addr, low_byte(value)) {
                Err(e) => r == Err::<(), BusError>(e),
                Ok(m1) => match Self::store(m1, next_addr(addr), high_byte(value)) {
                    Ok(m) => r is Ok && final(self).mem() == m,
                    Err(e) => r == Err::<(), BusError>(e),
                },
            },
    {
        match self.write8(addr, (value % 256) as u8) {
            Err(e) => Err(e),
            Ok(()) => self.write8(addr.wrapping_add(1), (value / 256) as u8),
        }
    }
}

pub open spec fn load16<M: MMU>(m: M::Mem, addr: u16) -> Result<u16, BusError> {
    match M::load(m, addr) {
        Err(e) => Err(e),
        Ok(lo) => match M::load(m, next_addr(addr)) {
            Err(e) => Err(e),
            Ok(hi) => Ok(join16(hi, lo)),
        },
    }
}

pub open spec fn store16<M: MMU>(m: M::Mem, addr: u16, value: u16) -> Result<M::Mem, BusError> {
    match M::store(m, addr, low_byte(value)) {
        Err(e) => Err(e),
        Ok(m1) => M::store(m1, next_addr(addr), high_byte(value)),
    }
}

} // verus!
