//! A flat bus over the whole 16-bit address space, every byte readable and
//! writable; the collaborator for exercising the CPU and the timing state
//! machine on their own.

use vstd::prelude::*;
use crate::mmu::{load16, next_addr, store16, BusError, MMU};
use crate::registers::{high_byte, low_byte};

verus! {

pub struct TestMMU {
    mem: Vec<u8>,
}

/// A byte of a flat memory, refused past its end.
pub open spec fn flat_load(m: Seq<u8>, addr: u16) -> Result<u8, BusError> {
    if (addr as int) < m.len() {
        Ok(m[addr as int])
    } else {
        Err(BusError::OutOfRangeAddress(addr))
    }
}

pub open spec fn flat_store(m: Seq<u8>, addr: u16, value: u8) -> Result<Seq<u8>, BusError> {
    if (addr as int) < m.len() {
        Ok(m.update(addr as int, value))
    } else {
        Err(BusError::OutOfRangeAddress(addr))
    }
}

impl TestMMU {
    /// 64 KiB of zeroes.
    pub fn new() -> (r: TestMMU)
        ensures
            r.mem() == Seq::new(0x10000, |i: int| 0u8),
    {
        let mem = vec![0u8; 0x10000];
        let r = TestMMU { mem };
        assert(r.mem() =~= Seq::new(0x10000, |i: int| 0u8));
        r
    }
}

impl MMU for TestMMU {
    type Mem = Seq<u8>;

    closed spec fn mem(&self) -> Seq<u8> {
        self.mem@
    }

    open spec fn load(m: Seq<u8>, addr: u16) -> Result<u8, BusError> {
        flat_load(m, addr)
    }

    open spec fn store(m: Seq<u8>, addr: u16, value: u8) -> Result<Seq<u8>, BusError> {
        flat_store(m, addr, value)
    }

    fn read8(&self, addr: u16) -> (r: Result<u8, BusError>) {
        let i = addr as usize;
        if i < self.mem.len() {
            Ok(self.mem[i])
        } else {
            Err(BusError::OutOfRangeAddress(addr))
        }
    }

    fn write8(&mut self, addr: u16, value: u8) -> (r: Result<(), BusError>) {
        let i = addr as usize;
        if i < self.mem.len() {
            self.mem.set(i, value);
            Ok(())
        } else {
            Err(BusError::OutOfRangeAddress(addr))
        }
    }
}

/// On the flat bus a word written at any address reads back whole, its low
/// byte at the address and its high byte at the next one.
pub proof fn law_word_round_trip(m: Seq<u8>, a: u16, v: u16)
    requires
        m.len() == 0x10000,
    ensures
        store16::<TestMMU>(m, a, v) is Ok,
        load16::<TestMMU>(store16::<TestMMU>(m, a, v)->Ok_0, a) == Ok::<u16, BusError>(v),
        TestMMU::load(store16::<TestMMU>(m, a, v)->Ok_0, a) == Ok::<u8, BusError>(low_byte(v)),
        TestMMU::load(store16::<TestMMU>(m, a, v)->Ok_0, next_addr(a)) == Ok::<u8, BusError>(
            high_byte(v),
        ),
{
    assert(v == (v / 256) * 256 + v % 256);
}

} // verus!
