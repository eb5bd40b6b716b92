//! A flat byte memory of a chosen size, indexed from zero; words are
//! little-endian.

use vstd::prelude::*;
use crate::registers::{high_byte, join16, low_byte};

verus! {

pub struct Memory {
    pub mem: Vec<u8>,
}

impl Memory {
    pub fn new(size: usize) -> (r: Memory)
        ensures
            r.mem@ == Seq::new(size as nat, |i: int| 0u8),
    {
        let r = Memory { mem: vec![0u8; size] };
        assert(r.mem@ =~= Seq::new(size as nat, |i: int| 0u8));
        r
    }

    pub fn read8(&self, index: usize) -> (r: u8)
        requires
            index < self.mem@.len(),
        ensures
            r == self.mem@[index as int],
    {
        self.mem[index]
    }

    pub fn read16(&self, index: usize) -> (r: u16)
        requires
            index + 1 < self.mem@.len(),
        ensures
            r == join16(self.mem@[index + 1], self.mem@[index as int]),
    {
        let _len = self.mem.len();
        (self.mem[index + 1] as u16) * 256 + (self.mem[index] as u16)
    }

    pub fn write8(&mut self, index: usize, value: u8)
        requires
            index < old(self).mem@.len(),
        ensures
            final(self).mem@ == old(self).mem@.update(index as int, value),
    {
        self.mem.set(index, value);
    }

    pub fn write16(&mut self, index: usize, value: u16)
        requires
            index + 1 < old(self).mem@.len(),
        ensures
            final(self).mem@ == old(self).mem@.update(index as int, low_byte(value)).update(
                index + 1,
                high_byte(value),
            ),
    {
        let _len = self.mem.len();
        self.mem.set(index, (value % 256) as u8);
        self.mem.set(index + 1, (value / 256) as u8);
    }
}

} // verus!
