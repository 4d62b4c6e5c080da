//! High RAM, mapped at 0xFF80-0xFFFE.

use vstd::prelude::*;
use crate::memory::zeroed;

verus! {

pub const HIGH_RAM_SIZE: usize = 0x7F;

pub struct HighRam {
    pub ram: Vec<u8>,
}

impl HighRam {
    pub open spec fn wf(self) -> bool {
        self.ram@.len() == HIGH_RAM_SIZE
    }

    pub fn new() -> (r: HighRam)
        ensures
            r.wf(),
            forall|i: int| 0 <= i < HIGH_RAM_SIZE ==> r.ram@[i] == 0u8,
    {
        HighRam { ram: zeroed(HIGH_RAM_SIZE) }
    }

    pub fn read(&self, addr: u16) -> (r: u8)
        requires
            self.wf(),
            addr < HIGH_RAM_SIZE,
        ensures
            r == self.ram@[addr as int],
    {
        self.ram[addr as usize]
    }

    pub fn write(&mut self, addr: u16, val: u8)
        requires
            old(self).wf(),
            addr < HIGH_RAM_SIZE,
        ensures
            final(self).wf(),
            final(self).ram@ == old(self).ram@.update(addr as int, val),
    {
        self.ram.set(addr as usize, val);
    }
}

} // verus!
