//! External (cartridge) RAM, mapped at 0xA000-0xBFFF.

use vstd::prelude::*;
use crate::memory::zeroed;

verus! {

pub const EXTERNAL_RAM_SIZE: usize = 0x2000;

pub struct ExternalRam {
    pub ram: Vec<u8>,
}

impl ExternalRam {
    pub open spec fn wf(self) -> bool {
        self.ram@.len() == EXTERNAL_RAM_SIZE
    }

    pub fn new() -> (r: ExternalRam)
        ensures
            r.wf(),
            forall|i: int| 0 <= i < EXTERNAL_RAM_SIZE ==> r.ram@[i] == 0u8,
    {
        ExternalRam { ram: zeroed(EXTERNAL_RAM_SIZE) }
    }

    pub fn read(&self, addr: u16) -> (r: u8)
        requires
            self.wf(),
            addr < EXTERNAL_RAM_SIZE,
        ensures
            r == self.ram@[addr as int],
    {
        self.ram[addr as usize]
    }

    pub fn write(&mut self, addr: u16, val: u8)
        requires
            old(self).wf(),
            addr < EXTERNAL_RAM_SIZE,
        ensures
            final(self).wf(),
            final(self).ram@ == old(self).ram@.update(addr as int, val),
    {
        self.ram.set(addr as usize, val);
    }
}

} // verus!
