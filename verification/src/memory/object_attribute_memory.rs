//! Object attribute memory: 40 four-byte sprite entries at 0xFE00-0xFE9F.

use vstd::prelude::*;
use crate::memory::zeroed;

verus! {

pub const OAM_SIZE: usize = 0xA0;

pub struct ObjectAttributeMemory {
    pub ram: Vec<u8>,
}

impl ObjectAttributeMemory {
    pub open spec fn wf(self) -> bool {
        self.ram@.len() == OAM_SIZE
    }

    pub fn new() -> (r: ObjectAttributeMemory)
        ensures
            r.wf(),
            forall|i: int| 0 <= i < OAM_SIZE ==> r.ram@[i] == 0u8,
    {
        ObjectAttributeMemory { ram: zeroed(OAM_SIZE) }
    }

    pub fn read(&self, addr: u16) -> (r: u8)
        requires
            self.wf(),
            addr < OAM_SIZE,
        ensures
            r == self.ram@[addr as int],
    {
        self.ram[addr as usize]
    }

    pub fn write(&mut self, addr: u16, val: u8)
        requires
            old(self).wf(),
            addr < OAM_SIZE,
        ensures
            final(self).wf(),
            final(self).ram@ == old(self).ram@.update(addr as int, val),
    {
        self.ram.set(addr as usize, val);
    }
}

} // verus!
