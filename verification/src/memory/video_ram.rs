//! Video RAM: tile data and tile maps, mapped at 0x8000-0x9FFF.

use vstd::prelude::*;
use crate::memory::zeroed;

verus! {

pub const VIDEO_RAM_SIZE: usize = 0x2000;

pub struct VideoRam {
    pub ram: Vec<u8>,
}

impl VideoRam {
    pub open spec fn wf(self) -> bool {
        self.ram@.len() == VIDEO_RAM_SIZE
    }

    pub fn new() -> (r: VideoRam)
        ensures
            r.wf(),
            forall|i: int| 0 <= i < VIDEO_RAM_SIZE ==> r.ram@[i] == 0u8,
    {
        VideoRam { ram: zeroed(VIDEO_RAM_SIZE) }
    }

    pub fn read(&self, addr: u16) -> (r: u8)
        requires
            self.wf(),
            addr < VIDEO_RAM_SIZE,
        ensures
            r == self.ram@[addr as int],
    {
        self.ram[addr as usize]
    }

    pub fn write(&mut self, addr: u16, val: u8)
        requires
            old(self).wf(),
            addr < VIDEO_RAM_SIZE,
        ensures
            final(self).wf(),
            final(self).ram@ == old(self).ram@.update(addr as int, val),
    {
        self.ram.set(addr as usize, val);
    }
}

} // verus!
