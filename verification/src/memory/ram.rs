//! Work RAM and its byte-identical read-only mirror.

use vstd::prelude::*;
use crate::error::GbError;
use crate::memory::zeroed;

verus! {

pub const WORK_RAM_SIZE: usize = 0x2000;

/// The writable 8 KiB work RAM mapped at 0xC000-0xDFFF.
pub struct WorkRam {
    pub ram: Vec<u8>,
}

impl WorkRam {
    pub open spec fn wf(self) -> bool {
        self.ram@.len() == WORK_RAM_SIZE
    }

    pub fn new() -> (r: WorkRam)
        ensures
            r.wf(),
            forall|i: int| 0 <= i < WORK_RAM_SIZE ==> r.ram@[i] == 0u8,
    {
        WorkRam { ram: zeroed(WORK_RAM_SIZE) }
    }

    pub fn read(&self, addr: u16) -> (r: u8)
        requires
            self.wf(),
            addr < WORK_RAM_SIZE,
        ensures
            r == self.ram@[addr as int],
    {
        self.ram[addr as usize]
    }

    pub fn write(&mut self, addr: u16, val: u8)
        requires
            old(self).wf(),
            addr < WORK_RAM_SIZE,
        ensures
            final(self).wf(),
            final(self).ram@ == old(self).ram@.update(addr as int, val),
    {
        self.ram.set(addr as usize, val);
    }
}

/// The mirror of work RAM mapped at 0xE000-0xFDFF: reads forward to work
/// RAM, writes are rejected.
pub struct MirrorRam {
    pub work_ram: WorkRam,
}

impl MirrorRam {
    pub open spec fn wf(self) -> bool {
        self.work_ram.wf()
    }

    pub fn new() -> (r: MirrorRam)
        ensures
            r.wf(),
            forall|i: int| 0 <= i < WORK_RAM_SIZE ==> r.work_ram.ram@[i] == 0u8,
    {
        MirrorRam { work_ram: WorkRam::new() }
    }

    pub fn read(&self, addr: u16) -> (r: u8)
        requires
            self.wf(),
            addr < WORK_RAM_SIZE,
        ensures
            r == self.work_ram.ram@[addr as int],
    {
        self.work_ram.read(addr)
    }

    /// Writing through the mirror is prohibited and aborts the run.
    pub fn write(&mut self, addr: u16, _val: u8) -> (r: Result<(), GbError>)
        ensures
            *final(self) == *old(self),
            r == Result::<(), GbError>::Err(GbError::MirrorRamWrite { addr }),
    {
        Err(GbError::MirrorRamWrite { addr })
    }
}

/// Owner of the work RAM pair, handing out the device that serves each of
/// the two address ranges.
pub struct Ram {
    pub mirror_ram: MirrorRam,
}

impl Ram {
    pub open spec fn wf(self) -> bool {
        self.mirror_ram.wf()
    }

    pub fn new() -> (r: Ram)
        ensures
            r.wf(),
            forall|i: int| 0 <= i < WORK_RAM_SIZE ==> r.mirror_ram.work_ram.ram@[i] == 0u8,
    {
        Ram { mirror_ram: MirrorRam::new() }
    }

    /// The device serving the mirror address range.
    pub fn mirror_ram(&mut self) -> (r: &mut MirrorRam)
        ensures
            *r == old(self).mirror_ram,
            *final(self) == (Ram { mirror_ram: *final(r) }),
    {
        &mut self.mirror_ram
    }

    /// The device serving the work RAM address range.
    pub fn work_ram(&mut self) -> (r: &mut WorkRam)
        ensures
            *r == old(self).mirror_ram.work_ram,
            *final(self) == (Ram { mirror_ram: MirrorRam { work_ram: *final(r) } }),
    {
        &mut self.mirror_ram.work_ram
    }
}

} // verus!
