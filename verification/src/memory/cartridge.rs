//! The cartridge region: flat read-only ROM mapped at 0x0000-0x7FFF.

use vstd::prelude::*;

verus! {

/// Read-only program memory. Writes are defined no-ops, as on real hardware.
pub struct Cartridge {
    pub rom: Vec<u8>,
}

impl Cartridge {
    /// The ROM image must cover the whole 32 KiB cartridge address range.
    pub open spec fn wf(self) -> bool {
        self.rom@.len() >= 0x8000
    }

    /// Wraps a ROM image that covers the cartridge address range.
    pub fn new(rom: Vec<u8>) -> (r: Cartridge)
        requires
            rom@.len() >= 0x8000,
        ensures
            r.wf(),
            r.rom@ == rom@,
    {
        Cartridge { rom }
    }

    /// Reads one ROM byte.
    pub fn read(&self, addr: u16) -> (r: u8)
        requires
            self.wf(),
            addr < 0x8000,
        ensures
            r == self.rom@[addr as int],
    {
        self.rom[addr as usize]
    }

    /// ROM is physically read-only: the write is ignored.
    pub fn write(&mut self, _addr: u16, _val: u8)
        ensures
            *final(self) == *old(self),
    {
    }
}

} // verus!
