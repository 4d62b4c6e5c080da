//! The single interrupt-enable byte at the top of the address space.

use vstd::prelude::*;

verus! {

pub struct InterruptEnableRegister {
    pub byte: u8,
}

impl InterruptEnableRegister {
    pub fn new() -> (r: InterruptEnableRegister)
        ensures
            r.byte == 0u8,
    {
        InterruptEnableRegister { byte: 0 }
    }

    pub fn read(&self) -> (r: u8)
        ensures
            r == self.byte,
    {
        self.byte
    }

    pub fn write(&mut self, val: u8)
        ensures
            final(self).byte == val,
    {
        self.byte = val;
    }
}

} // verus!
