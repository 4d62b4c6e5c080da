//! The unusable gap at 0xFEA0-0xFEFF: open-bus reads, ignored writes.

use vstd::prelude::*;

verus! {

/// Open bus: reads return a fixed sentinel, writes are absorbed.
pub struct NotUsable {}

impl NotUsable {
    pub fn read(&self, _addr: u16) -> (r: u8)
        ensures
            r == 0xFFu8,
    {
        0xFF
    }

    pub fn write(&mut self, _addr: u16, _val: u8)
        ensures
            *final(self) == *old(self),
    {
    }
}

} // verus!
