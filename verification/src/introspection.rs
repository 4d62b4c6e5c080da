//! The serial side channel: the one externally observable output besides
//! pixels.

use vstd::prelude::*;
use crate::memory::{write_view, SB, SC};
use crate::GameBoy;

verus! {

/// The byte a completed serial transfer hands out, if any.
pub open spec fn serial_byte(m: Seq<u8>) -> Option<u8> {
    if m[SC as int] == 0x81 {
        Some(m[SB as int])
    } else {
        None
    }
}

/// The bus after the serial check: the control register is cleared
/// exactly when a transfer had completed.
pub open spec fn serial_view(m: Seq<u8>) -> Seq<u8> {
    if m[SC as int] == 0x81 {
        write_view(m, SC, 0)
    } else {
        m
    }
}

impl GameBoy {
    /// Checks the serial-control register for a completed transfer: if
    /// its value is 0x81 the transferred byte is extracted and the
    /// control register cleared; otherwise nothing happens.
    pub fn serial(&mut self) -> (r: Option<u8>)
        requires
            old(self).wf(),
        ensures
            final(self).wf(),
            final(self).cpu == old(self).cpu,
            final(self).gpu == old(self).gpu,
            final(self).halt == old(self).halt,
            final(self).cycles == old(self).cycles,
            r == serial_byte(old(self).memory@),
            final(self).memory@ == serial_view(old(self).memory@),
            old(self).memory@[SC as int] != 0x81 ==> *final(self) == *old(self),
    {
        if self.memory.read(SC) == 0x81 {
            let byte = self.memory.read(SB);
            self.memory.poke(SC, 0x0);
            Some(byte)
        } else {
            None
        }
    }
}

} // verus!
