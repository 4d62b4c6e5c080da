//! Raising interrupt requests through the bus-visible request register.

use vstd::prelude::*;
use crate::bits::{bit_set, set_bit};
use crate::cpu::Interrupts;
use crate::memory::{write_view, IF};
use crate::GameBoy;

verus! {

/// The request-register bit index of each interrupt source (bit 0 is the
/// highest priority).
pub open spec fn interrupt_bit(interrupt: Interrupts) -> u8 {
    match interrupt {
        Interrupts::VBlank => 0u8,
        Interrupts::Lcd => 1u8,
        Interrupts::Timer => 2u8,
        Interrupts::Serial => 3u8,
        Interrupts::Joypad => 4u8,
    }
}

impl GameBoy {
    /// Raises an interrupt request by setting its bit in the request
    /// register; everything else is untouched.
    pub fn trigger_interrupt(&mut self, interrupt: Interrupts)
        requires
            old(self).wf(),
        ensures
            final(self).wf(),
            final(self).memory@ == write_view(
                old(self).memory@,
                IF,
                old(self).memory@[IF as int] | (1u8 << interrupt_bit(interrupt)),
            ),
            final(self).cpu == old(self).cpu,
            final(self).gpu == old(self).gpu,
            final(self).halt == old(self).halt,
            final(self).cycles == old(self).cycles,
    {
        let bit: u8 = match interrupt {
            Interrupts::VBlank => 0,
            Interrupts::Lcd => 1,
            Interrupts::Timer => 2,
            Interrupts::Serial => 3,
            Interrupts::Joypad => 4,
        };
        self.set_interrupt_bit(bit);
    }

    /// Read-modify-write of the request register.
    fn set_interrupt_bit(&mut self, bit: u8)
        requires
            old(self).wf(),
            bit < 8,
        ensures
            final(self).wf(),
            final(self).memory@ == write_view(
                old(self).memory@,
                IF,
                old(self).memory@[IF as int] | (1u8 << bit),
            ),
            final(self).cpu == old(self).cpu,
            final(self).gpu == old(self).gpu,
            final(self).halt == old(self).halt,
            final(self).cycles == old(self).cycles,
    {
        let if_reg = self.memory.read(IF);
        self.memory.poke(IF, set_bit(if_reg, bit));
    }
}

} // verus!
