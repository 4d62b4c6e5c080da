//! The I/O register file at 0xFF00-0xFF7F, including the two timer
//! counters the clock advances directly.

use vstd::prelude::*;
use crate::memory::zeroed;

verus! {

pub const IO_REGISTERS_SIZE: usize = 0x80;

/// Offset of the free-running divider register within the I/O file.
pub const DIVIDER_OFFSET: usize = 0x04;

/// Offset of the configurable timer counter within the I/O file.
pub const TIMER_OFFSET: usize = 0x05;

pub struct IORegisters {
    pub ram: Vec<u8>,
}

impl IORegisters {
    pub open spec fn wf(self) -> bool {
        self.ram@.len() == IO_REGISTERS_SIZE
    }

    pub fn new() -> (r: IORegisters)
        ensures
            r.wf(),
            forall|i: int| 0 <= i < IO_REGISTERS_SIZE ==> r.ram@[i] == 0u8,
    {
        IORegisters { ram: zeroed(IO_REGISTERS_SIZE) }
    }

    pub fn read(&self, addr: u16) -> (r: u8)
        requires
            self.wf(),
            addr < IO_REGISTERS_SIZE,
        ensures
            r == self.ram@[addr as int],
    {
        self.ram[addr as usize]
    }

    pub fn write(&mut self, addr: u16, val: u8)
        requires
            old(self).wf(),
            addr < IO_REGISTERS_SIZE,
        ensures
            final(self).wf(),
            final(self).ram@ == old(self).ram@.update(addr as int, val),
    {
        self.ram.set(addr as usize, val);
    }

    /// Advances the free-running divider by one, wrapping at 256.
    pub fn tick_div(&mut self)
        requires
            old(self).wf(),
        ensures
            final(self).wf(),
            final(self).ram@ == old(self).ram@.update(
                DIVIDER_OFFSET as int,
                old(self).ram@[DIVIDER_OFFSET as int].wrapping_add(1),
            ),
    {
        let incremented = self.ram[DIVIDER_OFFSET].wrapping_add(1);
        self.ram.set(DIVIDER_OFFSET, incremented);
    }

    /// Advances the configurable timer counter by one; on overflow the
    /// counter reloads from `modulo` and the result reports that a Timer
    /// interrupt must be requested.
    pub fn tick_timer(&mut self, modulo: u8) -> (overflowed: bool)
        requires
            old(self).wf(),
        ensures
            final(self).wf(),
            overflowed == (old(self).ram@[TIMER_OFFSET as int] == 0xFFu8),
            final(self).ram@ == old(self).ram@.update(
                TIMER_OFFSET as int,
                if old(self).ram@[TIMER_OFFSET as int] == 0xFFu8 {
                    modulo
                } else {
                    (old(self).ram@[TIMER_OFFSET as int] + 1) as u8
                },
            ),
    {
        let incremented = self.ram[TIMER_OFFSET].wrapping_add(1);
        if incremented == 0 {
            self.ram.set(TIMER_OFFSET, modulo);
            true
        } else {
            self.ram.set(TIMER_OFFSET, incremented);
            false
        }
    }
}

} // verus!
