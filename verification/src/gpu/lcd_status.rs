//! The interrupt-enable bits of the LCD status register.

use vstd::prelude::*;
use crate::bits::{bit_set, test_bit};
use crate::memory::{Memory, STAT};

verus! {

/// Which STAT conditions raise the LCD-status interrupt.
#[derive(Clone, Copy, Debug, PartialEq, Eq, Structural)]
pub struct LcdStatus {
    pub lyc_interrupt: bool,
    pub mode_2_interrupt: bool,
    pub mode_1_interrupt: bool,
    pub mode_0_interrupt: bool,
}

/// The status bits as decoded from the bus.
pub open spec fn lcd_status_of(m: Seq<u8>) -> LcdStatus {
    LcdStatus {
        lyc_interrupt: bit_set(m[STAT as int], 6),
        mode_2_interrupt: bit_set(m[STAT as int], 5),
        mode_1_interrupt: bit_set(m[STAT as int], 4),
        mode_0_interrupt: bit_set(m[STAT as int], 3),
    }
}

impl LcdStatus {
    /// Decodes the interrupt-enable bits from the status register.
    pub fn from_memory(memory: &Memory) -> (r: LcdStatus)
        requires
            memory.wf(),
        ensures
            r == lcd_status_of(memory@),
    {
        let status = memory.read(STAT);
        LcdStatus {
            lyc_interrupt: test_bit(status, 6),
            mode_2_interrupt: test_bit(status, 5),
            mode_1_interrupt: test_bit(status, 4),
            mode_0_interrupt: test_bit(status, 3),
        }
    }
}

} // verus!
