//! The timer configuration derived from the bus-visible registers.

use vstd::prelude::*;
use crate::bits::field;
use crate::memory::{Memory, TAC, TMA};

verus! {

/// The configurable timer: enabled bit, tick period in master cycles,
/// and the reload byte.
#[derive(Clone, Copy, Debug, PartialEq, Eq, Structural)]
pub struct TimerInfo {
    pub cycles: usize,
    pub modulo: u8,
    pub enable: bool,
}

/// The configuration the timer-control and modulo registers select: the
/// 2-bit divisor chooses a period of 256, 4, 16 or 64 master cycles.
pub open spec fn timer_info_of(m: Seq<u8>) -> TimerInfo {
    TimerInfo {
        enable: field(m[TAC as int], 2, 2) == 1,
        cycles: {
            let sel = field(m[TAC as int], 1, 0);
            if sel == 0 {
                256usize
            } else if sel == 1 {
                4usize
            } else if sel == 2 {
                16usize
            } else {
                64usize
            }
        },
        modulo: m[TMA as int],
    }
}

impl TimerInfo {
    /// Decodes the timer configuration from the bus.
    pub fn from_memory(memory: &Memory) -> (r: TimerInfo)
        requires
            memory.wf(),
        ensures
            r == timer_info_of(memory@),
            r.cycles == 256 || r.cycles == 4 || r.cycles == 16 || r.cycles == 64,
    {
        let timer_control = memory.read(TAC);
        let enable = crate::bits::get_bits(timer_control, 2, 2) == 1;
        let sel = crate::bits::get_bits(timer_control, 1, 0);
        let cycles: usize = if sel == 0 {
            256
        } else if sel == 1 {
            4
        } else if sel == 2 {
            16
        } else {
            64
        };
        let modulo = memory.read(TMA);
        TimerInfo { enable, cycles, modulo }
    }
}

} // verus!
