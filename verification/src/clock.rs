//! The clock: advances the wrapping cycle counter, drives the video unit
//! four dots per master cycle, raises the video interrupts, and derives
//! the divider and configurable timer ticks.

use vstd::prelude::*;
use crate::clock::timer_info::{timer_info_of, TimerInfo};
use crate::cpu::Interrupts;
use crate::gpu::{dots_rel, gpu_interrupts, gpu_regs_view, lcd_of, GpuState};
use crate::interrupts::interrupt_bit;
use crate::memory::{write_view, DIV, IF, TIMA};
use crate::{GameBoy, Pixel};

pub mod timer_info;

verus! {

/// The bus after raising each interrupt of a list, in order.
pub open spec fn apply_interrupts(m: Seq<u8>, ints: Seq<Interrupts>) -> Seq<u8>
    decreases ints.len(),
{
    if ints.len() == 0 {
        m
    } else {
        apply_interrupts(
            write_view(m, IF, m[IF as int] | (1u8 << interrupt_bit(ints[0]))),
            ints.drop_first(),
        )
    }
}

/// The bus after the free-running divider tick: every 64th cycle the
/// divider register increments, wrapping.
pub open spec fn div_view(m: Seq<u8>, count: usize) -> Seq<u8> {
    if count % 64 == 0 {
        write_view(m, DIV, m[DIV as int].wrapping_add(1))
    } else {
        m
    }
}

/// The bus after the configurable timer tick: at the configured period
/// the counter increments; on overflow it reloads from the modulo byte
/// and the Timer interrupt is requested.
pub open spec fn timer_view(m: Seq<u8>, count: usize, t: TimerInfo) -> Seq<u8> {
    if t.enable && count % t.cycles == 0 {
        if m[TIMA as int] == 0xFF {
            let m1 = write_view(m, TIMA, t.modulo);
            write_view(m1, IF, m1[IF as int] | (1u8 << 2))
        } else {
            write_view(m, TIMA, (m[TIMA as int] + 1) as u8)
        }
    } else {
        m
    }
}

/// One master cycle: four video dots with their register housekeeping,
/// the video interrupts raised, then the divider and timer ticks at the
/// incremented cycle count.
pub open spec fn cycle_rel(
    pre_gpu: GpuState,
    pre_m: Seq<u8>,
    post_gpu: GpuState,
    post_m: Seq<u8>,
    pixels: Seq<Pixel>,
    count_after: usize,
    t: TimerInfo,
) -> bool {
    &&& dots_rel(
        if lcd_of(pre_m).is_ppu_enabled {
            pre_gpu
        } else {
            GpuState::Stopped
        },
        post_gpu,
        pixels,
        4,
        pre_m,
        lcd_of(pre_m),
    )
    &&& post_m == timer_view(
        div_view(
            apply_interrupts(gpu_regs_view(pre_m, post_gpu), gpu_interrupts(pre_m, post_gpu)),
            count_after,
        ),
        count_after,
        t,
    )
}

/// Two pixel streams concatenated.
pub open spec fn pix_cat(a: Seq<Pixel>, b: Seq<Pixel>) -> Seq<Pixel> {
    a + b
}

/// The cycle counter after `n` wrapping increments.
pub open spec fn count_after_n(c: usize, n: int) -> usize
    decreases n,
{
    if n <= 0 {
        c
    } else {
        count_after_n(c.wrapping_add(1), n - 1)
    }
}

/// `n` chained master cycles, with their pixels concatenated in order.
pub open spec fn cycles_rel(
    pre_gpu: GpuState,
    pre_m: Seq<u8>,
    post_gpu: GpuState,
    post_m: Seq<u8>,
    pixels: Seq<Pixel>,
    n: int,
    count: usize,
    t: TimerInfo,
) -> bool
    decreases n,
{
    if n <= 0 {
        post_gpu == pre_gpu && post_m == pre_m && pixels.len() == 0
    } else {
        exists|mid_gpu: GpuState, mid_m: Seq<u8>, pix1: Seq<Pixel>, rest: Seq<Pixel>|
            #![trigger cycle_rel(pre_gpu, pre_m, mid_gpu, mid_m, pix1, count.wrapping_add(1), t), pix_cat(pix1, rest)]
            cycle_rel(pre_gpu, pre_m, mid_gpu, mid_m, pix1, count.wrapping_add(1), t)
                && cycles_rel(mid_gpu, mid_m, post_gpu, post_m, rest, n - 1, count.wrapping_add(1), t)
                && pixels == pix_cat(pix1, rest)
    }
}

impl GameBoy {
    /// One master cycle of the clock and video unit.
    fn tick_one_cycle(&mut self, timer_info: TimerInfo) -> (pixels: Vec<Pixel>)
        requires
            old(self).wf(),
            timer_info.cycles == 256 || timer_info.cycles == 4 || timer_info.cycles == 16
                || timer_info.cycles == 64,
        ensures
            final(self).wf(),
            final(self).cpu == old(self).cpu,
            final(self).halt == old(self).halt,
            final(self).cycles == old(self).cycles.wrapping_add(1),
            cycle_rel(
                old(self).gpu.state,
                old(self).memory@,
                final(self).gpu.state,
                final(self).memory@,
                pixels@,
                final(self).cycles,
                timer_info,
            ),
    {
        let ghost m0 = self.memory@;
        let (pixels, interrupts) = self.gpu.tick_gpu(&mut self.memory);
        let ghost m_regs = self.memory@;
        let ghost ints_seq = interrupts@;
        let ghost gpu_after = self.gpu;
        proof {
            assert(ints_seq.subrange(0, ints_seq.len() as int) =~= ints_seq);
        }
        let mut k: usize = 0;
        while k < interrupts.len()
            invariant
                self.wf(),
                k <= interrupts@.len(),
                interrupts@ == ints_seq,
                self.cpu == old(self).cpu,
                self.halt == old(self).halt,
                self.cycles == old(self).cycles,
                self.gpu == gpu_after,
                apply_interrupts(m_regs, ints_seq) == apply_interrupts(
                    self.memory@,
                    ints_seq.subrange(k as int, ints_seq.len() as int),
                ),
            decreases interrupts@.len() - k,
        {
            let int_k = interrupts[k];
            let ghost cur = self.memory@;
            self.trigger_interrupt(int_k);
            proof {
                let skip_k = ints_seq.subrange(k as int, ints_seq.len() as int);
                assert(skip_k[0] == ints_seq[k as int]);
                assert(skip_k.drop_first() =~= ints_seq.subrange(
                    k + 1,
                    ints_seq.len() as int,
                ));
            }
            k = k + 1;
        }
        proof {
            assert(ints_seq.subrange(ints_seq.len() as int, ints_seq.len() as int).len() == 0);
        }
        let ghost m_ints = self.memory@;
        self.cycles = self.cycles.wrapping_add(1);
        if self.cycles % 64 == 0 {
            let ghost before = self.memory@;
            self.memory.io_registers.tick_div();
            proof {
                assert(self.memory@ =~= write_view(
                    before,
                    DIV,
                    before[DIV as int].wrapping_add(1),
                ));
            }
        }
        let ghost m_div = self.memory@;
        if timer_info.enable && self.cycles % timer_info.cycles == 0 {
            let ghost before = self.memory@;
            let overflowed = self.memory.io_registers.tick_timer(timer_info.modulo);
            proof {
                if before[TIMA as int] == 0xFF {
                    assert(self.memory@ =~= write_view(before, TIMA, timer_info.modulo));
                } else {
                    assert(self.memory@ =~= write_view(
                        before,
                        TIMA,
                        (before[TIMA as int] + 1) as u8,
                    ));
                }
            }
            if overflowed {
                self.trigger_interrupt(Interrupts::Timer);
            }
        }
        proof {
            assert(self.memory@ == timer_view(m_div, self.cycles, timer_info));
        }
        pixels
    }

    /// Advances the clock and video unit by the given number of master
    /// cycles; the timer configuration is sampled once at entry.
    pub fn tick(&mut self, cycles: usize) -> (pixels: Vec<Pixel>)
        requires
            old(self).wf(),
        ensures
            final(self).wf(),
            final(self).cpu == old(self).cpu,
            final(self).halt == old(self).halt,
            final(self).cycles == count_after_n(old(self).cycles, cycles as int),
            cycles_rel(
                old(self).gpu.state,
                old(self).memory@,
                final(self).gpu.state,
                final(self).memory@,
                pixels@,
                cycles as int,
                old(self).cycles,
                timer_info_of(old(self).memory@),
            ),
    {
        let timer_info = TimerInfo::from_memory(&self.memory);
        self.tick_inner(cycles, timer_info)
    }

    /// The cycle loop, with the sampled timer configuration held fixed.
    fn tick_inner(&mut self, cycles: usize, timer_info: TimerInfo) -> (pixels: Vec<Pixel>)
        requires
            old(self).wf(),
            timer_info.cycles == 256 || timer_info.cycles == 4 || timer_info.cycles == 16
                || timer_info.cycles == 64,
        ensures
            final(self).wf(),
            final(self).cpu == old(self).cpu,
            final(self).halt == old(self).halt,
            final(self).cycles == count_after_n(old(self).cycles, cycles as int),
            cycles_rel(
                old(self).gpu.state,
                old(self).memory@,
                final(self).gpu.state,
                final(self).memory@,
                pixels@,
                cycles as int,
                old(self).cycles,
                timer_info,
            ),
        decreases cycles,
    {
        if cycles == 0 {
            Vec::new()
        } else {
            let mut pixels = self.tick_one_cycle(timer_info);
            let ghost pix1 = pixels@;
            let mut rest = self.tick_inner(cycles - 1, timer_info);
            let ghost rest_pix = rest@;
            pixels.append(&mut rest);
            proof {
                assert(pixels@ == pix_cat(pix1, rest_pix));
            }
            pixels
        }
    }
}

} // verus!