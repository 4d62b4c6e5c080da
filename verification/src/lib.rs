//! A cycle-accurate core for an 8-bit handheld game console: CPU, memory
//! bus, timers, interrupt controller, and dot-granular video unit.
//!
//! The orchestrator [`GameBoy`] owns every component; one [`GameBoy::step`]
//! executes an instruction (or an idle halted cycle), advances the clock
//! and the video unit by the consumed cycles, services interrupts, and
//! folds the HALT state machine.

use vstd::prelude::*;

pub mod bits;
pub mod clock;
pub mod cpu;
pub mod error;
pub mod gpu;
pub mod instructions;
pub mod interrupts;
pub mod introspection;
pub mod memory;

use crate::cpu::{Cpu, InstructionResult, InterruptResult};
use crate::error::GbError;
use crate::gpu::{Gpu, GpuState};
use crate::memory::Memory;

verus! {

/// The four shades a pixel can take.
#[derive(Clone, Copy, Debug, PartialEq, Eq, Structural)]
pub enum Color {
    White,
    LightGray,
    DarkGray,
    Black,
}

/// One emitted pixel of the 160x144 output stream.
#[derive(Clone, Copy, Debug, PartialEq, Eq, Structural)]
pub struct Pixel {
    pub x: u8,
    pub y: u8,
    pub color: Color,
}

/// The CPU's halt state machine: HaltBug is entered by HALT with a
/// pending request while interrupts are globally disabled.
#[derive(Clone, Copy, Debug, PartialEq, Eq, Structural)]
pub enum Halt {
    Running,
    Halted,
    HaltBug,
}

/// The halt-fold table as a function of the step's observations.
pub open spec fn next_halt_spec(
    current: Halt,
    interrupt_requested: bool,
    is_halt: bool,
    interrupts_enabled: bool,
) -> Halt {
    if interrupt_requested && is_halt && !interrupts_enabled {
        Halt::HaltBug
    } else if interrupt_requested {
        Halt::Running
    } else if is_halt {
        Halt::Halted
    } else if current is HaltBug {
        Halt::Running
    } else {
        current
    }
}

/// Folds one step's observations into the next halt state, by the
/// documented table: a pending request with HALT just executed under a
/// cleared master-enable flag triggers the HALT bug; any other pending
/// request resumes Running; HALT without a pending request halts; and
/// with nothing observed, Halted stays put while a consumed HaltBug
/// returns to Running.
pub fn next_halt(
    current: Halt,
    interrupt_requested: bool,
    is_halt: bool,
    interrupts_enabled: bool,
) -> (r: Halt)
    ensures
        r == next_halt_spec(current, interrupt_requested, is_halt, interrupts_enabled),
        (interrupt_requested && is_halt && !interrupts_enabled) ==> r == Halt::HaltBug,
        (interrupt_requested && !(is_halt && !interrupts_enabled)) ==> r == Halt::Running,
        (!interrupt_requested && is_halt) ==> r == Halt::Halted,
        (!interrupt_requested && !is_halt) ==> r == (match current {
            Halt::Halted => Halt::Halted,
            Halt::HaltBug => Halt::Running,
            Halt::Running => Halt::Running,
        }),
{
    match (interrupt_requested, is_halt, interrupts_enabled) {
        (true, true, false) => Halt::HaltBug,
        (true, _, _) => Halt::Running,
        (false, true, _) => Halt::Halted,
        (false, false, _) => match current {
            Halt::Halted => Halt::Halted,
            Halt::HaltBug => Halt::Running,
            Halt::Running => Halt::Running,
        },
    }
}

/// The power-on value of each I/O register (offset within the I/O
/// file), matching real hardware's post-boot state.
pub open spec fn io_power_on(a: int) -> u8 {
    if a == 0x00 {
        0xCFu8
    } else if a == 0x02 {
        0x7Eu8
    } else if a == 0x04 {
        0xABu8
    } else if a == 0x07 {
        0xF8u8
    } else if a == 0x0F {
        0xE1u8
    } else if a == 0x10 {
        0x80u8
    } else if a == 0x11 {
        0xBFu8
    } else if a == 0x12 {
        0xF3u8
    } else if a == 0x13 {
        0xFFu8
    } else if a == 0x14 {
        0xBFu8
    } else if a == 0x16 {
        0x3Fu8
    } else if a == 0x18 {
        0xFFu8
    } else if a == 0x19 {
        0xBFu8
    } else if a == 0x1A {
        0x7Fu8
    } else if a == 0x1B {
        0xFFu8
    } else if a == 0x1C {
        0x9Fu8
    } else if a == 0x1D {
        0xFFu8
    } else if a == 0x1E {
        0xBFu8
    } else if a == 0x20 {
        0xFFu8
    } else if a == 0x23 {
        0xBFu8
    } else if a == 0x24 {
        0x77u8
    } else if a == 0x25 {
        0xF3u8
    } else if a == 0x26 {
        0xF1u8
    } else if a == 0x40 {
        0x91u8
    } else if a == 0x41 {
        0x85u8
    } else if a == 0x44 {
        0x90u8
    } else if a == 0x47 {
        0xFCu8
    } else if a == 0x48 {
        0xFFu8
    } else if a == 0x49 {
        0xFFu8
    } else if a == 0x4D {
        0xFFu8
    } else if a == 0x4F {
        0xFFu8
    } else if a == 0x51 {
        0xFFu8
    } else if a == 0x52 {
        0xFFu8
    } else if a == 0x53 {
        0xFFu8
    } else if a == 0x54 {
        0xFFu8
    } else if a == 0x55 {
        0xFFu8
    } else if a == 0x56 {
        0xFFu8
    } else if a == 0x68 {
        0xFFu8
    } else if a == 0x69 {
        0xFFu8
    } else if a == 0x6A {
        0xFFu8
    } else if a == 0x6B {
        0xFFu8
    } else if a == 0x70 {
        0xFFu8
    } else {
        0u8
    }
}

/// The whole bus at power-on: the ROM image, the open-bus gap, the I/O
/// register table, and zeroed RAM everywhere else.
pub open spec fn power_on_view(rom: Seq<u8>) -> Seq<u8> {
    Seq::new(
        0x10000,
        |a: int|
            if a < 0x8000 {
                rom[a]
            } else if 0xFEA0 <= a < 0xFF00 {
                0xFFu8
            } else if 0xFF00 <= a < 0xFF80 {
                io_power_on(a - 0xFF00)
            } else {
                0u8
            },
    )
}

/// The orchestrator: owns the CPU, video unit, clock counter and memory
/// bus, and folds the halt state machine between steps.
pub struct GameBoy {
    pub halt: Halt,
    pub cycles: usize,
    pub cpu: Cpu,
    pub gpu: Gpu,
    pub memory: Memory,
}

impl GameBoy {
    pub open spec fn wf(self) -> bool {
        &&& self.cpu.wf()
        &&& self.gpu.wf()
        &&& self.memory.wf()
    }

    /// A machine at its documented power-on state over the given ROM
    /// image (which must cover the 32 KiB cartridge address range).
    #[verifier::rlimit(100)]
    pub fn new(rom: Vec<u8>) -> (r: GameBoy)
        requires
            rom@.len() >= 0x8000,
        ensures
            r.wf(),
            r.halt == Halt::Running,
            r.cycles == 0,
            r.cpu == Cpu::new_spec(),
            r.gpu.state == (GpuState::Mode2 { scanline: 0, dots_left: 80, window_line: 0 }),
            r.memory@ == power_on_view(rom@),
    {
        let mut gb = GameBoy {
            halt: Halt::Running,
            cycles: 0,
            cpu: Cpu::new(),
            gpu: Gpu::new(),
            memory: Memory::new(rom),
        };
        gb.memory.poke(0xFF00, 0xCF);
        gb.memory.poke(0xFF01, 0x00);
        gb.memory.poke(0xFF02, 0x7E);
        gb.memory.poke(0xFF04, 0xAB);
        gb.memory.poke(0xFF05, 0x00);
        gb.memory.poke(0xFF06, 0x00);
        gb.memory.poke(0xFF07, 0xF8);
        gb.memory.poke(0xFF0F, 0xE1);
        gb.memory.poke(0xFF10, 0x80);
        gb.memory.poke(0xFF11, 0xBF);
        gb.memory.poke(0xFF12, 0xF3);
        gb.memory.poke(0xFF13, 0xFF);
        gb.memory.poke(0xFF14, 0xBF);
        gb.memory.poke(0xFF16, 0x3F);
        gb.memory.poke(0xFF17, 0x00);
        gb.memory.poke(0xFF18, 0xFF);
        gb.memory.poke(0xFF19, 0xBF);
        gb.memory.poke(0xFF1A, 0x7F);
        gb.memory.poke(0xFF1B, 0xFF);
        gb.memory.poke(0xFF1C, 0x9F);
        gb.memory.poke(0xFF1D, 0xFF);
        gb.memory.poke(0xFF1E, 0xBF);
        gb.memory.poke(0xFF20, 0xFF);
        gb.memory.poke(0xFF21, 0x00);
        gb.memory.poke(0xFF22, 0x00);
        gb.memory.poke(0xFF23, 0xBF);
        gb.memory.poke(0xFF24, 0x77);
        gb.memory.poke(0xFF25, 0xF3);
        gb.memory.poke(0xFF26, 0xF1);
        gb.memory.poke(0xFF40, 0x91);
        gb.memory.poke(0xFF41, 0x85);
        gb.memory.poke(0xFF42, 0x00);
        gb.memory.poke(0xFF43, 0x00);
        gb.memory.poke(0xFF44, 0x90);
        gb.memory.poke(0xFF45, 0x00);
        gb.memory.poke(0xFF47, 0xFC);
        gb.memory.poke(0xFF48, 0xFF);
        gb.memory.poke(0xFF49, 0xFF);
        gb.memory.poke(0xFF4A, 0x00);
        gb.memory.poke(0xFF4B, 0x00);
        gb.memory.poke(0xFF4D, 0xFF);
        gb.memory.poke(0xFF4F, 0xFF);
        gb.memory.poke(0xFF51, 0xFF);
        gb.memory.poke(0xFF52, 0xFF);
        gb.memory.poke(0xFF53, 0xFF);
        gb.memory.poke(0xFF54, 0xFF);
        gb.memory.poke(0xFF55, 0xFF);
        gb.memory.poke(0xFF56, 0xFF);
        gb.memory.poke(0xFF68, 0xFF);
        gb.memory.poke(0xFF69, 0xFF);
        gb.memory.poke(0xFF6A, 0xFF);
        gb.memory.poke(0xFF6B, 0xFF);
        gb.memory.poke(0xFF70, 0xFF);
        gb.memory.poke(0xFFFF, 0x00);
        proof {
            assert(gb.memory@ =~= power_on_view(rom@));
        }
        gb
    }

    /// One external step: execute one instruction (HaltBug suppresses
    /// the fetch's PC advance; Halted synthesizes a 1-cycle no-op),
    /// advance the clock and video unit by the consumed cycles, service
    /// interrupts and advance again, fold the halt state machine, and
    /// extract any completed serial byte.
    pub fn step(&mut self) -> (r: Result<(Option<u8>, Vec<Pixel>), GbError>)
        requires
            old(self).wf(),
        ensures
            final(self).wf(),
            (r matches Ok(ok) ==> step_rel(*old(self), *final(self), ok.0, ok.1@)),
            (r matches Err(e) ==> step_err_rel(*old(self), *final(self), e)),
    {
        let instruction_result = match self.halt {
            Halt::Running => {
                let res = self.cpu.execute_next_instruction(&mut self.memory);
                match res {
                    Ok(ir) => ir,
                    Err(e) => {
                        proof {
                            assert(step_err_rel(*old(self), *self, e));
                        }
                        return Err(e);
                    },
                }
            },
            Halt::HaltBug => {
                let res = self.cpu.execute_next_instruction_with_halt_bug(&mut self.memory);
                match res {
                    Ok(ir) => ir,
                    Err(e) => {
                        proof {
                            assert(step_err_rel(*old(self), *self, e));
                        }
                        return Err(e);
                    },
                }
            },
            Halt::Halted => InstructionResult { is_halt: false, cycles: 1 },
        };
        let ghost gb1 = *self;
        let mut pixels = self.tick(instruction_result.cycles as usize);
        let ghost gb2 = *self;
        let ghost pix1 = pixels@;
        let interrupt_result = {
            let res = self.cpu.handle_interrupts(&mut self.memory);
            match res {
                Ok(ir) => ir,
                Err(e) => {
                    proof {
                        assert(step_instr(*old(self), gb1, instruction_result));
                        assert(step_tick(gb1, gb2, pix1, instruction_result.cycles as int));
                        assert(step_err_rel(*old(self), *self, e));
                    }
                    return Err(e);
                },
            }
        };
        let ghost gb3 = *self;
        let mut interrupt_pixels = self.tick(interrupt_result.cycles as usize);
        let ghost gb4 = *self;
        let ghost pix2 = interrupt_pixels@;
        pixels.append(&mut interrupt_pixels);
        self.halt = next_halt(
            self.halt,
            interrupt_result.interrupt_requested,
            instruction_result.is_halt,
            interrupt_result.interrupts_enabled,
        );
        let serial = self.serial();
        proof {
            assert(step_instr(*old(self), gb1, instruction_result));
            assert(step_tick(gb1, gb2, pix1, instruction_result.cycles as int));
            assert(step_interrupts(gb2, gb3, interrupt_result));
            assert(step_tick(gb3, gb4, pix2, interrupt_result.cycles as int));
            assert(pixels@ == crate::clock::pix_cat(pix1, pix2));
            assert(step_rel(*old(self), *self, serial, pixels@));
        }
        Ok((serial, pixels))
    }
}

/// Stage one of a step: the executed instruction, or the synthesized
/// 1-cycle no-op while halted; only the CPU and memory can change.
pub open spec fn step_instr(pre: GameBoy, gb1: GameBoy, ir: InstructionResult) -> bool {
    &&& gb1.gpu == pre.gpu
    &&& gb1.halt == pre.halt
    &&& gb1.cycles == pre.cycles
    &&& if pre.halt is Halted {
        &&& gb1.cpu == pre.cpu
        &&& gb1.memory == pre.memory
        &&& ir == (InstructionResult { cycles: 1, is_halt: false })
    } else {
        crate::instructions::exec_post(
            pre.cpu,
            pre.memory,
            gb1.cpu,
            gb1.memory,
            Ok(ir),
            pre.halt is HaltBug,
        )
    }
}

/// A clock advance of `n` master cycles within a step: the CPU and halt
/// state are untouched while the clock, video unit, and bus evolve by
/// the chained cycle relation.
pub open spec fn step_tick(gb1: GameBoy, gb2: GameBoy, pix: Seq<Pixel>, n: int) -> bool {
    &&& gb2.cpu == gb1.cpu
    &&& gb2.halt == gb1.halt
    &&& gb2.cycles == crate::clock::count_after_n(gb1.cycles, n)
    &&& crate::clock::cycles_rel(
        gb1.gpu.state,
        gb1.memory@,
        gb2.gpu.state,
        gb2.memory@,
        pix,
        n,
        gb1.cycles,
        crate::clock::timer_info::timer_info_of(gb1.memory@),
    )
}

/// The interrupt-servicing stage of a step.
pub open spec fn step_interrupts(gb2: GameBoy, gb3: GameBoy, irr: InterruptResult) -> bool {
    &&& gb3.gpu == gb2.gpu
    &&& gb3.halt == gb2.halt
    &&& gb3.cycles == gb2.cycles
    &&& crate::cpu::interrupts_post(gb2.cpu, gb2.memory@, gb3.cpu, gb3.memory@, Ok(irr))
}

/// What a successful step guarantees end to end: one instruction (with
/// its fetch semantics), a clock advance by its cycles, one interrupt
/// service, a second advance by its cycles, the halt fold over what was
/// observed, and the serial extraction — with the two pixel batches
/// concatenated in order.
pub open spec fn step_rel(pre: GameBoy, post: GameBoy, sb: Option<u8>, pixels: Seq<Pixel>) -> bool {
    exists|gb1: GameBoy, ir: InstructionResult|
        #![trigger step_instr(pre, gb1, ir)]
        step_instr(pre, gb1, ir) && exists|gb2: GameBoy, pix1: Seq<Pixel>|
            #![trigger step_tick(gb1, gb2, pix1, ir.cycles as int)]
            step_tick(gb1, gb2, pix1, ir.cycles as int) && exists|gb3: GameBoy, irr: InterruptResult|
                #![trigger step_interrupts(gb2, gb3, irr)]
                step_interrupts(gb2, gb3, irr) && exists|gb4: GameBoy, pix2: Seq<Pixel>|
                    #![trigger step_tick(gb3, gb4, pix2, irr.cycles as int)]
                    {
                        &&& step_tick(gb3, gb4, pix2, irr.cycles as int)
                        &&& post.cpu == gb4.cpu
                        &&& post.gpu == gb4.gpu
                        &&& post.cycles == gb4.cycles
                        &&& post.halt == next_halt_spec(
                            pre.halt,
                            irr.interrupt_requested,
                            ir.is_halt,
                            irr.interrupts_enabled,
                        )
                        &&& sb == crate::introspection::serial_byte(gb4.memory@)
                        &&& post.memory@ == crate::introspection::serial_view(gb4.memory@)
                        &&& pixels == crate::clock::pix_cat(pix1, pix2)
                    }
}

/// What a failed step guarantees: the abort arises either from the
/// executed instruction itself — an illegal opcode or STOP was fetched,
/// or a store landed in the work-RAM mirror (the `Err` case of
/// `exec_post`, which holds of no other pre-state) — or, after the
/// first clock advance, from the interrupt service's stack push landing
/// in the mirror (the `Err` case of `interrupts_post`). No later stage
/// can fail, so together with the `Ok` clause a step must succeed
/// whenever no such fatal condition arises.
pub open spec fn step_err_rel(pre: GameBoy, post: GameBoy, e: GbError) -> bool {
    ||| {
        &&& !(pre.halt is Halted)
        &&& post.gpu == pre.gpu
        &&& post.halt == pre.halt
        &&& post.cycles == pre.cycles
        &&& crate::instructions::exec_post(
            pre.cpu,
            pre.memory,
            post.cpu,
            post.memory,
            Err(e),
            pre.halt is HaltBug,
        )
    }
    ||| exists|gb1: GameBoy, ir: InstructionResult|
        #![trigger step_instr(pre, gb1, ir)]
        step_instr(pre, gb1, ir) && exists|gb2: GameBoy, pix1: Seq<Pixel>|
            #![trigger step_tick(gb1, gb2, pix1, ir.cycles as int)]
            {
                &&& step_tick(gb1, gb2, pix1, ir.cycles as int)
                &&& post.gpu == gb2.gpu
                &&& post.halt == gb2.halt
                &&& post.cycles == gb2.cycles
                &&& crate::cpu::interrupts_post(gb2.cpu, gb2.memory@, post.cpu, post.memory@, Err(e))
            }
}

} // verus!
