//! The CPU: register file, flags, stack, and interrupt servicing.
//!
//! The flag register F keeps its four flags in bits 7..4 (Zero, Subtract,
//! Half-carry, Carry); its low nibble is always zero, which `wf` records.

use vstd::prelude::*;
use crate::bits::{bit_set, clear_bit, get_lsb, lowest_bit, set_bit};
use crate::error::GbError;
use crate::memory::{bus_write_ok, is_mirror_addr, Memory, IE, IF};

verus! {

/// The five interrupt sources, in ascending bit order (bit 0 = VBlank,
/// highest priority).
#[derive(Clone, Copy, Debug, PartialEq, Eq, Structural)]
pub enum Interrupts {
    VBlank,
    Lcd,
    Timer,
    Serial,
    Joypad,
}

/// What one interrupt-servicing pass observed and consumed.
#[derive(Clone, Copy, Debug, PartialEq, Eq, Structural)]
pub struct InterruptResult {
    pub interrupt_requested: bool,
    pub interrupts_enabled: bool,
    pub cycles: u8,
}

/// What one executed instruction consumed.
#[derive(Clone, Copy, Debug, PartialEq, Eq, Structural)]
pub struct InstructionResult {
    pub cycles: u8,
    pub is_halt: bool,
}

/// Whether an operand access went to a register or through memory;
/// indirect accesses cost extra M-cycles.
#[derive(Clone, Copy, Debug, PartialEq, Eq, Structural)]
pub enum AccessType {
    Direct,
    Indirect,
}

impl AccessType {
    /// Indirect wins: an access pair is direct only if both are.
    pub fn join(self, rhs: AccessType) -> (r: AccessType)
        ensures
            r == if self == AccessType::Direct && rhs == AccessType::Direct {
                AccessType::Direct
            } else {
                AccessType::Indirect
            },
    {
        match (self, rhs) {
            (AccessType::Direct, AccessType::Direct) => AccessType::Direct,
            _ => AccessType::Indirect,
        }
    }
}

/// The register file, program counter, stack pointer, and the interrupt
/// master-enable flag.
#[derive(Clone, Copy, Debug, PartialEq, Eq, Structural)]
pub struct Cpu {
    pub ime: bool,
    pub a: u8,
    pub f: u8,
    pub b: u8,
    pub c: u8,
    pub d: u8,
    pub e: u8,
    pub h: u8,
    pub l: u8,
    pub sp: u16,
    pub pc: u16,
}

/// The service vector each one-hot interrupt bit jumps to.
pub open spec fn interrupt_vector(lsb: u8) -> u16 {
    if lsb == 1 {
        0x40u16
    } else if lsb == 2 {
        0x48u16
    } else if lsb == 4 {
        0x50u16
    } else if lsb == 8 {
        0x58u16
    } else {
        0x60u16
    }
}

impl Cpu {
    /// F's low nibble is always zero.
    pub open spec fn wf(self) -> bool {
        self.f & 0x0F == 0
    }

    /// Zero flag: bit 7 of F.
    pub open spec fn spec_z(self) -> bool {
        bit_set(self.f, 7)
    }

    /// Subtract flag: bit 6 of F.
    pub open spec fn spec_n(self) -> bool {
        bit_set(self.f, 6)
    }

    /// Half-carry flag: bit 5 of F.
    pub open spec fn spec_h(self) -> bool {
        bit_set(self.f, 5)
    }

    /// Carry flag: bit 4 of F.
    pub open spec fn spec_c(self) -> bool {
        bit_set(self.f, 4)
    }

    pub open spec fn spec_bc(self) -> u16 {
        (self.b * 0x100 + self.c) as u16
    }

    pub open spec fn spec_de(self) -> u16 {
        (self.d * 0x100 + self.e) as u16
    }

    pub open spec fn spec_hl(self) -> u16 {
        (self.h * 0x100 + self.l) as u16
    }

    pub open spec fn spec_af(self) -> u16 {
        (self.a * 0x100 + self.f) as u16
    }

    /// The register value `read_r16` returns for index `r`.
    pub open spec fn spec_r16(self, r: u8) -> u16 {
        if r == 0 {
            self.spec_bc()
        } else if r == 1 {
            self.spec_de()
        } else if r == 2 {
            self.spec_hl()
        } else {
            self.sp
        }
    }

    /// This register file with the pair selected by `r` replaced by `val`.
    pub open spec fn with_r16(self, r: u8, val: u16) -> Cpu {
        if r == 0 {
            Cpu { b: (val / 0x100) as u8, c: (val % 0x100) as u8, ..self }
        } else if r == 1 {
            Cpu { d: (val / 0x100) as u8, e: (val % 0x100) as u8, ..self }
        } else if r == 2 {
            Cpu { h: (val / 0x100) as u8, l: (val % 0x100) as u8, ..self }
        } else {
            Cpu { sp: val, ..self }
        }
    }

    /// The address an indirect-pair operand dereferences (BC, DE, HL+, HL-).
    pub open spec fn r16_mem_addr(self, r: u8) -> u16 {
        if r == 0 {
            self.spec_bc()
        } else if r == 1 {
            self.spec_de()
        } else {
            self.spec_hl()
        }
    }

    /// The register file after the HL+ / HL- post-operation of an
    /// indirect-pair operand.
    pub open spec fn r16_mem_cpu(self, r: u8) -> Cpu {
        if r == 2 {
            self.with_r16(2, self.spec_hl().wrapping_add(1))
        } else if r == 3 {
            self.with_r16(2, self.spec_hl().wrapping_sub(1))
        } else {
            self
        }
    }

    /// The documented power-on register values.
    pub open spec fn new_spec() -> Cpu {
        Cpu {
            ime: false,
            a: 0x01,
            f: 0xB0,
            b: 0x00,
            c: 0x13,
            d: 0x00,
            e: 0xD8,
            h: 0x01,
            l: 0x4D,
            sp: 0xFFFE,
            pc: 0x0100,
        }
    }

    /// The documented power-on state, matching real hardware after its
    /// boot ROM hands control to the cartridge.
    pub fn new() -> (r: Cpu)
        ensures
            r == Cpu::new_spec(),
            r == (Cpu {
                ime: false,
                a: 0x01,
                f: 0xB0,
                b: 0x00,
                c: 0x13,
                d: 0x00,
                e: 0xD8,
                h: 0x01,
                l: 0x4D,
                sp: 0xFFFE,
                pc: 0x0100,
            }),
            r.wf(),
    {
        proof {
            assert(0xB0u8 & 0x0F == 0) by (bit_vector);
        }
        Cpu {
            ime: false,
            a: 0x01,
            f: 0xB0,
            b: 0x00,
            c: 0x13,
            d: 0x00,
            e: 0xD8,
            h: 0x01,
            l: 0x4D,
            sp: 0xFFFE,
            pc: 0x0100,
        }
    }

    pub fn get_z(&self) -> (r: bool)
        ensures
            r == self.spec_z(),
    {
        self.get_flag(0)
    }

    pub fn get_n(&self) -> (r: bool)
        ensures
            r == self.spec_n(),
    {
        self.get_flag(1)
    }

    pub fn get_h(&self) -> (r: bool)
        ensures
            r == self.spec_h(),
    {
        self.get_flag(2)
    }

    pub fn get_c(&self) -> (r: bool)
        ensures
            r == self.spec_c(),
    {
        self.get_flag(3)
    }

    /// Flag index 0..=3 counts down from bit 7 (Z, N, H, C).
    pub fn get_flag(&self, flag_i: u8) -> (r: bool)
        requires
            flag_i < 4,
        ensures
            r == bit_set(self.f, (7 - flag_i) as u8),
    {
        let shifts = 7 - flag_i;
        (self.f >> shifts) & 1 == 1
    }

    pub fn set_z(&mut self, set: bool)
        requires
            old(self).wf(),
        ensures
            final(self).wf(),
            final(self).spec_z() == set,
            final(self).spec_n() == old(self).spec_n(),
            final(self).spec_h() == old(self).spec_h(),
            final(self).spec_c() == old(self).spec_c(),
            *final(self) == (Cpu { f: final(self).f, ..*old(self) }),
    {
        self.set_flag(0, set)
    }

    pub fn set_n(&mut self, set: bool)
        requires
            old(self).wf(),
        ensures
            final(self).wf(),
            final(self).spec_n() == set,
            final(self).spec_z() == old(self).spec_z(),
            final(self).spec_h() == old(self).spec_h(),
            final(self).spec_c() == old(self).spec_c(),
            *final(self) == (Cpu { f: final(self).f, ..*old(self) }),
    {
        self.set_flag(1, set)
    }

    pub fn set_h(&mut self, set: bool)
        requires
            old(self).wf(),
        ensures
            final(self).wf(),
            final(self).spec_h() == set,
            final(self).spec_z() == old(self).spec_z(),
            final(self).spec_n() == old(self).spec_n(),
            final(self).spec_c() == old(self).spec_c(),
            *final(self) == (Cpu { f: final(self).f, ..*old(self) }),
    {
        self.set_flag(2, set)
    }

    pub fn set_c(&mut self, set: bool)
        requires
            old(self).wf(),
        ensures
            final(self).wf(),
            final(self).spec_c() == set,
            final(self).spec_z() == old(self).spec_z(),
            final(self).spec_n() == old(self).spec_n(),
            final(self).spec_h() == old(self).spec_h(),
            *final(self) == (Cpu { f: final(self).f, ..*old(self) }),
    {
        self.set_flag(3, set)
    }

    pub fn set_flag(&mut self, flag_i: u8, set: bool)
        requires
            flag_i < 4,
            old(self).wf(),
        ensures
            final(self).wf(),
            bit_set(final(self).f, (7 - flag_i) as u8) == set,
            forall|j: u8|
                j < 8 && j != 7 - flag_i ==> bit_set(final(self).f, j) == bit_set(old(self).f, j),
            *final(self) == (Cpu { f: final(self).f, ..*old(self) }),
    {
        let bit = 7 - flag_i;
        self.f = if set {
            set_bit(self.f, bit)
        } else {
            clear_bit(self.f, bit)
        };
        proof {
            let oldf = old(self).f;
            let newf = self.f;
            assert(newf & 0x0F == 0) by (bit_vector)
                requires
                    oldf & 0x0F == 0,
                    bit_set(newf, 0) == bit_set(oldf, 0),
                    bit_set(newf, 1) == bit_set(oldf, 1),
                    bit_set(newf, 2) == bit_set(oldf, 2),
                    bit_set(newf, 3) == bit_set(oldf, 3),
            ;
        }
    }

    /// Reads the 16-bit register pair selected by the 2-bit index `r`
    /// (BC, DE, HL, SP).
    pub fn read_r16(&self, r: u8) -> (v: u16)
        requires
            r < 4,
        ensures
            v == self.spec_r16(r),
    {
        match r {
            0 => (self.b as u16) * 0x100 + (self.c as u16),
            1 => (self.d as u16) * 0x100 + (self.e as u16),
            2 => (self.h as u16) * 0x100 + (self.l as u16),
            _ => self.sp,
        }
    }

    pub fn read_hl(&self) -> (v: u16)
        ensures
            v == self.spec_hl(),
    {
        self.read_r16(2)
    }

    /// Writes the register pair selected by `r`.
    pub fn write_r16(&mut self, r: u8, val: u16)
        requires
            r < 4,
        ensures
            r == 0 ==> *final(self) == (Cpu {
                b: (val / 0x100) as u8,
                c: (val % 0x100) as u8,
                ..*old(self)
            }),
            r == 1 ==> *final(self) == (Cpu {
                d: (val / 0x100) as u8,
                e: (val % 0x100) as u8,
                ..*old(self)
            }),
            r == 2 ==> *final(self) == (Cpu {
                h: (val / 0x100) as u8,
                l: (val % 0x100) as u8,
                ..*old(self)
            }),
            r == 3 ==> *final(self) == (Cpu { sp: val, ..*old(self) }),
            *final(self) == old(self).with_r16(r, val),
            final(self).spec_r16(r) == val,
            final(self).f == old(self).f,
            final(self).pc == old(self).pc,
            final(self).ime == old(self).ime,
    {
        let hi = (val / 0x100) as u8;
        let lo = (val % 0x100) as u8;
        match r {
            0 => {
                self.b = hi;
                self.c = lo;
            },
            1 => {
                self.d = hi;
                self.e = lo;
            },
            2 => {
                self.h = hi;
                self.l = lo;
            },
            _ => {
                self.sp = val;
            },
        }
    }

    pub fn write_hl(&mut self, val: u16)
        ensures
            *final(self) == (Cpu {
                h: (val / 0x100) as u8,
                l: (val % 0x100) as u8,
                ..*old(self)
            }),
            final(self).spec_hl() == val,
    {
        self.write_r16(2, val)
    }

    /// Reads the pair for an indirect-memory operand; the HL+ and HL-
    /// encodings return HL and then move it.
    pub fn r16_mem(&mut self, r: u8) -> (v: u16)
        requires
            r < 4,
        ensures
            v == old(self).r16_mem_addr(r),
            *final(self) == old(self).r16_mem_cpu(r),
    {
        if r == 2 {
            let hl = self.read_hl();
            self.write_hl(hl.wrapping_add(1));
            hl
        } else if r == 3 {
            let hl = self.read_hl();
            self.write_hl(hl.wrapping_sub(1));
            hl
        } else {
            self.read_r16(r)
        }
    }

    /// Reads the pair for push/pop; index 3 selects AF.
    pub fn read_r16_stk(&self, r: u8) -> (v: u16)
        requires
            r < 4,
        ensures
            r < 3 ==> v == self.spec_r16(r),
            r == 3 ==> v == self.spec_af(),
    {
        if r < 3 {
            self.read_r16(r)
        } else {
            (self.a as u16) * 0x100 + (self.f as u16)
        }
    }

    /// Writes the pair for push/pop; writing AF masks F's low nibble to
    /// zero, so the flag-register invariant holds on every stack path.
    pub fn write_r16_stk(&mut self, r: u8, val: u16)
        requires
            r < 4,
            old(self).wf(),
        ensures
            final(self).wf(),
            r < 3 ==> final(self).f == old(self).f && final(self).spec_r16(r) == val
                && *final(self) == old(self).with_r16(r, val),
            r == 3 ==> *final(self) == (Cpu {
                a: (val / 0x100) as u8,
                f: ((val % 0x100) as u8) & 0xF0,
                ..*old(self)
            }),
            r == 3 ==> final(self).f & 0x0F == 0,
    {
        if r < 3 {
            self.write_r16(r, val);
        } else {
            let hi = (val / 0x100) as u8;
            let lo = (val % 0x100) as u8;
            self.a = hi;
            self.f = lo & 0xF0;
            proof {
                let x = lo & 0xF0;
                assert(x & 0x0F == 0 && x == lo & 0xF0) by (bit_vector)
                    requires
                        x == lo & 0xF0,
                ;
            }
        }
    }

    /// Fetches the byte at PC and advances PC.
    pub fn read_and_increment_pc(&mut self, memory: &Memory) -> (r: u8)
        requires
            memory.wf(),
        ensures
            r == memory@[old(self).pc as int],
            *final(self) == (Cpu { pc: old(self).pc.wrapping_add(1), ..*old(self) }),
    {
        let result = memory.read(self.pc);
        self.pc = self.pc.wrapping_add(1);
        result
    }

    /// Fetches the 8-bit immediate operand.
    pub fn read_n8(&mut self, memory: &Memory) -> (r: u8)
        requires
            memory.wf(),
        ensures
            r == memory@[old(self).pc as int],
            *final(self) == (Cpu { pc: old(self).pc.wrapping_add(1), ..*old(self) }),
    {
        self.read_and_increment_pc(memory)
    }

    /// The little-endian 16-bit immediate at PC.
    pub open spec fn spec_n16(self, m: Seq<u8>) -> u16 {
        (m[self.pc.wrapping_add(1) as int] * 0x100 + m[self.pc as int]) as u16
    }

    /// Fetches the 16-bit immediate operand (little endian).
    pub fn read_n16(&mut self, memory: &Memory) -> (r: u16)
        requires
            memory.wf(),
        ensures
            r == old(self).spec_n16(memory@),
            *final(self) == (Cpu { pc: old(self).pc.wrapping_add(2), ..*old(self) }),
    {
        let lo = self.read_and_increment_pc(memory);
        let hi = self.read_and_increment_pc(memory);
        proof {
            let p = old(self).pc;
            assert(p.wrapping_add(1).wrapping_add(1) == p.wrapping_add(2));
        }
        (hi as u16) * 0x100 + (lo as u16)
    }

    /// The branch condition selected by the 2-bit index `cond`
    /// (NZ, Z, NC, C).
    pub open spec fn spec_cond(self, cond: u8) -> bool {
        if cond == 0 {
            !self.spec_z()
        } else if cond == 1 {
            self.spec_z()
        } else if cond == 2 {
            !self.spec_c()
        } else {
            self.spec_c()
        }
    }

    pub fn read_cond(&self, cond: u8) -> (r: bool)
        requires
            cond < 4,
        ensures
            r == self.spec_cond(cond),
    {
        if cond == 0 {
            !self.get_z()
        } else if cond == 1 {
            self.get_z()
        } else if cond == 2 {
            !self.get_c()
        } else {
            self.get_c()
        }
    }

    /// Decrements SP and stores one byte there.
    pub fn push_8(&mut self, memory: &mut Memory, val: u8) -> (r: Result<(), GbError>)
        requires
            old(memory).wf(),
        ensures
            final(memory).wf(),
            *final(self) == (Cpu { sp: old(self).sp.wrapping_sub(1), ..*old(self) }),
            r is Err <==> is_mirror_addr(old(self).sp.wrapping_sub(1)),
            r is Err ==> *final(memory) == *old(memory) && r == Result::<(), GbError>::Err(
                GbError::MirrorRamWrite { addr: old(self).sp.wrapping_sub(1) },
            ),
            r is Ok ==> final(memory)@ == bus_write_ok(
                old(memory)@,
                old(self).sp.wrapping_sub(1),
                val,
            ),
    {
        self.sp = self.sp.wrapping_sub(1);
        memory.write(self.sp, val)
    }

    /// Pushes a 16-bit value, high byte first.
    pub fn push_16(&mut self, memory: &mut Memory, val: u16) -> (r: Result<(), GbError>)
        requires
            old(memory).wf(),
        ensures
            final(memory).wf(),
            *final(self) == (Cpu { sp: final(self).sp, ..*old(self) }),
            r is Err <==> is_mirror_addr(old(self).sp.wrapping_sub(1)) || is_mirror_addr(
                old(self).sp.wrapping_sub(2),
            ),
            r is Ok ==> *final(self) == (Cpu {
                sp: old(self).sp.wrapping_sub(2),
                ..*old(self)
            }) && final(memory)@ == bus_write_ok(
                bus_write_ok(old(memory)@, old(self).sp.wrapping_sub(1), (val / 0x100) as u8),
                old(self).sp.wrapping_sub(2),
                (val % 0x100) as u8,
            ),
            r is Err ==> r matches Err(GbError::MirrorRamWrite { .. }),
    {
        let hi = (val / 0x100) as u8;
        let lo = (val % 0x100) as u8;
        self.push_8(memory, hi)?;
        self.push_8(memory, lo)?;
        proof {
            assert(old(self).sp.wrapping_sub(1).wrapping_sub(1) == old(self).sp.wrapping_sub(2));
        }
        Ok(())
    }

    /// Loads one byte from SP and increments SP.
    pub fn pop_8(&mut self, memory: &Memory) -> (r: u8)
        requires
            memory.wf(),
        ensures
            r == memory@[old(self).sp as int],
            *final(self) == (Cpu { sp: old(self).sp.wrapping_add(1), ..*old(self) }),
    {
        let res = memory.read(self.sp);
        self.sp = self.sp.wrapping_add(1);
        res
    }

    /// The 16-bit value a pop at SP yields (little endian).
    pub open spec fn spec_stack_top(self, m: Seq<u8>) -> u16 {
        (m[self.sp.wrapping_add(1) as int] * 0x100 + m[self.sp as int]) as u16
    }

    /// Pops a 16-bit value, low byte first.
    pub fn pop_16(&mut self, memory: &Memory) -> (r: u16)
        requires
            memory.wf(),
        ensures
            r == old(self).spec_stack_top(memory@),
            *final(self) == (Cpu { sp: old(self).sp.wrapping_add(2), ..*old(self) }),
    {
        let lo = self.pop_8(memory);
        let hi = self.pop_8(memory);
        proof {
            assert(old(self).sp.wrapping_add(1).wrapping_add(1) == old(self).sp.wrapping_add(2));
        }
        (hi as u16) * 0x100 + (lo as u16)
    }

    /// Decides whether to vector into an interrupt handler.
    ///
    /// With the master-enable flag set and a request pending, the lowest
    /// pending bit wins: the flag is cleared, PC is pushed, the request
    /// bit is cleared, PC jumps to the bit's vector, and 5 M-cycles are
    /// consumed. Otherwise nothing changes, and the caller still learns
    /// whether a request is pending and whether the master flag was set.
    pub fn handle_interrupts(&mut self, memory: &mut Memory) -> (r: Result<
        InterruptResult,
        GbError,
    >)
        requires
            old(memory).wf(),
        ensures
            final(memory).wf(),
            final(self).f == old(self).f,
            interrupts_post(*old(self), old(memory)@, *final(self), final(memory)@, r),
            ({
                let pending = old(memory)@[IF as int] & old(memory)@[IE as int] & 0x1F;
                let lsb = lowest_bit(pending);
                if old(self).ime && pending != 0 {
                    &&& (r is Err <==> is_mirror_addr(old(self).sp.wrapping_sub(1))
                        || is_mirror_addr(old(self).sp.wrapping_sub(2)))
                    &&& r matches Ok(res) ==> {
                        &&& *final(self) == (Cpu {
                            ime: false,
                            sp: old(self).sp.wrapping_sub(2),
                            pc: interrupt_vector(lsb),
                            ..*old(self)
                        })
                        &&& final(memory)@ == bus_write_ok(
                            bus_write_ok(
                                bus_write_ok(
                                    old(memory)@,
                                    old(self).sp.wrapping_sub(1),
                                    (old(self).pc / 0x100) as u8,
                                ),
                                old(self).sp.wrapping_sub(2),
                                (old(self).pc % 0x100) as u8,
                            ),
                            IF,
                            old(memory)@[IF as int] & !lsb,
                        )
                        &&& res == (InterruptResult {
                            interrupt_requested: true,
                            interrupts_enabled: true,
                            cycles: 5,
                        })
                    }
                } else {
                    &&& r matches Ok(res)
                    &&& res == (InterruptResult {
                        interrupt_requested: pending != 0,
                        interrupts_enabled: old(self).ime,
                        cycles: 0,
                    })
                    &&& *final(self) == *old(self)
                    &&& *final(memory) == *old(memory)
                }
            }),
    {
        let if_reg = memory.read(IF);
        let ie_reg = memory.read(IE);
        let interrupts = if_reg & ie_reg & 0x1F;

        if self.ime && interrupts != 0 {
            self.ime = false;
            let pc = self.pc;
            self.push_16(memory, pc)?;
            let lsb = get_lsb(interrupts);
            proof {
                let v = interrupts;
                assert(interrupts & 0x1F == interrupts) by (bit_vector)
                    requires
                        interrupts == if_reg & ie_reg & 0x1F,
                ;
                assert(lowest_bit(v) == 1 || lowest_bit(v) == 2 || lowest_bit(v) == 4
                    || lowest_bit(v) == 8 || lowest_bit(v) == 16) by (bit_vector)
                    requires
                        v != 0,
                        v & 0x1F == v,
                ;
            }
            memory.poke(IF, if_reg & !lsb);
            self.pc = if lsb == 1 {
                0x40
            } else if lsb == 2 {
                0x48
            } else if lsb == 4 {
                0x50
            } else if lsb == 8 {
                0x58
            } else {
                0x60
            };
            Ok(InterruptResult { interrupt_requested: true, interrupts_enabled: true, cycles: 5 })
        } else {
            Ok(
                InterruptResult {
                    interrupts_enabled: self.ime,
                    interrupt_requested: interrupts != 0,
                    cycles: 0,
                },
            )
        }
    }
}

/// What one interrupt-servicing pass does, over the bus view: with the
/// master flag set and a request pending, the lowest pending bit wins
/// (unless the stack push is rejected by the mirror region); otherwise
/// nothing changes and the pass reports what it observed.
pub open spec fn interrupts_post(
    pre_cpu: Cpu,
    pre_m: Seq<u8>,
    post_cpu: Cpu,
    post_m: Seq<u8>,
    r: Result<InterruptResult, GbError>,
) -> bool {
    let pending = pre_m[IF as int] & pre_m[IE as int] & 0x1F;
    let lsb = lowest_bit(pending);
    if pre_cpu.ime && pending != 0 {
        &&& (r is Err <==> is_mirror_addr(pre_cpu.sp.wrapping_sub(1)) || is_mirror_addr(
            pre_cpu.sp.wrapping_sub(2),
        ))
        &&& (r matches Ok(res) ==> {
            &&& post_cpu == (Cpu {
                ime: false,
                sp: pre_cpu.sp.wrapping_sub(2),
                pc: interrupt_vector(lsb),
                ..pre_cpu
            })
            &&& post_m == bus_write_ok(
                bus_write_ok(
                    bus_write_ok(pre_m, pre_cpu.sp.wrapping_sub(1), (pre_cpu.pc / 0x100) as u8),
                    pre_cpu.sp.wrapping_sub(2),
                    (pre_cpu.pc % 0x100) as u8,
                ),
                IF,
                pre_m[IF as int] & !lsb,
            )
            &&& res == (InterruptResult {
                interrupt_requested: true,
                interrupts_enabled: true,
                cycles: 5,
            })
        })
    } else {
        &&& r matches Ok(res) && res == (InterruptResult {
            interrupt_requested: pending != 0,
            interrupts_enabled: pre_cpu.ime,
            cycles: 0,
        })
        &&& post_cpu == pre_cpu
        &&& post_m == pre_m
    }
}

/// Addresses where a write through the bus is stored and read back:
/// everything but ROM, the unusable gap, the work-RAM mirror, and the
/// DMA trigger register.
pub open spec fn writes_stick(addr: u16) -> bool {
    &&& !crate::memory::is_ignored_write_addr(addr)
    &&& !is_mirror_addr(addr)
    &&& addr != crate::memory::DMA_REGISTER
}

/// Round trip: pushing any 16-bit value and popping it back returns the
/// value unchanged and restores the stack pointer, whenever the two
/// stack bytes land in RAM that stores writes. The pushed and popped
/// bus states are exactly those of `push_16`'s and `pop_16`'s contracts.
pub proof fn lemma_push_pop_roundtrip(m: Seq<u8>, sp: u16, val: u16)
    requires
        m.len() == 0x10000,
        writes_stick(sp.wrapping_sub(1)),
        writes_stick(sp.wrapping_sub(2)),
    ensures
        ({
            let pushed = bus_write_ok(
                bus_write_ok(m, sp.wrapping_sub(1), (val / 0x100) as u8),
                sp.wrapping_sub(2),
                (val % 0x100) as u8,
            );
            let sp_after = sp.wrapping_sub(2);
            &&& (pushed[sp_after.wrapping_add(1) as int] * 0x100 + pushed[sp_after as int]) as u16
                == val
            &&& sp_after.wrapping_add(2) == sp
        }),
{
    let a1 = sp.wrapping_sub(1);
    let a2 = sp.wrapping_sub(2);
    assert(a2.wrapping_add(1) == a1 && a2.wrapping_add(2) == sp);
    assert(a1 != a2);
    assert(a1 as int != a2 + 0x2000);
    let hi = (val / 0x100) as u8;
    let lo = (val % 0x100) as u8;
    let m1 = bus_write_ok(m, a1, hi);
    let m2 = bus_write_ok(m1, a2, lo);
    assert(m1[a1 as int] == hi);
    assert(m2[a1 as int] == hi);
    assert(m2[a2 as int] == lo);
    assert(hi * 0x100 + lo == val);
}

/// The carry-in operand: 0 when the operation takes none.
pub open spec fn carry_val(carry: Option<u8>) -> u8 {
    match carry {
        Some(c) => c,
        None => 0u8,
    }
}

impl Cpu {
    pub fn add_and_set_flags_no_carry(&mut self, a: u8, b: u8) -> (r: u8)
        requires
            old(self).wf(),
        ensures
            final(self).wf(),
            r == (a + b) % 256,
            final(self).spec_z() == (r == 0),
            final(self).spec_n() == false,
            final(self).spec_h() == (a % 16 + b % 16 > 15),
            final(self).spec_c() == (a + b > 255),
            *final(self) == (Cpu { f: final(self).f, ..*old(self) }),
    {
        self.add_and_set_flags(a, b, None)
    }

    pub fn add_and_set_flags_with_carry(&mut self, a: u8, b: u8) -> (r: u8)
        requires
            old(self).wf(),
        ensures
            final(self).wf(),
            ({
                let cv: u8 = if old(self).spec_c() {
                    1u8
                } else {
                    0u8
                };
                &&& r == (a + b + cv) % 256
                &&& final(self).spec_z() == (r == 0)
                &&& final(self).spec_n() == false
                &&& final(self).spec_h() == (a % 16 + b % 16 + cv > 15)
                &&& final(self).spec_c() == (a + b + cv > 255)
            }),
            *final(self) == (Cpu { f: final(self).f, ..*old(self) }),
    {
        let c: u8 = if self.get_c() {
            1
        } else {
            0
        };
        self.add_and_set_flags(a, b, Some(c))
    }

    /// The shared add-with-carry routine: result and the documented flag
    /// rules (Zero on zero result, Half-carry out of bit 3, Carry out of
    /// bit 7, the full carry-in folded into both).
    pub fn add_and_set_flags(&mut self, a: u8, b: u8, carry: Option<u8>) -> (r: u8)
        requires
            old(self).wf(),
            carry matches Some(c) ==> c <= 1,
        ensures
            final(self).wf(),
            r == (a + b + carry_val(carry)) % 256,
            final(self).spec_z() == (r == 0),
            final(self).spec_n() == false,
            final(self).spec_h() == (a % 16 + b % 16 + carry_val(carry) > 15),
            final(self).spec_c() == (a + b + carry_val(carry) > 255),
            *final(self) == (Cpu { f: final(self).f, ..*old(self) }),
    {
        let carry_or_0 = match carry {
            Some(c) => c,
            None => 0,
        };
        let result_1 = a.wrapping_add(b);
        let is_carry = result_1 < a;
        let result = result_1.wrapping_add(carry_or_0);
        let is_carry_2 = result < result_1;
        self.set_z(result == 0);
        self.set_n(false);
        self.set_h(is_add_half_carry_8(a, b) || is_add_half_carry_8(result_1, carry_or_0));
        self.set_c(is_carry || is_carry_2);
        proof {
            let cv = carry_or_0;
            assert(((a % 16 + b % 16 > 15) || (a.wrapping_add(b) % 16 + cv > 15)) == (a % 16 + b
                % 16 + cv > 15)) by (bit_vector)
                requires
                    cv <= 1,
            ;
        }
        result
    }

    pub fn sub_and_set_flags_no_carry(&mut self, a: u8, b: u8) -> (r: u8)
        requires
            old(self).wf(),
        ensures
            final(self).wf(),
            r == (a + 256 - b) % 256,
            final(self).spec_z() == (r == 0),
            final(self).spec_n() == true,
            final(self).spec_h() == (a % 16 < b % 16),
            final(self).spec_c() == (a < b),
            *final(self) == (Cpu { f: final(self).f, ..*old(self) }),
    {
        self.sub_and_set_flags(a, b, None)
    }

    pub fn sub_and_set_flags_with_carry(&mut self, a: u8, b: u8) -> (r: u8)
        requires
            old(self).wf(),
        ensures
            final(self).wf(),
            ({
                let cv: u8 = if old(self).spec_c() {
                    1u8
                } else {
                    0u8
                };
                &&& r == (a + 512 - b - cv) % 256
                &&& final(self).spec_z() == (r == 0)
                &&& final(self).spec_n() == true
                &&& final(self).spec_h() == (a % 16 < b % 16 + cv)
                &&& final(self).spec_c() == (a < b + cv)
            }),
            *final(self) == (Cpu { f: final(self).f, ..*old(self) }),
    {
        let c: u8 = if self.get_c() {
            1
        } else {
            0
        };
        self.sub_and_set_flags(a, b, Some(c))
    }

    /// The shared subtract-with-carry routine: result and the documented
    /// flag rules (Subtract set, Half-carry is a borrow from bit 4, Carry
    /// a borrow out of bit 7).
    pub fn sub_and_set_flags(&mut self, a: u8, b: u8, carry: Option<u8>) -> (r: u8)
        requires
            old(self).wf(),
            carry matches Some(c) ==> c <= 1,
        ensures
            final(self).wf(),
            r == (a + 512 - b - carry_val(carry)) % 256,
            final(self).spec_z() == (r == 0),
            final(self).spec_n() == true,
            final(self).spec_h() == (a % 16 < b % 16 + carry_val(carry)),
            final(self).spec_c() == (a < b + carry_val(carry)),
            *final(self) == (Cpu { f: final(self).f, ..*old(self) }),
    {
        let carry_or_0 = match carry {
            Some(c) => c,
            None => 0,
        };
        let result_1 = a.wrapping_sub(b);
        let is_carry = a < b;
        let result = result_1.wrapping_sub(carry_or_0);
        let is_carry_2 = result_1 < carry_or_0;
        self.set_z(result == 0);
        self.set_n(true);
        self.set_h(is_sub_half_carry_8(a, b) || is_sub_half_carry_8(result_1, carry_or_0));
        self.set_c(is_carry || is_carry_2);
        proof {
            let cv = carry_or_0;
            assert(((a % 16 < b % 16) || (a.wrapping_sub(b) % 16 < cv % 16)) == (a % 16 < b % 16
                + cv)) by (bit_vector)
                requires
                    cv <= 1,
            ;
            assert(((a < b) || (a.wrapping_sub(b) < cv)) == (a < b + cv)) by (bit_vector)
                requires
                    cv <= 1,
            ;
            assert(a.wrapping_sub(b).wrapping_sub(cv) == (a + 512 - b - cv) % 256) by (bit_vector)
                requires
                    cv <= 1,
            ;
        }
        result
    }

    /// The 16-bit signed-offset add (ADD SP,e and LD HL,SP+e): flags come
    /// from the unsigned low-byte addition, Zero and Subtract are cleared.
    pub fn add_signed_and_set_flags(&mut self, a: u16, b: i8) -> (r: u16)
        requires
            old(self).wf(),
        ensures
            final(self).wf(),
            r == a.wrapping_add_signed(b as i16),
            final(self).spec_z() == false,
            final(self).spec_n() == false,
            final(self).spec_h() == (a % 16 + (b as u8) % 16 > 15),
            final(self).spec_c() == (a % 256 + (b as u8) > 255),
            *final(self) == (Cpu { f: final(self).f, ..*old(self) }),
    {
        let bu: u8 = b as u8;
        let al: u8 = (a % 256) as u8;
        self.set_z(false);
        self.set_n(false);
        self.set_h(is_add_half_carry_8(al, bu));
        let sum = al.wrapping_add(bu);
        self.set_c(sum < al);
        proof {
            assert(a % 16 == (a % 256) % 16);
        }
        a.wrapping_add_signed(b as i16)
    }
}

/// Carry out of bit 11 for the 16-bit add.
pub fn is_add_half_carry_16(a: u16, b: u16) -> (r: bool)
    ensures
        r == (a % 0x1000 + b % 0x1000 > 0xFFF),
{
    proof {
        assert(a & 0xFFF <= 0xFFF && b & 0xFFF <= 0xFFF) by (bit_vector);
    }
    let s: u16 = (a & 0xFFF) + (b & 0xFFF);
    let r = s & 0x1000 == 0x1000;
    proof {
        assert((s & 0x1000 == 0x1000) == (a % 0x1000 + b % 0x1000 > 0xFFF)) by (bit_vector)
            requires
                s == (a & 0xFFF) + (b & 0xFFF),
        ;
    }
    r
}

/// Carry out of bit 3 for the 8-bit add.
pub fn is_add_half_carry_8(a: u8, b: u8) -> (r: bool)
    ensures
        r == (a % 16 + b % 16 > 15),
{
    proof {
        assert(a & 0xF <= 0xF && b & 0xF <= 0xF) by (bit_vector);
    }
    let s: u8 = (a & 0xF) + (b & 0xF);
    let r = s & 0x10 == 0x10;
    proof {
        assert((s & 0x10 == 0x10) == (a % 16 + b % 16 > 15)) by (bit_vector)
            requires
                s == (a & 0xF) + (b & 0xF),
        ;
    }
    r
}

/// Borrow from bit 4 for the 8-bit subtract.
pub fn is_sub_half_carry_8(a: u8, b: u8) -> (r: bool)
    ensures
        r == (a % 16 < b % 16),
{
    let r = ((a & 0xF).wrapping_sub(b & 0xF)) & 0x10 == 0x10;
    proof {
        assert((((a & 0xF).wrapping_sub(b & 0xF)) & 0x10 == 0x10) == (a % 16 < b % 16))
            by (bit_vector);
    }
    r
}

/// Rotate left; the old bit 7 lands in both bit 0 and the carry.
pub fn rotate_left(value: u8) -> (r: (u8, bool))
    ensures
        r.0 == (value << 1) | (value >> 7),
        r.1 == (value >> 7 == 1),
{
    let result = (value << 1) | (value >> 7);
    let carry = (value >> 7) == 1;
    (result, carry)
}

/// Rotate left through the carry flag: the carry-in becomes bit 0, the
/// old bit 7 the carry-out.
pub fn rotate_left_with_carry(value: u8, carry: bool) -> (r: (u8, bool))
    ensures
        r.0 == (value << 1) | (if carry {
            1u8
        } else {
            0u8
        }),
        r.1 == (value >> 7 == 1),
{
    let result = (value << 1) | (if carry {
        1u8
    } else {
        0u8
    });
    let carry = (value >> 7) == 1;
    (result, carry)
}

/// Rotate right; the old bit 0 lands in both bit 7 and the carry.
pub fn rotate_right(value: u8) -> (r: (u8, bool))
    ensures
        r.0 == (value >> 1) | (value << 7),
        r.1 == (value & 1 == 1),
{
    let result = (value >> 1) | (value << 7);
    let carry = value & 1 == 1;
    (result, carry)
}

/// Rotate right through the carry flag: the carry-in becomes bit 7, the
/// old bit 0 the carry-out.
pub fn rotate_right_with_carry(value: u8, carry: bool) -> (r: (u8, bool))
    ensures
        r.0 == (value >> 1) | (if carry {
            0x80u8
        } else {
            0u8
        }),
        r.1 == (value & 1 == 1),
{
    let result = (value >> 1) | (if carry {
        0x80u8
    } else {
        0u8
    });
    let carry = value & 1 == 1;
    (result, carry)
}

/// Arithmetic shift left; the old bit 7 becomes the carry.
pub fn shift_left(value: u8) -> (r: (u8, bool))
    ensures
        r.0 == value << 1,
        r.1 == (value >> 7 == 1),
{
    let result = value << 1;
    let carry = (value >> 7) == 1;
    (result, carry)
}

/// Arithmetic shift right; bit 7 is kept, the old bit 0 becomes the carry.
pub fn shift_right_arithmetic(value: u8) -> (r: (u8, bool))
    ensures
        r.0 == (value >> 1) | (value & 0x80),
        r.1 == (value & 1 == 1),
{
    let result = (value >> 1) | (value & 0x80);
    let carry = value & 1 == 1;
    (result, carry)
}

/// Logical shift right; the old bit 0 becomes the carry.
pub fn shift_right_logical(value: u8) -> (r: (u8, bool))
    ensures
        r.0 == value >> 1,
        r.1 == (value & 1 == 1),
{
    let result = value >> 1;
    let carry = value & 1 == 1;
    (result, carry)
}

} // verus!
