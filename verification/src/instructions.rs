//! Instruction decode and execution.
//!
//! An opcode byte is grouped by its three bit fields (7-6, 5-3, 2-0) into
//! instruction classes; every class has a fixed encoded operand source.
//! Each handler's contract pins the registers, flags, memory effect, and
//! M-cycle count of its instruction.

use vstd::prelude::*;
use crate::bits::field;
use crate::cpu::{
    is_add_half_carry_16, rotate_left, rotate_left_with_carry, rotate_right,
    rotate_right_with_carry, shift_left, shift_right_arithmetic, shift_right_logical, AccessType,
    Cpu, InstructionResult,
};
use crate::error::GbError;
use crate::memory::{bus_write_ok, is_mirror_addr, Memory};

verus! {

/// The accumulator after DAA in the add direction: 0x60 is added on a
/// decimal carry, 0x06 on a decimal half-carry.
pub open spec fn daa_add_result(a: u8, h: bool, c: bool) -> u8 {
    let a1 = if c || a > 0x99 {
        a.wrapping_add(0x60)
    } else {
        a
    };
    if h || a1 % 16 > 9 {
        a1.wrapping_add(0x06)
    } else {
        a1
    }
}

/// The carry flag after DAA in the add direction: set exactly on a
/// decimal carry.
pub open spec fn daa_add_carry(a: u8, c: bool) -> bool {
    c || a > 0x99
}

/// The accumulator after DAA in the subtract direction.
pub open spec fn daa_sub_result(a: u8, h: bool, c: bool) -> u8 {
    let a1 = if c {
        a.wrapping_sub(0x60)
    } else {
        a
    };
    if h {
        a1.wrapping_sub(0x06)
    } else {
        a1
    }
}

/// A byte whose two nibbles are decimal digits.
pub open spec fn is_bcd(v: u8) -> bool {
    v % 16 <= 9 && v / 16 <= 9
}

/// The decimal value a BCD byte encodes.
pub open spec fn bcd_val(v: u8) -> int {
    (v / 16) * 10 + v % 16
}

/// Adding two valid BCD bytes with the shared add routine and then
/// executing DAA normalizes A back into valid BCD: the encoding of the
/// decimal sum modulo 100, with Carry reporting the decimal carry out,
/// exactly as the contracts of `add_and_set_flags` and `daa` combine.
pub proof fn lemma_daa_normalizes_bcd_add(x: u8, y: u8)
    requires
        is_bcd(x),
        is_bcd(y),
    ensures
        ({
            let a = x.wrapping_add(y);
            let h = x % 16 + y % 16 > 15;
            let c = x + y > 255;
            &&& is_bcd(daa_add_result(a, h, c))
            &&& bcd_val(daa_add_result(a, h, c)) == (bcd_val(x) + bcd_val(y)) % 100
            &&& daa_add_carry(a, c) == (bcd_val(x) + bcd_val(y) >= 100)
        }),
{
    assert({
        let a = x.wrapping_add(y);
        let h = x % 16 + y % 16 > 15;
        let c = x + y > 255;
        &&& is_bcd(daa_add_result(a, h, c))
        &&& bcd_val(daa_add_result(a, h, c)) == (bcd_val(x) + bcd_val(y)) % 100
        &&& daa_add_carry(a, c) == (bcd_val(x) + bcd_val(y) >= 100)
    }) by (bit_vector)
        requires
            x % 16 <= 9 && x / 16 <= 9 && y % 16 <= 9 && y / 16 <= 9,
    ;
}

/// Opcodes with no instruction assigned; fetching one is fatal.
pub open spec fn illegal_opcode(op: u8) -> bool {
    ||| op == 0xD3
    ||| op == 0xDB
    ||| op == 0xDD
    ||| op == 0xE3
    ||| op == 0xE4
    ||| op == 0xEB
    ||| op == 0xEC
    ||| op == 0xED
    ||| op == 0xF4
    ||| op == 0xFC
    ||| op == 0xFD
}

/// The value of the 8-bit operand slot `r`: registers B,C,D,E,H,L, the
/// byte at HL for index 6, and A for index 7.
pub open spec fn spec_r8_get(cpu: Cpu, m: Seq<u8>, r: u8) -> u8 {
    if r == 0 {
        cpu.b
    } else if r == 1 {
        cpu.c
    } else if r == 2 {
        cpu.d
    } else if r == 3 {
        cpu.e
    } else if r == 4 {
        cpu.h
    } else if r == 5 {
        cpu.l
    } else if r == 6 {
        m[cpu.spec_hl() as int]
    } else {
        cpu.a
    }
}

/// Relates the machine before and after storing `v` into the 8-bit
/// operand slot `r`: a register update for r != 6, a bus write at HL for
/// r == 6.
pub open spec fn r8_written(pre: Cpu, pre_m: Seq<u8>, post: Cpu, post_m: Seq<u8>, r: u8, v: u8) -> bool {
    if r == 6 {
        post == pre && post_m == bus_write_ok(pre_m, pre.spec_hl(), v)
    } else {
        post_m == pre_m && post == if r == 0 {
            Cpu { b: v, ..pre }
        } else if r == 1 {
            Cpu { c: v, ..pre }
        } else if r == 2 {
            Cpu { d: v, ..pre }
        } else if r == 3 {
            Cpu { e: v, ..pre }
        } else if r == 4 {
            Cpu { h: v, ..pre }
        } else if r == 5 {
            Cpu { l: v, ..pre }
        } else {
            Cpu { a: v, ..pre }
        }
    }
}

impl Cpu {
    /// Reads the 8-bit operand slot `r`, reporting whether the access
    /// went through memory.
    pub fn read_r8(&self, memory: &Memory, r: u8) -> (res: (u8, AccessType))
        requires
            memory.wf(),
            r < 8,
        ensures
            res.0 == spec_r8_get(*self, memory@, r),
            res.1 == if r == 6 {
                AccessType::Indirect
            } else {
                AccessType::Direct
            },
    {
        if r == 0 {
            (self.b, AccessType::Direct)
        } else if r == 1 {
            (self.c, AccessType::Direct)
        } else if r == 2 {
            (self.d, AccessType::Direct)
        } else if r == 3 {
            (self.e, AccessType::Direct)
        } else if r == 4 {
            (self.h, AccessType::Direct)
        } else if r == 5 {
            (self.l, AccessType::Direct)
        } else if r == 6 {
            (memory.read(self.read_hl()), AccessType::Indirect)
        } else {
            (self.a, AccessType::Direct)
        }
    }

    /// Writes the 8-bit operand slot `r`; the store through HL is the one
    /// access that can be rejected (mirror RAM).
    pub fn write_r8(&mut self, memory: &mut Memory, r: u8, val: u8) -> (res: Result<
        AccessType,
        GbError,
    >)
        requires
            old(memory).wf(),
            r < 8,
        ensures
            final(memory).wf(),
            res is Err <==> (r == 6 && is_mirror_addr(old(self).spec_hl())),
            res is Err ==> *final(self) == *old(self) && *final(memory) == *old(memory)
                && res matches Err(GbError::MirrorRamWrite { .. }),
            res matches Ok(at) ==> at == (if r == 6 {
                AccessType::Indirect
            } else {
                AccessType::Direct
            }) && r8_written(*old(self), old(memory)@, *final(self), final(memory)@, r, val),
    {
        if r == 0 {
            self.b = val;
            Ok(AccessType::Direct)
        } else if r == 1 {
            self.c = val;
            Ok(AccessType::Direct)
        } else if r == 2 {
            self.d = val;
            Ok(AccessType::Direct)
        } else if r == 3 {
            self.e = val;
            Ok(AccessType::Direct)
        } else if r == 4 {
            self.h = val;
            Ok(AccessType::Direct)
        } else if r == 5 {
            self.l = val;
            Ok(AccessType::Direct)
        } else if r == 6 {
            memory.write(self.read_hl(), val)?;
            Ok(AccessType::Indirect)
        } else {
            self.a = val;
            Ok(AccessType::Direct)
        }
    }

    /// NOP: one idle M-cycle.
    pub fn nop(&self) -> (cycles: u8)
        ensures
            cycles == 1,
    {
        1
    }

    /// LD r16,n16.
    pub fn ld_r16_n16(&mut self, memory: &Memory, instruction: u8) -> (cycles: u8)
        requires
            memory.wf(),
        ensures
            cycles == 3,
            *final(self) == (Cpu {
                pc: old(self).pc.wrapping_add(2),
                ..*old(self)
            }).with_r16(field(instruction, 5, 4), old(self).spec_n16(memory@)),
    {
        let operand = self.read_n16(memory);
        let reg = crate::bits::get_bits(instruction, 5, 4);
        self.write_r16(reg, operand);
        3
    }

    /// LD (r16),A: stores A through the indirect pair.
    pub fn ld_ind_r16_a(&mut self, memory: &mut Memory, instruction: u8) -> (r: Result<
        u8,
        GbError,
    >)
        requires
            old(self).wf(),
            old(memory).wf(),
        ensures
            final(self).wf(),
            final(memory).wf(),
            ({
                let reg = field(instruction, 5, 4);
                let addr = old(self).r16_mem_addr(reg);
                &&& (r is Err <==> is_mirror_addr(addr))
                &&& (r is Err ==> r matches Err(GbError::MirrorRamWrite { .. }))
                &&& r matches Ok(c) ==> c == 2 && *final(self) == old(self).r16_mem_cpu(reg)
                    && final(memory)@ == bus_write_ok(old(memory)@, addr, old(self).a)
            }),
    {
        let reg = crate::bits::get_bits(instruction, 5, 4);
        let address = self.r16_mem(reg);
        memory.write(address, self.a)?;
        Ok(2)
    }

    /// LD A,(r16): loads A through the indirect pair.
    pub fn ld_a_ind_r16(&mut self, memory: &Memory, instruction: u8) -> (cycles: u8)
        requires
            memory.wf(),
        ensures
            cycles == 2,
            ({
                let reg = field(instruction, 5, 4);
                *final(self) == (Cpu {
                    a: memory@[old(self).r16_mem_addr(reg) as int],
                    ..old(self).r16_mem_cpu(reg)
                })
            }),
    {
        let reg = crate::bits::get_bits(instruction, 5, 4);
        let address = self.r16_mem(reg);
        self.a = memory.read(address);
        2
    }

    /// LD (n16),SP: stores SP little-endian at the immediate address.
    pub fn ld_ind_n16_sp(&mut self, memory: &mut Memory) -> (r: Result<u8, GbError>)
        requires
            old(self).wf(),
            old(memory).wf(),
        ensures
            final(self).wf(),
            final(memory).wf(),
            ({
                let addr = old(self).spec_n16(old(memory)@);
                &&& (r is Err <==> is_mirror_addr(addr) || is_mirror_addr(addr.wrapping_add(1)))
                &&& (r is Err ==> r matches Err(GbError::MirrorRamWrite { .. }))
                &&& r matches Ok(c) ==> c == 5 && *final(self) == (Cpu {
                    pc: old(self).pc.wrapping_add(2),
                    ..*old(self)
                }) && final(memory)@ == bus_write_ok(
                    bus_write_ok(old(memory)@, addr, (old(self).sp % 0x100) as u8),
                    addr.wrapping_add(1),
                    (old(self).sp / 0x100) as u8,
                )
            }),
    {
        let address = self.read_n16(memory);
        memory.write_16(address, self.sp)?;
        Ok(5)
    }

    /// INC r16: no flags are touched.
    pub fn inc_r16(&mut self, instruction: u8) -> (cycles: u8)
        ensures
            cycles == 2,
            ({
                let reg = field(instruction, 5, 4);
                *final(self) == old(self).with_r16(reg, old(self).spec_r16(reg).wrapping_add(1))
            }),
    {
        let reg = crate::bits::get_bits(instruction, 5, 4);
        let v = self.read_r16(reg);
        self.write_r16(reg, v.wrapping_add(1));
        2
    }

    /// DEC r16: no flags are touched.
    pub fn dec_r16(&mut self, instruction: u8) -> (cycles: u8)
        ensures
            cycles == 2,
            ({
                let reg = field(instruction, 5, 4);
                *final(self) == old(self).with_r16(reg, old(self).spec_r16(reg).wrapping_sub(1))
            }),
    {
        let reg = crate::bits::get_bits(instruction, 5, 4);
        let v = self.read_r16(reg);
        self.write_r16(reg, v.wrapping_sub(1));
        2
    }

    /// ADD HL,r16: Zero is kept, Half-carry is the carry out of bit 11,
    /// Carry the carry out of bit 15.
    pub fn add_hl_r16(&mut self, instruction: u8) -> (cycles: u8)
        requires
            old(self).wf(),
        ensures
            final(self).wf(),
            cycles == 2,
            ({
                let op = old(self).spec_r16(field(instruction, 5, 4));
                let hl = old(self).spec_hl();
                &&& *final(self) == (Cpu { f: final(self).f, ..*old(self) }).with_r16(
                    2,
                    hl.wrapping_add(op),
                )
                &&& final(self).spec_z() == old(self).spec_z()
                &&& final(self).spec_n() == false
                &&& final(self).spec_h() == (hl % 0x1000 + op % 0x1000 > 0xFFF)
                &&& final(self).spec_c() == (hl + op > 0xFFFF)
            }),
    {
        let hl = self.read_hl();
        let reg = crate::bits::get_bits(instruction, 5, 4);
        let operand = self.read_r16(reg);
        let sum = hl.wrapping_add(operand);
        let overflow = sum < hl;
        self.set_n(false);
        let half = is_add_half_carry_16(hl, operand);
        self.set_h(half);
        self.set_c(overflow);
        self.write_hl(sum);
        2
    }

    /// INC r8: Carry is kept.
    pub fn inc_r8(&mut self, memory: &mut Memory, instruction: u8) -> (r: Result<u8, GbError>)
        requires
            old(self).wf(),
            old(memory).wf(),
        ensures
            final(self).wf(),
            final(memory).wf(),
            ({
                let reg = field(instruction, 5, 3);
                let op = spec_r8_get(*old(self), old(memory)@, reg);
                let res = op.wrapping_add(1);
                &&& (r is Err <==> (reg == 6 && is_mirror_addr(old(self).spec_hl())))
                &&& (r is Err ==> r matches Err(GbError::MirrorRamWrite { .. }))
                &&& r matches Ok(c) ==> {
                    &&& c == if reg == 6 {
                        3u8
                    } else {
                        1u8
                    }
                    &&& final(self).spec_z() == (res == 0)
                    &&& final(self).spec_n() == false
                    &&& final(self).spec_h() == (op % 16 == 15)
                    &&& final(self).spec_c() == old(self).spec_c()
                    &&& r8_written(
                        (Cpu { f: final(self).f, ..*old(self) }),
                        old(memory)@,
                        *final(self),
                        final(memory)@,
                        reg,
                        res,
                    )
                }
            }),
    {
        let reg = crate::bits::get_bits(instruction, 5, 3);
        let (operand, access_type) = self.read_r8(memory, reg);
        let result = operand.wrapping_add(1);
        self.set_z(result == 0);
        self.set_n(false);
        let half = crate::cpu::is_add_half_carry_8(operand, 1);
        self.set_h(half);
        self.write_r8(memory, reg, result)?;
        Ok(
            match access_type {
                AccessType::Direct => 1,
                AccessType::Indirect => 3,
            },
        )
    }

    /// DEC r8: Carry is kept.
    pub fn dec_r8(&mut self, memory: &mut Memory, instruction: u8) -> (r: Result<u8, GbError>)
        requires
            old(self).wf(),
            old(memory).wf(),
        ensures
            final(self).wf(),
            final(memory).wf(),
            ({
                let reg = field(instruction, 5, 3);
                let op = spec_r8_get(*old(self), old(memory)@, reg);
                let res = op.wrapping_sub(1);
                &&& (r is Err <==> (reg == 6 && is_mirror_addr(old(self).spec_hl())))
                &&& (r is Err ==> r matches Err(GbError::MirrorRamWrite { .. }))
                &&& r matches Ok(c) ==> {
                    &&& c == if reg == 6 {
                        3u8
                    } else {
                        1u8
                    }
                    &&& final(self).spec_z() == (res == 0)
                    &&& final(self).spec_n() == true
                    &&& final(self).spec_h() == (op % 16 == 0)
                    &&& final(self).spec_c() == old(self).spec_c()
                    &&& r8_written(
                        (Cpu { f: final(self).f, ..*old(self) }),
                        old(memory)@,
                        *final(self),
                        final(memory)@,
                        reg,
                        res,
                    )
                }
            }),
    {
        let reg = crate::bits::get_bits(instruction, 5, 3);
        let (operand, access_type) = self.read_r8(memory, reg);
        let result = operand.wrapping_sub(1);
        self.set_z(result == 0);
        self.set_n(true);
        let half = crate::cpu::is_sub_half_carry_8(operand, 1);
        self.set_h(half);
        self.write_r8(memory, reg, result)?;
        Ok(
            match access_type {
                AccessType::Direct => 1,
                AccessType::Indirect => 3,
            },
        )
    }

    /// LD r8,n8.
    pub fn ld_r8_n8(&mut self, memory: &mut Memory, instruction: u8) -> (r: Result<u8, GbError>)
        requires
            old(self).wf(),
            old(memory).wf(),
        ensures
            final(self).wf(),
            final(memory).wf(),
            ({
                let reg = field(instruction, 5, 3);
                let op = old(memory)@[old(self).pc as int];
                let fetched = (Cpu { pc: old(self).pc.wrapping_add(1), ..*old(self) });
                &&& (r is Err <==> (reg == 6 && is_mirror_addr(old(self).spec_hl())))
                &&& (r is Err ==> r matches Err(GbError::MirrorRamWrite { .. }))
                &&& r matches Ok(c) ==> c == (if reg == 6 {
                    3u8
                } else {
                    2u8
                }) && r8_written(fetched, old(memory)@, *final(self), final(memory)@, reg, op)
            }),
    {
        let reg = crate::bits::get_bits(instruction, 5, 3);
        let operand = self.read_n8(memory);
        match self.write_r8(memory, reg, operand)? {
            AccessType::Direct => Ok(2),
            AccessType::Indirect => Ok(3),
        }
    }

    /// RLCA: rotate A left; Zero is cleared.
    pub fn rlca(&mut self) -> (cycles: u8)
        requires
            old(self).wf(),
        ensures
            final(self).wf(),
            cycles == 1,
            *final(self) == (Cpu {
                a: (old(self).a << 1) | (old(self).a >> 7),
                f: final(self).f,
                ..*old(self)
            }),
            final(self).spec_z() == false,
            final(self).spec_n() == false,
            final(self).spec_h() == false,
            final(self).spec_c() == (old(self).a >> 7 == 1),
    {
        let (result, carry) = rotate_left(self.a);
        self.set_z(false);
        self.set_n(false);
        self.set_h(false);
        self.set_c(carry);
        self.a = result;
        1
    }

    /// RRCA: rotate A right; Zero is cleared.
    pub fn rrca(&mut self) -> (cycles: u8)
        requires
            old(self).wf(),
        ensures
            final(self).wf(),
            cycles == 1,
            *final(self) == (Cpu {
                a: (old(self).a >> 1) | (old(self).a << 7),
                f: final(self).f,
                ..*old(self)
            }),
            final(self).spec_z() == false,
            final(self).spec_n() == false,
            final(self).spec_h() == false,
            final(self).spec_c() == (old(self).a & 1 == 1),
    {
        let (result, carry) = rotate_right(self.a);
        self.set_z(false);
        self.set_n(false);
        self.set_h(false);
        self.set_c(carry);
        self.a = result;
        1
    }

    /// RLA: rotate A left through the carry flag; Zero is cleared.
    pub fn rla(&mut self) -> (cycles: u8)
        requires
            old(self).wf(),
        ensures
            final(self).wf(),
            cycles == 1,
            *final(self) == (Cpu {
                a: (old(self).a << 1) | (if old(self).spec_c() {
                    1u8
                } else {
                    0u8
                }),
                f: final(self).f,
                ..*old(self)
            }),
            final(self).spec_z() == false,
            final(self).spec_n() == false,
            final(self).spec_h() == false,
            final(self).spec_c() == (old(self).a >> 7 == 1),
    {
        let c = self.get_c();
        let (result, carry) = rotate_left_with_carry(self.a, c);
        self.set_z(false);
        self.set_n(false);
        self.set_h(false);
        self.set_c(carry);
        self.a = result;
        1
    }

    /// RRA: rotate A right through the carry flag; Zero is cleared.
    pub fn rra(&mut self) -> (cycles: u8)
        requires
            old(self).wf(),
        ensures
            final(self).wf(),
            cycles == 1,
            *final(self) == (Cpu {
                a: (old(self).a >> 1) | (if old(self).spec_c() {
                    0x80u8
                } else {
                    0u8
                }),
                f: final(self).f,
                ..*old(self)
            }),
            final(self).spec_z() == false,
            final(self).spec_n() == false,
            final(self).spec_h() == false,
            final(self).spec_c() == (old(self).a & 1 == 1),
    {
        let c = self.get_c();
        let (result, carry) = rotate_right_with_carry(self.a, c);
        self.set_z(false);
        self.set_n(false);
        self.set_h(false);
        self.set_c(carry);
        self.a = result;
        1
    }

    /// DAA: decimal-adjusts A after a BCD add or subtract, by the
    /// documented rules; Half-carry is always cleared.
    pub fn daa(&mut self) -> (cycles: u8)
        requires
            old(self).wf(),
        ensures
            final(self).wf(),
            cycles == 1,
            *final(self) == (Cpu { a: final(self).a, f: final(self).f, ..*old(self) }),
            final(self).spec_n() == old(self).spec_n(),
            final(self).spec_h() == false,
            final(self).spec_z() == (final(self).a == 0),
            !old(self).spec_n() ==> final(self).a == daa_add_result(
                old(self).a,
                old(self).spec_h(),
                old(self).spec_c(),
            ) && final(self).spec_c() == daa_add_carry(old(self).a, old(self).spec_c()),
            old(self).spec_n() ==> final(self).a == daa_sub_result(
                old(self).a,
                old(self).spec_h(),
                old(self).spec_c(),
            ) && final(self).spec_c() == old(self).spec_c(),
    {
        if !self.get_n() {
            if self.get_c() || self.a > 0x99 {
                self.a = self.a.wrapping_add(0x60);
                self.set_c(true);
            }
            let low = self.a & 0x0F;
            proof {
                let x = self.a;
                assert(x & 0x0F == x % 16) by (bit_vector);
            }
            if self.get_h() || low > 0x09 {
                self.a = self.a.wrapping_add(0x06);
            }
        } else {
            if self.get_c() {
                self.a = self.a.wrapping_sub(0x60);
            }
            if self.get_h() {
                self.a = self.a.wrapping_sub(0x06);
            }
        }
        let z = self.a == 0;
        self.set_z(z);
        self.set_h(false);
        1
    }

    /// CPL: complements A; Subtract and Half-carry are set.
    pub fn cpl(&mut self) -> (cycles: u8)
        requires
            old(self).wf(),
        ensures
            final(self).wf(),
            cycles == 1,
            *final(self) == (Cpu { a: !old(self).a, f: final(self).f, ..*old(self) }),
            final(self).spec_z() == old(self).spec_z(),
            final(self).spec_n() == true,
            final(self).spec_h() == true,
            final(self).spec_c() == old(self).spec_c(),
    {
        self.a = !self.a;
        self.set_n(true);
        self.set_h(true);
        1
    }

    /// SCF: sets the carry flag.
    pub fn scf(&mut self) -> (cycles: u8)
        requires
            old(self).wf(),
        ensures
            final(self).wf(),
            cycles == 1,
            *final(self) == (Cpu { f: final(self).f, ..*old(self) }),
            final(self).spec_z() == old(self).spec_z(),
            final(self).spec_n() == false,
            final(self).spec_h() == false,
            final(self).spec_c() == true,
    {
        self.set_n(false);
        self.set_h(false);
        self.set_c(true);
        1
    }

    /// CCF: complements the carry flag.
    pub fn ccf(&mut self) -> (cycles: u8)
        requires
            old(self).wf(),
        ensures
            final(self).wf(),
            cycles == 1,
            *final(self) == (Cpu { f: final(self).f, ..*old(self) }),
            final(self).spec_z() == old(self).spec_z(),
            final(self).spec_n() == false,
            final(self).spec_h() == false,
            final(self).spec_c() == !old(self).spec_c(),
    {
        self.set_n(false);
        self.set_h(false);
        let c = self.get_c();
        self.set_c(!c);
        1
    }

    /// JR n8: relative jump by the signed immediate.
    pub fn jr_n8(&mut self, memory: &Memory) -> (cycles: u8)
        requires
            memory.wf(),
        ensures
            cycles == 3,
            *final(self) == (Cpu {
                pc: old(self).pc.wrapping_add(1).wrapping_add_signed(
                    (memory@[old(self).pc as int] as i8) as i16,
                ),
                ..*old(self)
            }),
    {
        let n = self.read_n8(memory);
        let offset = (n as i8) as i16;
        self.pc = self.pc.wrapping_add_signed(offset);
        3
    }

    /// JR cond,n8: the jump costs one extra M-cycle when taken.
    pub fn jr_cond_n8(&mut self, memory: &Memory, instruction: u8) -> (cycles: u8)
        requires
            memory.wf(),
    ensures
            ({
                let cond = field(instruction, 4, 3);
                let taken = old(self).spec_cond(cond);
                &&& cycles == if taken {
                    3u8
                } else {
                    2u8
                }
                &&& *final(self) == (Cpu {
                    pc: if taken {
                        old(self).pc.wrapping_add(1).wrapping_add_signed(
                            (memory@[old(self).pc as int] as i8) as i16,
                        )
                    } else {
                        old(self).pc.wrapping_add(1)
                    },
                    ..*old(self)
                })
            }),
    {
        let cond = crate::bits::get_bits(instruction, 4, 3);
        let n = self.read_n8(memory);
        let offset = (n as i8) as i16;
        if self.read_cond(cond) {
            self.pc = self.pc.wrapping_add_signed(offset);
            3
        } else {
            2
        }
    }

    /// STOP is not supported; fetching it aborts the run.
    pub fn stop(&mut self) -> (r: Result<u8, GbError>)
        ensures
            r == Result::<u8, GbError>::Err(GbError::Unimplemented),
            *final(self) == *old(self),
    {
        Err(GbError::Unimplemented)
    }

    /// HALT: the instruction itself only consumes its cycle; the halt
    /// state machine is folded by the orchestrator.
    pub fn halt(&mut self) -> (cycles: u8)
        ensures
            cycles == 1,
            *final(self) == *old(self),
    {
        1
    }

    /// LD r8,r8: copies between operand slots; flags are kept.
    pub fn ld_r8_r8(&mut self, memory: &mut Memory, instruction: u8) -> (r: Result<u8, GbError>)
        requires
            old(self).wf(),
            old(memory).wf(),
        ensures
            final(self).wf(),
            final(memory).wf(),
            ({
                let source = field(instruction, 2, 0);
                let dest = field(instruction, 5, 3);
                let v = spec_r8_get(*old(self), old(memory)@, source);
                &&& (r is Err <==> (dest == 6 && is_mirror_addr(old(self).spec_hl())))
                &&& (r is Err ==> r matches Err(GbError::MirrorRamWrite { .. }))
                &&& r matches Ok(c) ==> c == (if source == 6 || dest == 6 {
                    2u8
                } else {
                    1u8
                }) && r8_written(*old(self), old(memory)@, *final(self), final(memory)@, dest, v)
            }),
    {
        let source = crate::bits::get_bits(instruction, 2, 0);
        let dest = crate::bits::get_bits(instruction, 5, 3);
        let (value, access_type) = self.read_r8(memory, source);
        match self.write_r8(memory, dest, value)?.join(access_type) {
            AccessType::Direct => Ok(1),
            AccessType::Indirect => Ok(2),
        }
    }

    /// ADD A,r8.
    pub fn add_a_r8(&mut self, memory: &Memory, instruction: u8) -> (cycles: u8)
        requires
            old(self).wf(),
            memory.wf(),
        ensures
            final(self).wf(),
            ({
                let reg = field(instruction, 2, 0);
                let op = spec_r8_get(*old(self), memory@, reg);
                &&& cycles == if reg == 6 {
                    2u8
                } else {
                    1u8
                }
                &&& final(self).a == (old(self).a + op) % 256
                &&& final(self).spec_z() == (final(self).a == 0)
                &&& final(self).spec_n() == false
                &&& final(self).spec_h() == (old(self).a % 16 + op % 16 > 15)
                &&& final(self).spec_c() == (old(self).a + op > 255)
                &&& *final(self) == (Cpu { a: final(self).a, f: final(self).f, ..*old(self) })
            }),
    {
        let reg = crate::bits::get_bits(instruction, 2, 0);
        let (operand, access_type) = self.read_r8(memory, reg);
        let a = self.a;
        self.a = self.add_and_set_flags_no_carry(a, operand);
        match access_type {
            AccessType::Direct => 1,
            AccessType::Indirect => 2,
        }
    }

    /// ADC A,r8: folds the carry flag into the add.
    pub fn adc_a_r8(&mut self, memory: &Memory, instruction: u8) -> (cycles: u8)
        requires
            old(self).wf(),
            memory.wf(),
        ensures
            final(self).wf(),
            ({
                let reg = field(instruction, 2, 0);
                let op = spec_r8_get(*old(self), memory@, reg);
                let cv: u8 = if old(self).spec_c() {
                    1u8
                } else {
                    0u8
                };
                &&& cycles == if reg == 6 {
                    2u8
                } else {
                    1u8
                }
                &&& final(self).a == (old(self).a + op + cv) % 256
                &&& final(self).spec_z() == (final(self).a == 0)
                &&& final(self).spec_n() == false
                &&& final(self).spec_h() == (old(self).a % 16 + op % 16 + cv > 15)
                &&& final(self).spec_c() == (old(self).a + op + cv > 255)
                &&& *final(self) == (Cpu { a: final(self).a, f: final(self).f, ..*old(self) })
            }),
    {
        let reg = crate::bits::get_bits(instruction, 2, 0);
        let (operand, access_type) = self.read_r8(memory, reg);
        let a = self.a;
        self.a = self.add_and_set_flags_with_carry(a, operand);
        match access_type {
            AccessType::Direct => 1,
            AccessType::Indirect => 2,
        }
    }

    /// SUB A,r8.
    pub fn sub_a_r8(&mut self, memory: &Memory, instruction: u8) -> (cycles: u8)
        requires
            old(self).wf(),
            memory.wf(),
        ensures
            final(self).wf(),
            ({
                let reg = field(instruction, 2, 0);
                let op = spec_r8_get(*old(self), memory@, reg);
                &&& cycles == if reg == 6 {
                    2u8
                } else {
                    1u8
                }
                &&& final(self).a == (old(self).a + 256 - op) % 256
                &&& final(self).spec_z() == (final(self).a == 0)
                &&& final(self).spec_n() == true
                &&& final(self).spec_h() == (old(self).a % 16 < op % 16)
                &&& final(self).spec_c() == (old(self).a < op)
                &&& *final(self) == (Cpu { a: final(self).a, f: final(self).f, ..*old(self) })
            }),
    {
        let reg = crate::bits::get_bits(instruction, 2, 0);
        let (operand, access_type) = self.read_r8(memory, reg);
        let a = self.a;
        self.a = self.sub_and_set_flags_no_carry(a, operand);
        match access_type {
            AccessType::Direct => 1,
            AccessType::Indirect => 2,
        }
    }

    /// SBC A,r8: folds the carry flag into the subtract.
    pub fn sbc_a_r8(&mut self, memory: &Memory, instruction: u8) -> (cycles: u8)
        requires
            old(self).wf(),
            memory.wf(),
        ensures
            final(self).wf(),
            ({
                let reg = field(instruction, 2, 0);
                let op = spec_r8_get(*old(self), memory@, reg);
                let cv: u8 = if old(self).spec_c() {
                    1u8
                } else {
                    0u8
                };
                &&& cycles == if reg == 6 {
                    2u8
                } else {
                    1u8
                }
                &&& final(self).a == (old(self).a + 512 - op - cv) % 256
                &&& final(self).spec_z() == (final(self).a == 0)
                &&& final(self).spec_n() == true
                &&& final(self).spec_h() == (old(self).a % 16 < op % 16 + cv)
                &&& final(self).spec_c() == (old(self).a < op + cv)
                &&& *final(self) == (Cpu { a: final(self).a, f: final(self).f, ..*old(self) })
            }),
    {
        let reg = crate::bits::get_bits(instruction, 2, 0);
        let (operand, access_type) = self.read_r8(memory, reg);
        let a = self.a;
        self.a = self.sub_and_set_flags_with_carry(a, operand);
        match access_type {
            AccessType::Direct => 1,
            AccessType::Indirect => 2,
        }
    }

    /// AND A,r8: Half-carry is set, Carry cleared.
    pub fn and_a_r8(&mut self, memory: &Memory, instruction: u8) -> (cycles: u8)
        requires
            old(self).wf(),
            memory.wf(),
        ensures
            final(self).wf(),
            ({
                let reg = field(instruction, 2, 0);
                let op = spec_r8_get(*old(self), memory@, reg);
                &&& cycles == if reg == 6 {
                    2u8
                } else {
                    1u8
                }
                &&& final(self).a == (old(self).a & op)
                &&& final(self).spec_z() == (final(self).a == 0)
                &&& final(self).spec_n() == false
                &&& final(self).spec_h() == true
                &&& final(self).spec_c() == false
                &&& *final(self) == (Cpu { a: final(self).a, f: final(self).f, ..*old(self) })
            }),
    {
        let reg = crate::bits::get_bits(instruction, 2, 0);
        let (operand, access_type) = self.read_r8(memory, reg);
        self.a = self.a & operand;
        let z = self.a == 0;
        self.set_z(z);
        self.set_n(false);
        self.set_h(true);
        self.set_c(false);
        match access_type {
            AccessType::Direct => 1,
            AccessType::Indirect => 2,
        }
    }

    /// XOR A,r8: all other flags cleared.
    pub fn xor_a_r8(&mut self, memory: &Memory, instruction: u8) -> (cycles: u8)
        requires
            old(self).wf(),
            memory.wf(),
        ensures
            final(self).wf(),
            ({
                let reg = field(instruction, 2, 0);
                let op = spec_r8_get(*old(self), memory@, reg);
                &&& cycles == if reg == 6 {
                    2u8
                } else {
                    1u8
                }
                &&& final(self).a == (old(self).a ^ op)
                &&& final(self).spec_z() == (final(self).a == 0)
                &&& final(self).spec_n() == false
                &&& final(self).spec_h() == false
                &&& final(self).spec_c() == false
                &&& *final(self) == (Cpu { a: final(self).a, f: final(self).f, ..*old(self) })
            }),
    {
        let reg = crate::bits::get_bits(instruction, 2, 0);
        let (operand, access_type) = self.read_r8(memory, reg);
        self.a = self.a ^ operand;
        let z = self.a == 0;
        self.set_z(z);
        self.set_n(false);
        self.set_h(false);
        self.set_c(false);
        match access_type {
            AccessType::Direct => 1,
            AccessType::Indirect => 2,
        }
    }

    /// OR A,r8: all other flags cleared.
    pub fn or_a_r8(&mut self, memory: &Memory, instruction: u8) -> (cycles: u8)
        requires
            old(self).wf(),
            memory.wf(),
        ensures
            final(self).wf(),
            ({
                let reg = field(instruction, 2, 0);
                let op = spec_r8_get(*old(self), memory@, reg);
                &&& cycles == if reg == 6 {
                    2u8
                } else {
                    1u8
                }
                &&& final(self).a == (old(self).a | op)
                &&& final(self).spec_z() == (final(self).a == 0)
                &&& final(self).spec_n() == false
                &&& final(self).spec_h() == false
                &&& final(self).spec_c() == false
                &&& *final(self) == (Cpu { a: final(self).a, f: final(self).f, ..*old(self) })
            }),
    {
        let reg = crate::bits::get_bits(instruction, 2, 0);
        let (operand, access_type) = self.read_r8(memory, reg);
        self.a = self.a | operand;
        let z = self.a == 0;
        self.set_z(z);
        self.set_n(false);
        self.set_h(false);
        self.set_c(false);
        match access_type {
            AccessType::Direct => 1,
            AccessType::Indirect => 2,
        }
    }

    /// CP A,r8: subtract flags without storing the result.
    pub fn cp_a_r8(&mut self, memory: &Memory, instruction: u8) -> (cycles: u8)
        requires
            old(self).wf(),
            memory.wf(),
        ensures
            final(self).wf(),
            ({
                let reg = field(instruction, 2, 0);
                let op = spec_r8_get(*old(self), memory@, reg);
                &&& cycles == if reg == 6 {
                    2u8
                } else {
                    1u8
                }
                &&& final(self).spec_z() == ((old(self).a + 256 - op) % 256 == 0)
                &&& final(self).spec_n() == true
                &&& final(self).spec_h() == (old(self).a % 16 < op % 16)
                &&& final(self).spec_c() == (old(self).a < op)
                &&& *final(self) == (Cpu { f: final(self).f, ..*old(self) })
            }),
    {
        let reg = crate::bits::get_bits(instruction, 2, 0);
        let (operand, access_type) = self.read_r8(memory, reg);
        let a = self.a;
        self.sub_and_set_flags_no_carry(a, operand);
        match access_type {
            AccessType::Direct => 1,
            AccessType::Indirect => 2,
        }
    }

    /// ADD A,n8.
    pub fn add_a_n8(&mut self, memory: &Memory) -> (cycles: u8)
        requires
            old(self).wf(),
            memory.wf(),
        ensures
            final(self).wf(),
            cycles == 2,
            ({
                let op = memory@[old(self).pc as int];
                &&& final(self).a == (old(self).a + op) % 256
                &&& final(self).spec_z() == (final(self).a == 0)
                &&& final(self).spec_n() == false
                &&& final(self).spec_h() == (old(self).a % 16 + op % 16 > 15)
                &&& final(self).spec_c() == (old(self).a + op > 255)
                &&& *final(self) == (Cpu {
                    a: final(self).a,
                    f: final(self).f,
                    pc: old(self).pc.wrapping_add(1),
                    ..*old(self)
                })
            }),
    {
        let operand = self.read_n8(memory);
        let a = self.a;
        self.a = self.add_and_set_flags_no_carry(a, operand);
        2
    }

    /// ADC A,n8.
    pub fn adc_a_n8(&mut self, memory: &Memory) -> (cycles: u8)
        requires
            old(self).wf(),
            memory.wf(),
        ensures
            final(self).wf(),
            cycles == 2,
            ({
                let op = memory@[old(self).pc as int];
                let cv: u8 = if old(self).spec_c() {
                    1u8
                } else {
                    0u8
                };
                &&& final(self).a == (old(self).a + op + cv) % 256
                &&& final(self).spec_z() == (final(self).a == 0)
                &&& final(self).spec_n() == false
                &&& final(self).spec_h() == (old(self).a % 16 + op % 16 + cv > 15)
                &&& final(self).spec_c() == (old(self).a + op + cv > 255)
                &&& *final(self) == (Cpu {
                    a: final(self).a,
                    f: final(self).f,
                    pc: old(self).pc.wrapping_add(1),
                    ..*old(self)
                })
            }),
    {
        let operand = self.read_n8(memory);
        let a = self.a;
        self.a = self.add_and_set_flags_with_carry(a, operand);
        2
    }

    /// SUB A,n8.
    pub fn sub_a_n8(&mut self, memory: &Memory) -> (cycles: u8)
        requires
            old(self).wf(),
            memory.wf(),
        ensures
            final(self).wf(),
            cycles == 2,
            ({
                let op = memory@[old(self).pc as int];
                &&& final(self).a == (old(self).a + 256 - op) % 256
                &&& final(self).spec_z() == (final(self).a == 0)
                &&& final(self).spec_n() == true
                &&& final(self).spec_h() == (old(self).a % 16 < op % 16)
                &&& final(self).spec_c() == (old(self).a < op)
                &&& *final(self) == (Cpu {
                    a: final(self).a,
                    f: final(self).f,
                    pc: old(self).pc.wrapping_add(1),
                    ..*old(self)
                })
            }),
    {
        let operand = self.read_n8(memory);
        let a = self.a;
        self.a = self.sub_and_set_flags_no_carry(a, operand);
        2
    }

    /// SBC A,n8.
    pub fn sbc_a_n8(&mut self, memory: &Memory) -> (cycles: u8)
        requires
            old(self).wf(),
            memory.wf(),
        ensures
            final(self).wf(),
            cycles == 2,
            ({
                let op = memory@[old(self).pc as int];
                let cv: u8 = if old(self).spec_c() {
                    1u8
                } else {
                    0u8
                };
                &&& final(self).a == (old(self).a + 512 - op - cv) % 256
                &&& final(self).spec_z() == (final(self).a == 0)
                &&& final(self).spec_n() == true
                &&& final(self).spec_h() == (old(self).a % 16 < op % 16 + cv)
                &&& final(self).spec_c() == (old(self).a < op + cv)
                &&& *final(self) == (Cpu {
                    a: final(self).a,
                    f: final(self).f,
                    pc: old(self).pc.wrapping_add(1),
                    ..*old(self)
                })
            }),
    {
        let operand = self.read_n8(memory);
        let a = self.a;
        self.a = self.sub_and_set_flags_with_carry(a, operand);
        2
    }

    /// AND A,n8.
    pub fn and_a_n8(&mut self, memory: &Memory) -> (cycles: u8)
        requires
            old(self).wf(),
            memory.wf(),
        ensures
            final(self).wf(),
            cycles == 2,
            ({
                let op = memory@[old(self).pc as int];
                &&& final(self).a == (old(self).a & op)
                &&& final(self).spec_z() == (final(self).a == 0)
                &&& final(self).spec_n() == false
                &&& final(self).spec_h() == true
                &&& final(self).spec_c() == false
                &&& *final(self) == (Cpu {
                    a: final(self).a,
                    f: final(self).f,
                    pc: old(self).pc.wrapping_add(1),
                    ..*old(self)
                })
            }),
    {
        let operand = self.read_n8(memory);
        self.a = self.a & operand;
        let z = self.a == 0;
        self.set_z(z);
        self.set_n(false);
        self.set_h(true);
        self.set_c(false);
        2
    }

    /// XOR A,n8.
    pub fn xor_a_n8(&mut self, memory: &Memory) -> (cycles: u8)
        requires
            old(self).wf(),
            memory.wf(),
        ensures
            final(self).wf(),
            cycles == 2,
            ({
                let op = memory@[old(self).pc as int];
                &&& final(self).a == (old(self).a ^ op)
                &&& final(self).spec_z() == (final(self).a == 0)
                &&& final(self).spec_n() == false
                &&& final(self).spec_h() == false
                &&& final(self).spec_c() == false
                &&& *final(self) == (Cpu {
                    a: final(self).a,
                    f: final(self).f,
                    pc: old(self).pc.wrapping_add(1),
                    ..*old(self)
                })
            }),
    {
        let operand = self.read_n8(memory);
        self.a = self.a ^ operand;
        let z = self.a == 0;
        self.set_z(z);
        self.set_n(false);
        self.set_h(false);
        self.set_c(false);
        2
    }

    /// OR A,n8.
    pub fn or_a_n8(&mut self, memory: &Memory) -> (cycles: u8)
        requires
            old(self).wf(),
            memory.wf(),
        ensures
            final(self).wf(),
            cycles == 2,
            ({
                let op = memory@[old(self).pc as int];
                &&& final(self).a == (old(self).a | op)
                &&& final(self).spec_z() == (final(self).a == 0)
                &&& final(self).spec_n() == false
                &&& final(self).spec_h() == false
                &&& final(self).spec_c() == false
                &&& *final(self) == (Cpu {
                    a: final(self).a,
                    f: final(self).f,
                    pc: old(self).pc.wrapping_add(1),
                    ..*old(self)
                })
            }),
    {
        let operand = self.read_n8(memory);
        self.a = self.a | operand;
        let z = self.a == 0;
        self.set_z(z);
        self.set_n(false);
        self.set_h(false);
        self.set_c(false);
        2
    }

    /// CP A,n8.
    pub fn cp_a_n8(&mut self, memory: &Memory) -> (cycles: u8)
        requires
            old(self).wf(),
            memory.wf(),
        ensures
            final(self).wf(),
            cycles == 2,
            ({
                let op = memory@[old(self).pc as int];
                &&& final(self).spec_z() == ((old(self).a + 256 - op) % 256 == 0)
                &&& final(self).spec_n() == true
                &&& final(self).spec_h() == (old(self).a % 16 < op % 16)
                &&& final(self).spec_c() == (old(self).a < op)
                &&& *final(self) == (Cpu {
                    f: final(self).f,
                    pc: old(self).pc.wrapping_add(1),
                    ..*old(self)
                })
            }),
    {
        let operand = self.read_n8(memory);
        let a = self.a;
        self.sub_and_set_flags(a, operand, None);
        2
    }

    /// RET cond: pops the return address when the condition holds.
    pub fn ret_cond(&mut self, memory: &Memory, instruction: u8) -> (cycles: u8)
        requires
            memory.wf(),
        ensures
            ({
                let taken = old(self).spec_cond(field(instruction, 4, 3));
                &&& cycles == if taken {
                    5u8
                } else {
                    2u8
                }
                &&& *final(self) == if taken {
                    (Cpu {
                        pc: old(self).spec_stack_top(memory@),
                        sp: old(self).sp.wrapping_add(2),
                        ..*old(self)
                    })
                } else {
                    *old(self)
                }
            }),
    {
        let cond = crate::bits::get_bits(instruction, 4, 3);
        if self.read_cond(cond) {
            let dest = self.pop_16(memory);
            self.pc = dest;
            5
        } else {
            2
        }
    }

    /// RET: pops the return address into PC.
    pub fn ret(&mut self, memory: &Memory) -> (cycles: u8)
        requires
            memory.wf(),
        ensures
            cycles == 4,
            *final(self) == (Cpu {
                pc: old(self).spec_stack_top(memory@),
                sp: old(self).sp.wrapping_add(2),
                ..*old(self)
            }),
    {
        self.pc = self.pop_16(memory);
        4
    }

    /// RETI: RET that also re-enables the interrupt master flag.
    pub fn reti(&mut self, memory: &Memory) -> (cycles: u8)
        requires
            memory.wf(),
        ensures
            cycles == 4,
            *final(self) == (Cpu {
                pc: old(self).spec_stack_top(memory@),
                sp: old(self).sp.wrapping_add(2),
                ime: true,
                ..*old(self)
            }),
    {
        self.pc = self.pop_16(memory);
        self.ime = true;
        4
    }

    /// JP cond,n16.
    pub fn jp_cond_n16(&mut self, memory: &Memory, instruction: u8) -> (cycles: u8)
        requires
            memory.wf(),
        ensures
            ({
                let taken = old(self).spec_cond(field(instruction, 4, 3));
                &&& cycles == if taken {
                    4u8
                } else {
                    3u8
                }
                &&& *final(self) == (Cpu {
                    pc: if taken {
                        old(self).spec_n16(memory@)
                    } else {
                        old(self).pc.wrapping_add(2)
                    },
                    ..*old(self)
                })
            }),
    {
        let cond = crate::bits::get_bits(instruction, 4, 3);
        let dest = self.read_n16(memory);
        if self.read_cond(cond) {
            self.pc = dest;
            4
        } else {
            3
        }
    }

    /// JP n16.
    pub fn jp_n16(&mut self, memory: &Memory) -> (cycles: u8)
        requires
            memory.wf(),
        ensures
            cycles == 4,
            *final(self) == (Cpu { pc: old(self).spec_n16(memory@), ..*old(self) }),
    {
        self.pc = self.read_n16(memory);
        4
    }

    /// JP HL.
    pub fn jp_hl(&mut self) -> (cycles: u8)
        ensures
            cycles == 1,
            *final(self) == (Cpu { pc: old(self).spec_hl(), ..*old(self) }),
    {
        self.pc = self.read_hl();
        1
    }

    /// CALL cond,n16: pushes the return address when the condition holds.
    pub fn call_cond_n16(&mut self, memory: &mut Memory, instruction: u8) -> (r: Result<
        u8,
        GbError,
    >)
        requires
            old(self).wf(),
            old(memory).wf(),
        ensures
            final(self).wf(),
            final(memory).wf(),
            ({
                let taken = old(self).spec_cond(field(instruction, 4, 3));
                let ret_pc = old(self).pc.wrapping_add(2);
                &&& (r is Err <==> taken && (is_mirror_addr(old(self).sp.wrapping_sub(1))
                    || is_mirror_addr(old(self).sp.wrapping_sub(2))))
                &&& (r is Err ==> r matches Err(GbError::MirrorRamWrite { .. }))
                &&& r matches Ok(c) ==> if taken {
                    &&& c == 6
                    &&& *final(self) == (Cpu {
                        pc: old(self).spec_n16(old(memory)@),
                        sp: old(self).sp.wrapping_sub(2),
                        ..*old(self)
                    })
                    &&& final(memory)@ == bus_write_ok(
                        bus_write_ok(
                            old(memory)@,
                            old(self).sp.wrapping_sub(1),
                            (ret_pc / 0x100) as u8,
                        ),
                        old(self).sp.wrapping_sub(2),
                        (ret_pc % 0x100) as u8,
                    )
                } else {
                    &&& c == 3
                    &&& *final(self) == (Cpu { pc: ret_pc, ..*old(self) })
                    &&& *final(memory) == *old(memory)
                }
            }),
    {
        let cond = crate::bits::get_bits(instruction, 4, 3);
        let addr = self.read_n16(memory);
        if self.read_cond(cond) {
            let pc = self.pc;
            self.push_16(memory, pc)?;
            self.pc = addr;
            Ok(6)
        } else {
            Ok(3)
        }
    }

    /// CALL n16.
    pub fn call_n16(&mut self, memory: &mut Memory) -> (r: Result<u8, GbError>)
        requires
            old(self).wf(),
            old(memory).wf(),
        ensures
            final(self).wf(),
            final(memory).wf(),
            ({
                let ret_pc = old(self).pc.wrapping_add(2);
                &&& (r is Err <==> is_mirror_addr(old(self).sp.wrapping_sub(1)) || is_mirror_addr(
                    old(self).sp.wrapping_sub(2),
                ))
                &&& (r is Err ==> r matches Err(GbError::MirrorRamWrite { .. }))
                &&& r matches Ok(c) ==> {
                    &&& c == 6
                    &&& *final(self) == (Cpu {
                        pc: old(self).spec_n16(old(memory)@),
                        sp: old(self).sp.wrapping_sub(2),
                        ..*old(self)
                    })
                    &&& final(memory)@ == bus_write_ok(
                        bus_write_ok(
                            old(memory)@,
                            old(self).sp.wrapping_sub(1),
                            (ret_pc / 0x100) as u8,
                        ),
                        old(self).sp.wrapping_sub(2),
                        (ret_pc % 0x100) as u8,
                    )
                }
            }),
    {
        let addr = self.read_n16(memory);
        let pc = self.pc;
        self.push_16(memory, pc)?;
        self.pc = addr;
        Ok(6)
    }

    /// RST: pushes PC and jumps to one of the eight fixed vectors.
    pub fn rst(&mut self, memory: &mut Memory, instruction: u8) -> (r: Result<u8, GbError>)
        requires
            old(self).wf(),
            old(memory).wf(),
        ensures
            final(self).wf(),
            final(memory).wf(),
            ({
                let vector = (field(instruction, 5, 3) * 8) as u16;
                &&& (r is Err <==> is_mirror_addr(old(self).sp.wrapping_sub(1)) || is_mirror_addr(
                    old(self).sp.wrapping_sub(2),
                ))
                &&& (r is Err ==> r matches Err(GbError::MirrorRamWrite { .. }))
                &&& r matches Ok(c) ==> {
                    &&& c == 4
                    &&& *final(self) == (Cpu {
                        pc: vector,
                        sp: old(self).sp.wrapping_sub(2),
                        ..*old(self)
                    })
                    &&& final(memory)@ == bus_write_ok(
                        bus_write_ok(
                            old(memory)@,
                            old(self).sp.wrapping_sub(1),
                            (old(self).pc / 0x100) as u8,
                        ),
                        old(self).sp.wrapping_sub(2),
                        (old(self).pc % 0x100) as u8,
                    )
                }
            }),
    {
        let operand = crate::bits::get_bits(instruction, 5, 3);
        let addr = (operand as u16) * 8;
        let pc = self.pc;
        self.push_16(memory, pc)?;
        self.pc = addr;
        Ok(4)
    }

    /// POP r16: pops into the pair; popping AF masks F's low nibble.
    pub fn pop(&mut self, memory: &Memory, instruction: u8) -> (cycles: u8)
        requires
            old(self).wf(),
            memory.wf(),
        ensures
            final(self).wf(),
            cycles == 3,
            ({
                let reg = field(instruction, 5, 4);
                let v = old(self).spec_stack_top(memory@);
                let popped = (Cpu { sp: old(self).sp.wrapping_add(2), ..*old(self) });
                if reg < 3 {
                    *final(self) == popped.with_r16(reg, v)
                } else {
                    *final(self) == (Cpu {
                        a: (v / 0x100) as u8,
                        f: ((v % 0x100) as u8) & 0xF0,
                        ..popped
                    })
                }
            }),
    {
        let value = self.pop_16(memory);
        let reg = crate::bits::get_bits(instruction, 5, 4);
        self.write_r16_stk(reg, value);
        3
    }

    /// PUSH r16.
    pub fn push(&mut self, memory: &mut Memory, instruction: u8) -> (r: Result<u8, GbError>)
        requires
            old(self).wf(),
            old(memory).wf(),
        ensures
            final(self).wf(),
            final(memory).wf(),
            ({
                let reg = field(instruction, 5, 4);
                let v = if reg < 3 {
                    old(self).spec_r16(reg)
                } else {
                    old(self).spec_af()
                };
                &&& (r is Err <==> is_mirror_addr(old(self).sp.wrapping_sub(1)) || is_mirror_addr(
                    old(self).sp.wrapping_sub(2),
                ))
                &&& (r is Err ==> r matches Err(GbError::MirrorRamWrite { .. }))
                &&& r matches Ok(c) ==> {
                    &&& c == 4
                    &&& *final(self) == (Cpu { sp: old(self).sp.wrapping_sub(2), ..*old(self) })
                    &&& final(memory)@ == bus_write_ok(
                        bus_write_ok(old(memory)@, old(self).sp.wrapping_sub(1), (v / 0x100) as u8),
                        old(self).sp.wrapping_sub(2),
                        (v % 0x100) as u8,
                    )
                }
            }),
    {
        let reg = crate::bits::get_bits(instruction, 5, 4);
        let v = self.read_r16_stk(reg);
        self.push_16(memory, v)?;
        Ok(4)
    }

    /// LDH (C),A: stores A into the I/O page at 0xFF00 + C.
    pub fn ldh_ind_c_a(&mut self, memory: &mut Memory) -> (cycles: u8)
        requires
            old(memory).wf(),
        ensures
            final(memory).wf(),
            cycles == 2,
            *final(self) == *old(self),
            final(memory)@ == bus_write_ok(old(memory)@, (0xFF00 + old(self).c) as u16, old(self).a),
    {
        let addr = 0xFF00u16 + (self.c as u16);
        let _r = memory.write(addr, self.a);
        2
    }

    /// LDH (n8),A: stores A into the I/O page at 0xFF00 + n8.
    pub fn ldh_ind_n8_a(&mut self, memory: &mut Memory) -> (cycles: u8)
        requires
            old(memory).wf(),
        ensures
            final(memory).wf(),
            cycles == 3,
            *final(self) == (Cpu { pc: old(self).pc.wrapping_add(1), ..*old(self) }),
            final(memory)@ == bus_write_ok(
                old(memory)@,
                (0xFF00 + old(memory)@[old(self).pc as int]) as u16,
                old(self).a,
            ),
    {
        let n = self.read_n8(memory);
        let addr = 0xFF00u16 + (n as u16);
        let _r = memory.write(addr, self.a);
        3
    }

    /// LD (n16),A: stores A at the immediate address.
    pub fn ld_ind_n16_a(&mut self, memory: &mut Memory) -> (r: Result<u8, GbError>)
        requires
            old(self).wf(),
            old(memory).wf(),
        ensures
            final(self).wf(),
            final(memory).wf(),
            ({
                let addr = old(self).spec_n16(old(memory)@);
                &&& (r is Err <==> is_mirror_addr(addr))
                &&& (r is Err ==> r matches Err(GbError::MirrorRamWrite { .. }))
                &&& r matches Ok(c) ==> {
                    &&& c == 4
                    &&& *final(self) == (Cpu { pc: old(self).pc.wrapping_add(2), ..*old(self) })
                    &&& final(memory)@ == bus_write_ok(old(memory)@, addr, old(self).a)
                }
            }),
    {
        let address = self.read_n16(memory);
        memory.write(address, self.a)?;
        Ok(4)
    }

    /// LDH A,(C): loads A from the I/O page at 0xFF00 + C.
    pub fn ldh_a_ind_c(&mut self, memory: &Memory) -> (cycles: u8)
        requires
            memory.wf(),
        ensures
            cycles == 2,
            *final(self) == (Cpu {
                a: memory@[0xFF00 + old(self).c],
                ..*old(self)
            }),
    {
        let addr = 0xFF00u16 + (self.c as u16);
        self.a = memory.read(addr);
        2
    }

    /// LDH A,(n8): loads A from the I/O page at 0xFF00 + n8.
    pub fn ldh_a_ind_n8(&mut self, memory: &Memory) -> (cycles: u8)
        requires
            memory.wf(),
        ensures
            cycles == 3,
            *final(self) == (Cpu {
                a: memory@[0xFF00 + memory@[old(self).pc as int]],
                pc: old(self).pc.wrapping_add(1),
                ..*old(self)
            }),
    {
        let n = self.read_n8(memory);
        let addr = 0xFF00u16 + (n as u16);
        self.a = memory.read(addr);
        3
    }

    /// LD A,(n16): loads A from the immediate address.
    pub fn ld_a_ind_n16(&mut self, memory: &Memory) -> (cycles: u8)
        requires
            memory.wf(),
        ensures
            cycles == 4,
            *final(self) == (Cpu {
                a: memory@[old(self).spec_n16(memory@) as int],
                pc: old(self).pc.wrapping_add(2),
                ..*old(self)
            }),
    {
        let address = self.read_n16(memory);
        self.a = memory.read(address);
        4
    }

    /// ADD SP,n8: adds the signed immediate to SP.
    pub fn add_sp_n8(&mut self, memory: &Memory) -> (cycles: u8)
        requires
            old(self).wf(),
            memory.wf(),
        ensures
            final(self).wf(),
            cycles == 4,
            ({
                let op = memory@[old(self).pc as int];
                &&& *final(self) == (Cpu {
                    sp: old(self).sp.wrapping_add_signed((op as i8) as i16),
                    f: final(self).f,
                    pc: old(self).pc.wrapping_add(1),
                    ..*old(self)
                })
                &&& final(self).spec_z() == false
                &&& final(self).spec_n() == false
                &&& final(self).spec_h() == (old(self).sp % 16 + op % 16 > 15)
                &&& final(self).spec_c() == (old(self).sp % 256 + op > 255)
            }),
    {
        let n = self.read_n8(memory);
        let operand = n as i8;
        let sp = self.sp;
        self.sp = self.add_signed_and_set_flags(sp, operand);
        proof {
            assert((n as i8) as u8 == n) by (bit_vector);
        }
        4
    }

    /// LD HL,SP+n8: HL takes SP plus the signed immediate; flags as in
    /// ADD SP,n8.
    pub fn ld_hl_sp_plus_n8(&mut self, memory: &Memory) -> (cycles: u8)
        requires
            old(self).wf(),
            memory.wf(),
        ensures
            final(self).wf(),
            cycles == 3,
            ({
                let op = memory@[old(self).pc as int];
                let v = old(self).sp.wrapping_add_signed((op as i8) as i16);
                &&& *final(self) == (Cpu {
                    h: (v / 0x100) as u8,
                    l: (v % 0x100) as u8,
                    f: final(self).f,
                    pc: old(self).pc.wrapping_add(1),
                    ..*old(self)
                })
                &&& final(self).spec_z() == false
                &&& final(self).spec_n() == false
                &&& final(self).spec_h() == (old(self).sp % 16 + op % 16 > 15)
                &&& final(self).spec_c() == (old(self).sp % 256 + op > 255)
            }),
    {
        let n = self.read_n8(memory);
        let operand = n as i8;
        let sp = self.sp;
        let result = self.add_signed_and_set_flags(sp, operand);
        self.write_hl(result);
        proof {
            assert((n as i8) as u8 == n) by (bit_vector);
        }
        3
    }

    /// LD SP,HL.
    pub fn ld_sp_hl(&mut self) -> (cycles: u8)
        ensures
            cycles == 2,
            *final(self) == (Cpu { sp: old(self).spec_hl(), ..*old(self) }),
    {
        self.sp = self.read_hl();
        2
    }

    /// DI: clears the interrupt master flag.
    pub fn di(&mut self) -> (cycles: u8)
        ensures
            cycles == 1,
            *final(self) == (Cpu { ime: false, ..*old(self) }),
    {
        self.ime = false;
        1
    }

    /// EI: sets the interrupt master flag.
    pub fn ei(&mut self) -> (cycles: u8)
        ensures
            cycles == 1,
            *final(self) == (Cpu { ime: true, ..*old(self) }),
    {
        self.ime = true;
        1
    }

    /// RLC r8 (prefixed): rotate left, Zero from the result.
    pub fn rlc(&mut self, memory: &mut Memory, instruction: u8) -> (r: Result<u8, GbError>)
        requires
            old(self).wf(),
            old(memory).wf(),
        ensures
            final(self).wf(),
            final(memory).wf(),
            ({
                let reg = field(instruction, 2, 0);
                let op = spec_r8_get(*old(self), old(memory)@, reg);
                let res = (op << 1) | (op >> 7);
                &&& (r is Err <==> (reg == 6 && is_mirror_addr(old(self).spec_hl())))
                &&& (r is Err ==> r matches Err(GbError::MirrorRamWrite { .. }))
                &&& r matches Ok(c) ==> {
                    &&& c == if reg == 6 {
                        4u8
                    } else {
                        2u8
                    }
                    &&& final(self).spec_z() == (res == 0)
                    &&& final(self).spec_n() == false
                    &&& final(self).spec_h() == false
                    &&& final(self).spec_c() == (op >> 7 == 1)
                    &&& r8_written(
                        (Cpu { f: final(self).f, ..*old(self) }),
                        old(memory)@,
                        *final(self),
                        final(memory)@,
                        reg,
                        res,
                    )
                }
            }),
    {
        let reg = crate::bits::get_bits(instruction, 2, 0);
        let (operand, access_type) = self.read_r8(memory, reg);
        let (result, carry) = rotate_left(operand);
        self.set_z(result == 0);
        self.set_n(false);
        self.set_h(false);
        self.set_c(carry);
        self.write_r8(memory, reg, result)?;
        Ok(
            match access_type {
                AccessType::Direct => 2,
                AccessType::Indirect => 4,
            },
        )
    }

    /// RRC r8 (prefixed): rotate right, Zero from the result.
    pub fn rrc(&mut self, memory: &mut Memory, instruction: u8) -> (r: Result<u8, GbError>)
        requires
            old(self).wf(),
            old(memory).wf(),
        ensures
            final(self).wf(),
            final(memory).wf(),
            ({
                let reg = field(instruction, 2, 0);
                let op = spec_r8_get(*old(self), old(memory)@, reg);
                let res = (op >> 1) | (op << 7);
                &&& (r is Err <==> (reg == 6 && is_mirror_addr(old(self).spec_hl())))
                &&& (r is Err ==> r matches Err(GbError::MirrorRamWrite { .. }))
                &&& r matches Ok(c) ==> {
                    &&& c == if reg == 6 {
                        4u8
                    } else {
                        2u8
                    }
                    &&& final(self).spec_z() == (res == 0)
                    &&& final(self).spec_n() == false
                    &&& final(self).spec_h() == false
                    &&& final(self).spec_c() == (op & 1 == 1)
                    &&& r8_written(
                        (Cpu { f: final(self).f, ..*old(self) }),
                        old(memory)@,
                        *final(self),
                        final(memory)@,
                        reg,
                        res,
                    )
                }
            }),
    {
        let reg = crate::bits::get_bits(instruction, 2, 0);
        let (operand, access_type) = self.read_r8(memory, reg);
        let (result, carry) = rotate_right(operand);
        self.set_z(result == 0);
        self.set_n(false);
        self.set_h(false);
        self.set_c(carry);
        self.write_r8(memory, reg, result)?;
        Ok(
            match access_type {
                AccessType::Direct => 2,
                AccessType::Indirect => 4,
            },
        )
    }

    /// RL r8 (prefixed): rotate left through the carry flag.
    pub fn rl(&mut self, memory: &mut Memory, instruction: u8) -> (r: Result<u8, GbError>)
        requires
            old(self).wf(),
            old(memory).wf(),
        ensures
            final(self).wf(),
            final(memory).wf(),
            ({
                let reg = field(instruction, 2, 0);
                let op = spec_r8_get(*old(self), old(memory)@, reg);
                let res = (op << 1) | (if old(self).spec_c() {
                    1u8
                } else {
                    0u8
                });
                &&& (r is Err <==> (reg == 6 && is_mirror_addr(old(self).spec_hl())))
                &&& (r is Err ==> r matches Err(GbError::MirrorRamWrite { .. }))
                &&& r matches Ok(c) ==> {
                    &&& c == if reg == 6 {
                        4u8
                    } else {
                        2u8
                    }
                    &&& final(self).spec_z() == (res == 0)
                    &&& final(self).spec_n() == false
                    &&& final(self).spec_h() == false
                    &&& final(self).spec_c() == (op >> 7 == 1)
                    &&& r8_written(
                        (Cpu { f: final(self).f, ..*old(self) }),
                        old(memory)@,
                        *final(self),
                        final(memory)@,
                        reg,
                        res,
                    )
                }
            }),
    {
        let reg = crate::bits::get_bits(instruction, 2, 0);
        let (operand, access_type) = self.read_r8(memory, reg);
        let c = self.get_c();
        let (result, carry) = rotate_left_with_carry(operand, c);
        self.set_z(result == 0);
        self.set_n(false);
        self.set_h(false);
        self.set_c(carry);
        self.write_r8(memory, reg, result)?;
        Ok(
            match access_type {
                AccessType::Direct => 2,
                AccessType::Indirect => 4,
            },
        )
    }

    /// RR r8 (prefixed): rotate right through the carry flag.
    pub fn rr(&mut self, memory: &mut Memory, instruction: u8) -> (r: Result<u8, GbError>)
        requires
            old(self).wf(),
            old(memory).wf(),
        ensures
            final(self).wf(),
            final(memory).wf(),
            ({
                let reg = field(instruction, 2, 0);
                let op = spec_r8_get(*old(self), old(memory)@, reg);
                let res = (op >> 1) | (if old(self).spec_c() {
                    0x80u8
                } else {
                    0u8
                });
                &&& (r is Err <==> (reg == 6 && is_mirror_addr(old(self).spec_hl())))
                &&& (r is Err ==> r matches Err(GbError::MirrorRamWrite { .. }))
                &&& r matches Ok(c) ==> {
                    &&& c == if reg == 6 {
                        4u8
                    } else {
                        2u8
                    }
                    &&& final(self).spec_z() == (res == 0)
                    &&& final(self).spec_n() == false
                    &&& final(self).spec_h() == false
                    &&& final(self).spec_c() == (op & 1 == 1)
                    &&& r8_written(
                        (Cpu { f: final(self).f, ..*old(self) }),
                        old(memory)@,
                        *final(self),
                        final(memory)@,
                        reg,
                        res,
                    )
                }
            }),
    {
        let reg = crate::bits::get_bits(instruction, 2, 0);
        let (operand, access_type) = self.read_r8(memory, reg);
        let c = self.get_c();
        let (result, carry) = rotate_right_with_carry(operand, c);
        self.set_z(result == 0);
        self.set_n(false);
        self.set_h(false);
        self.set_c(carry);
        self.write_r8(memory, reg, result)?;
        Ok(
            match access_type {
                AccessType::Direct => 2,
                AccessType::Indirect => 4,
            },
        )
    }

    /// SLA r8 (prefixed): arithmetic shift left.
    pub fn sla(&mut self, memory: &mut Memory, instruction: u8) -> (r: Result<u8, GbError>)
        requires
            old(self).wf(),
            old(memory).wf(),
        ensures
            final(self).wf(),
            final(memory).wf(),
            ({
                let reg = field(instruction, 2, 0);
                let op = spec_r8_get(*old(self), old(memory)@, reg);
                let res = op << 1;
                &&& (r is Err <==> (reg == 6 && is_mirror_addr(old(self).spec_hl())))
                &&& (r is Err ==> r matches Err(GbError::MirrorRamWrite { .. }))
                &&& r matches Ok(c) ==> {
                    &&& c == if reg == 6 {
                        4u8
                    } else {
                        2u8
                    }
                    &&& final(self).spec_z() == (res == 0)
                    &&& final(self).spec_n() == false
                    &&& final(self).spec_h() == false
                    &&& final(self).spec_c() == (op >> 7 == 1)
                    &&& r8_written(
                        (Cpu { f: final(self).f, ..*old(self) }),
                        old(memory)@,
                        *final(self),
                        final(memory)@,
                        reg,
                        res,
                    )
                }
            }),
    {
        let reg = crate::bits::get_bits(instruction, 2, 0);
        let (operand, access_type) = self.read_r8(memory, reg);
        let (result, carry) = shift_left(operand);
        self.set_z(result == 0);
        self.set_n(false);
        self.set_h(false);
        self.set_c(carry);
        self.write_r8(memory, reg, result)?;
        Ok(
            match access_type {
                AccessType::Direct => 2,
                AccessType::Indirect => 4,
            },
        )
    }

    /// SRA r8 (prefixed): arithmetic shift right, bit 7 kept.
    pub fn sra(&mut self, memory: &mut Memory, instruction: u8) -> (r: Result<u8, GbError>)
        requires
            old(self).wf(),
            old(memory).wf(),
        ensures
            final(self).wf(),
            final(memory).wf(),
            ({
                let reg = field(instruction, 2, 0);
                let op = spec_r8_get(*old(self), old(memory)@, reg);
                let res = (op >> 1) | (op & 0x80);
                &&& (r is Err <==> (reg == 6 && is_mirror_addr(old(self).spec_hl())))
                &&& (r is Err ==> r matches Err(GbError::MirrorRamWrite { .. }))
                &&& r matches Ok(c) ==> {
                    &&& c == if reg == 6 {
                        4u8
                    } else {
                        2u8
                    }
                    &&& final(self).spec_z() == (res == 0)
                    &&& final(self).spec_n() == false
                    &&& final(self).spec_h() == false
                    &&& final(self).spec_c() == (op & 1 == 1)
                    &&& r8_written(
                        (Cpu { f: final(self).f, ..*old(self) }),
                        old(memory)@,
                        *final(self),
                        final(memory)@,
                        reg,
                        res,
                    )
                }
            }),
    {
        let reg = crate::bits::get_bits(instruction, 2, 0);
        let (operand, access_type) = self.read_r8(memory, reg);
        let (result, carry) = shift_right_arithmetic(operand);
        self.set_z(result == 0);
        self.set_n(false);
        self.set_h(false);
        self.set_c(carry);
        self.write_r8(memory, reg, result)?;
        Ok(
            match access_type {
                AccessType::Direct => 2,
                AccessType::Indirect => 4,
            },
        )
    }

    /// SWAP r8 (prefixed): exchanges the nibbles; Carry is cleared.
    pub fn swap(&mut self, memory: &mut Memory, instruction: u8) -> (r: Result<u8, GbError>)
        requires
            old(self).wf(),
            old(memory).wf(),
        ensures
            final(self).wf(),
            final(memory).wf(),
            ({
                let reg = field(instruction, 2, 0);
                let op = spec_r8_get(*old(self), old(memory)@, reg);
                let res = (op >> 4) | (op << 4);
                &&& (r is Err <==> (reg == 6 && is_mirror_addr(old(self).spec_hl())))
                &&& (r is Err ==> r matches Err(GbError::MirrorRamWrite { .. }))
                &&& r matches Ok(c) ==> {
                    &&& c == if reg == 6 {
                        4u8
                    } else {
                        2u8
                    }
                    &&& final(self).spec_z() == (res == 0)
                    &&& final(self).spec_n() == false
                    &&& final(self).spec_h() == false
                    &&& final(self).spec_c() == false
                    &&& r8_written(
                        (Cpu { f: final(self).f, ..*old(self) }),
                        old(memory)@,
                        *final(self),
                        final(memory)@,
                        reg,
                        res,
                    )
                }
            }),
    {
        let reg = crate::bits::get_bits(instruction, 2, 0);
        let (operand, access_type) = self.read_r8(memory, reg);
        let result = (operand >> 4) | (operand << 4);
        self.set_z(result == 0);
        self.set_n(false);
        self.set_h(false);
        self.set_c(false);
        self.write_r8(memory, reg, result)?;
        Ok(
            match access_type {
                AccessType::Direct => 2,
                AccessType::Indirect => 4,
            },
        )
    }

    /// SRL r8 (prefixed): logical shift right.
    pub fn srl(&mut self, memory: &mut Memory, instruction: u8) -> (r: Result<u8, GbError>)
        requires
            old(self).wf(),
            old(memory).wf(),
        ensures
            final(self).wf(),
            final(memory).wf(),
            ({
                let reg = field(instruction, 2, 0);
                let op = spec_r8_get(*old(self), old(memory)@, reg);
                let res = op >> 1;
                &&& (r is Err <==> (reg == 6 && is_mirror_addr(old(self).spec_hl())))
                &&& (r is Err ==> r matches Err(GbError::MirrorRamWrite { .. }))
                &&& r matches Ok(c) ==> {
                    &&& c == if reg == 6 {
                        4u8
                    } else {
                        2u8
                    }
                    &&& final(self).spec_z() == (res == 0)
                    &&& final(self).spec_n() == false
                    &&& final(self).spec_h() == false
                    &&& final(self).spec_c() == (op & 1 == 1)
                    &&& r8_written(
                        (Cpu { f: final(self).f, ..*old(self) }),
                        old(memory)@,
                        *final(self),
                        final(memory)@,
                        reg,
                        res,
                    )
                }
            }),
    {
        let reg = crate::bits::get_bits(instruction, 2, 0);
        let (operand, access_type) = self.read_r8(memory, reg);
        let (result, carry) = shift_right_logical(operand);
        self.set_z(result == 0);
        self.set_n(false);
        self.set_h(false);
        self.set_c(carry);
        self.write_r8(memory, reg, result)?;
        Ok(
            match access_type {
                AccessType::Direct => 2,
                AccessType::Indirect => 4,
            },
        )
    }

    /// BIT b,r8 (prefixed): Zero reports the complement of the tested bit.
    pub fn bit(&mut self, memory: &Memory, instruction: u8) -> (cycles: u8)
        requires
            old(self).wf(),
            memory.wf(),
        ensures
            final(self).wf(),
            ({
                let reg = field(instruction, 2, 0);
                let b = field(instruction, 5, 3);
                let op = spec_r8_get(*old(self), memory@, reg);
                &&& cycles == if reg == 6 {
                    3u8
                } else {
                    2u8
                }
                &&& final(self).spec_z() == ((op >> b) & 1 == 0)
                &&& final(self).spec_n() == false
                &&& final(self).spec_h() == true
                &&& final(self).spec_c() == old(self).spec_c()
                &&& *final(self) == (Cpu { f: final(self).f, ..*old(self) })
            }),
    {
        let reg = crate::bits::get_bits(instruction, 2, 0);
        let b = crate::bits::get_bits(instruction, 5, 3);
        let (operand, access_type) = self.read_r8(memory, reg);
        let tested = crate::bits::get_bits(operand, b, b);
        self.set_z(tested == 0);
        self.set_n(false);
        self.set_h(true);
        proof {
            assert(1u8 << 1u8 == 2) by (bit_vector);
        }
        match access_type {
            AccessType::Direct => 2,
            AccessType::Indirect => 3,
        }
    }

    /// RES b,r8 (prefixed): clears a bit; flags are kept.
    pub fn res(&mut self, memory: &mut Memory, instruction: u8) -> (r: Result<u8, GbError>)
        requires
            old(self).wf(),
            old(memory).wf(),
        ensures
            final(self).wf(),
            final(memory).wf(),
            ({
                let reg = field(instruction, 2, 0);
                let b = field(instruction, 5, 3);
                let op = spec_r8_get(*old(self), old(memory)@, reg);
                let res = op & !(1u8 << b);
                &&& (r is Err <==> (reg == 6 && is_mirror_addr(old(self).spec_hl())))
                &&& (r is Err ==> r matches Err(GbError::MirrorRamWrite { .. }))
                &&& r matches Ok(c) ==> c == (if reg == 6 {
                    4u8
                } else {
                    2u8
                }) && r8_written(*old(self), old(memory)@, *final(self), final(memory)@, reg, res)
            }),
    {
        let reg = crate::bits::get_bits(instruction, 2, 0);
        let b = crate::bits::get_bits(instruction, 5, 3);
        let (operand, access_type) = self.read_r8(memory, reg);
        let cleared = crate::bits::clear_bit(operand, b);
        self.write_r8(memory, reg, cleared)?;
        Ok(
            match access_type {
                AccessType::Direct => 2,
                AccessType::Indirect => 4,
            },
        )
    }

    /// SET b,r8 (prefixed): sets a bit; flags are kept.
    pub fn set(&mut self, memory: &mut Memory, instruction: u8) -> (r: Result<u8, GbError>)
        requires
            old(self).wf(),
            old(memory).wf(),
        ensures
            final(self).wf(),
            final(memory).wf(),
            ({
                let reg = field(instruction, 2, 0);
                let b = field(instruction, 5, 3);
                let op = spec_r8_get(*old(self), old(memory)@, reg);
                let res = op | (1u8 << b);
                &&& (r is Err <==> (reg == 6 && is_mirror_addr(old(self).spec_hl())))
                &&& (r is Err ==> r matches Err(GbError::MirrorRamWrite { .. }))
                &&& r matches Ok(c) ==> c == (if reg == 6 {
                    4u8
                } else {
                    2u8
                }) && r8_written(*old(self), old(memory)@, *final(self), final(memory)@, reg, res)
            }),
    {
        let reg = crate::bits::get_bits(instruction, 2, 0);
        let b = crate::bits::get_bits(instruction, 5, 3);
        let (operand, access_type) = self.read_r8(memory, reg);
        let set_val = crate::bits::set_bit(operand, b);
        self.write_r8(memory, reg, set_val)?;
        Ok(
            match access_type {
                AccessType::Direct => 2,
                AccessType::Indirect => 4,
            },
        )
    }

    /// The 0xCB-prefixed block: fetches the extended opcode and runs the
    /// rotate/shift/swap/bit/res/set instruction it selects.
    pub fn prefix(&mut self, memory: &mut Memory) -> (r: Result<u8, GbError>)
        requires
            old(self).wf(),
            old(memory).wf(),
        ensures
            final(self).wf(),
            final(memory).wf(),
            (r matches Ok(c) ==> 2 <= c <= 4),
            (r is Err ==> r matches Err(GbError::MirrorRamWrite { .. })),
            cb_post(
                (Cpu { pc: old(self).pc.wrapping_add(1), ..*old(self) }),
                old(memory)@,
                old(memory)@[old(self).pc as int],
                *final(self),
                final(memory)@,
                r,
            ),
    {
        let instruction = self.read_and_increment_pc(memory);
        if instruction < 0o10 {
            self.rlc(memory, instruction)
        } else if instruction < 0o20 {
            self.rrc(memory, instruction)
        } else if instruction < 0o30 {
            self.rl(memory, instruction)
        } else if instruction < 0o40 {
            self.rr(memory, instruction)
        } else if instruction < 0o50 {
            self.sla(memory, instruction)
        } else if instruction < 0o60 {
            self.sra(memory, instruction)
        } else if instruction < 0o70 {
            self.swap(memory, instruction)
        } else if instruction < 0o100 {
            self.srl(memory, instruction)
        } else if instruction < 0o200 {
            Ok(self.bit(memory, instruction))
        } else if instruction < 0o300 {
            self.res(memory, instruction)
        } else {
            self.set(memory, instruction)
        }
    }
}

/// An ALU operation on A: `kind` selects ADD, ADC, SUB, SBC, AND, XOR,
/// OR or CP (0..=7), with the documented flag rules of the shared
/// routines. `base` is the register file after fetching the opcode and
/// any immediate operand; only A and F change from it.
pub open spec fn alu_post(base: Cpu, operand: u8, kind: u8, post: Cpu) -> bool {
    let a = base.a;
    let cv: u8 = if base.spec_c() {
        1u8
    } else {
        0u8
    };
    &&& post == (Cpu { a: post.a, f: post.f, ..base })
    &&& post.spec_z() == (if kind == 7 {
        (a + 256 - operand) % 256 == 0
    } else {
        post.a == 0
    })
    &&& if kind == 0 {
        &&& post.a == (a + operand) % 256
        &&& post.spec_n() == false
        &&& post.spec_h() == (a % 16 + operand % 16 > 15)
        &&& post.spec_c() == (a + operand > 255)
    } else if kind == 1 {
        &&& post.a == (a + operand + cv) % 256
        &&& post.spec_n() == false
        &&& post.spec_h() == (a % 16 + operand % 16 + cv > 15)
        &&& post.spec_c() == (a + operand + cv > 255)
    } else if kind == 2 {
        &&& post.a == (a + 256 - operand) % 256
        &&& post.spec_n() == true
        &&& post.spec_h() == (a % 16 < operand % 16)
        &&& post.spec_c() == (a < operand)
    } else if kind == 3 {
        &&& post.a == (a + 512 - operand - cv) % 256
        &&& post.spec_n() == true
        &&& post.spec_h() == (a % 16 < operand % 16 + cv)
        &&& post.spec_c() == (a < operand + cv)
    } else if kind == 4 {
        &&& post.a == (a & operand)
        &&& post.spec_n() == false
        &&& post.spec_h() == true
        &&& post.spec_c() == false
    } else if kind == 5 {
        &&& post.a == (a ^ operand)
        &&& post.spec_n() == false
        &&& post.spec_h() == false
        &&& post.spec_c() == false
    } else if kind == 6 {
        &&& post.a == (a | operand)
        &&& post.spec_n() == false
        &&& post.spec_h() == false
        &&& post.spec_c() == false
    } else {
        &&& post.a == a
        &&& post.spec_n() == true
        &&& post.spec_h() == (a % 16 < operand % 16)
        &&& post.spec_c() == (a < operand)
    }
}

/// What the 0xCB-prefixed instruction selected by `cb` does: a rotate,
/// shift or swap with Zero from the result, a BIT test, or a RES/SET
/// bit write. `fetched` is the register file after both opcode fetches;
/// `r` carries the consumed cycles.
pub open spec fn cb_post(
    fetched: Cpu,
    pre_m: Seq<u8>,
    cb: u8,
    post_cpu: Cpu,
    post_m: Seq<u8>,
    r: Result<u8, GbError>,
) -> bool {
    let reg = field(cb, 2, 0);
    let b = field(cb, 5, 3);
    let op = spec_r8_get(fetched, pre_m, reg);
    if cb < 0x40 {
        let rc: (u8, bool) = if cb < 0o10 {
            ((op << 1) | (op >> 7), op >> 7 == 1)
        } else if cb < 0o20 {
            ((op >> 1) | (op << 7), op & 1 == 1)
        } else if cb < 0o30 {
            (
                (op << 1) | (if fetched.spec_c() {
                    1u8
                } else {
                    0u8
                }),
                op >> 7 == 1,
            )
        } else if cb < 0o40 {
            (
                (op >> 1) | (if fetched.spec_c() {
                    0x80u8
                } else {
                    0u8
                }),
                op & 1 == 1,
            )
        } else if cb < 0o50 {
            (op << 1, op >> 7 == 1)
        } else if cb < 0o60 {
            ((op >> 1) | (op & 0x80), op & 1 == 1)
        } else if cb < 0o70 {
            ((op >> 4) | (op << 4), false)
        } else {
            (op >> 1, op & 1 == 1)
        };
        &&& (r is Err <==> reg == 6 && is_mirror_addr(fetched.spec_hl()))
        &&& (r matches Ok(c) ==> c == (if reg == 6 {
            4u8
        } else {
            2u8
        }) && post_cpu.spec_z() == (rc.0 == 0) && !post_cpu.spec_n() && !post_cpu.spec_h()
            && post_cpu.spec_c() == rc.1 && r8_written(
            (Cpu { f: post_cpu.f, ..fetched }),
            pre_m,
            post_cpu,
            post_m,
            reg,
            rc.0,
        ))
    } else if cb < 0x80 {
        &&& r == Result::<u8, GbError>::Ok(
            if reg == 6 {
                3u8
            } else {
                2u8
            },
        )
        &&& post_m == pre_m
        &&& post_cpu == (Cpu { f: post_cpu.f, ..fetched })
        &&& post_cpu.spec_z() == ((op >> b) & 1 == 0)
        &&& !post_cpu.spec_n()
        &&& post_cpu.spec_h()
        &&& post_cpu.spec_c() == fetched.spec_c()
    } else if cb < 0xC0 {
        &&& (r is Err <==> reg == 6 && is_mirror_addr(fetched.spec_hl()))
        &&& (r matches Ok(c) ==> c == (if reg == 6 {
            4u8
        } else {
            2u8
        }) && r8_written(fetched, pre_m, post_cpu, post_m, reg, op & !(1u8 << b)))
    } else {
        &&& (r is Err <==> reg == 6 && is_mirror_addr(fetched.spec_hl()))
        &&& (r matches Ok(c) ==> c == (if reg == 6 {
            4u8
        } else {
            2u8
        }) && r8_written(fetched, pre_m, post_cpu, post_m, reg, op | (1u8 << b)))
    }
}

/// What one instruction execution guarantees, whatever the opcode: the
/// result is classified exactly (illegal opcodes and STOP are the fatal
/// fetches, a rejected bus write the only other failure), the HALT, NOP,
/// DI, EI, JP and whole-ALU-block opcodes are pinned completely, and
/// under the HALT bug the fetch does not advance PC, so the byte after a
/// buggy HALT is decoded again as the next instruction's first byte.
pub open spec fn exec_post(
    pre_cpu: Cpu,
    pre_mem: Memory,
    post_cpu: Cpu,
    post_mem: Memory,
    r: Result<InstructionResult, GbError>,
    halt_bug: bool,
) -> bool {
    let op = pre_mem@[pre_cpu.pc as int];
    let fetched_pc = if halt_bug {
        pre_cpu.pc
    } else {
        pre_cpu.pc.wrapping_add(1)
    };
    &&& (r matches Ok(res) ==> res.is_halt == (op == 0x76) && 1 <= res.cycles <= 6)
    &&& (r matches Err(e) ==> illegal_opcode(op) || op == 0x10 || e matches GbError::MirrorRamWrite {
        ..
    })
    &&& (illegal_opcode(op) ==> r == Result::<InstructionResult, GbError>::Err(
        GbError::UnknownInstruction { opcode: op },
    ) && post_cpu == (Cpu { pc: fetched_pc, ..pre_cpu }) && post_mem == pre_mem)
    &&& (op == 0x10 ==> r == Result::<InstructionResult, GbError>::Err(GbError::Unimplemented)
        && post_cpu == (Cpu { pc: fetched_pc, ..pre_cpu }) && post_mem == pre_mem)
    &&& (op == 0x76 ==> r == Result::<InstructionResult, GbError>::Ok(
        InstructionResult { cycles: 1, is_halt: true },
    ) && post_cpu == (Cpu { pc: fetched_pc, ..pre_cpu }) && post_mem == pre_mem)
    &&& (op == 0x00 ==> r == Result::<InstructionResult, GbError>::Ok(
        InstructionResult { cycles: 1, is_halt: false },
    ) && post_cpu == (Cpu { pc: fetched_pc, ..pre_cpu }) && post_mem == pre_mem)
    &&& (op == 0xF3 ==> r == Result::<InstructionResult, GbError>::Ok(
        InstructionResult { cycles: 1, is_halt: false },
    ) && post_cpu == (Cpu { ime: false, pc: fetched_pc, ..pre_cpu }) && post_mem == pre_mem)
    &&& (op == 0xFB ==> r == Result::<InstructionResult, GbError>::Ok(
        InstructionResult { cycles: 1, is_halt: false },
    ) && post_cpu == (Cpu { ime: true, pc: fetched_pc, ..pre_cpu }) && post_mem == pre_mem)
    &&& (op == 0xC3 ==> r == Result::<InstructionResult, GbError>::Ok(
        InstructionResult { cycles: 4, is_halt: false },
    ) && post_cpu == (Cpu {
        pc: (Cpu { pc: fetched_pc, ..pre_cpu }).spec_n16(pre_mem@),
        ..pre_cpu
    }) && post_mem == pre_mem)
    &&& (0x80 <= op <= 0xBF ==> r == Result::<InstructionResult, GbError>::Ok(
        InstructionResult {
            cycles: if field(op, 2, 0) == 6 {
                2u8
            } else {
                1u8
            },
            is_halt: false,
        },
    ) && post_mem == pre_mem && alu_post(
        (Cpu { pc: fetched_pc, ..pre_cpu }),
        spec_r8_get((Cpu { pc: fetched_pc, ..pre_cpu }), pre_mem@, field(op, 2, 0)),
        ((op - 0x80) / 8) as u8,
        post_cpu,
    ))
    &&& ((op == 0xC6 || op == 0xCE || op == 0xD6 || op == 0xDE || op == 0xE6 || op == 0xEE || op
        == 0xF6 || op == 0xFE) ==> r == Result::<InstructionResult, GbError>::Ok(
        InstructionResult { cycles: 2, is_halt: false },
    ) && post_mem == pre_mem && alu_post(
        (Cpu { pc: fetched_pc.wrapping_add(1), ..pre_cpu }),
        pre_mem@[fetched_pc as int],
        ((op - 0xC0) / 8) as u8,
        post_cpu,
    ))
    &&& (0x40 <= op <= 0x7F && op != 0x76 ==> {
        let fetched = (Cpu { pc: fetched_pc, ..pre_cpu });
        let source = field(op, 2, 0);
        let dest = field(op, 5, 3);
        let v = spec_r8_get(fetched, pre_mem@, source);
        &&& (r is Err <==> dest == 6 && is_mirror_addr(fetched.spec_hl()))
        &&& (r matches Ok(ir) ==> ir == (InstructionResult {
            cycles: if source == 6 || dest == 6 {
                2u8
            } else {
                1u8
            },
            is_halt: false,
        }) && r8_written(fetched, pre_mem@, post_cpu, post_mem@, dest, v))
    })
    &&& (op < 0x40 && op % 8 == 4 ==> {
        let fetched = (Cpu { pc: fetched_pc, ..pre_cpu });
        let reg = field(op, 5, 3);
        let v = spec_r8_get(fetched, pre_mem@, reg);
        let res2 = v.wrapping_add(1);
        &&& (r is Err <==> reg == 6 && is_mirror_addr(fetched.spec_hl()))
        &&& (r matches Ok(ir) ==> ir == (InstructionResult {
            cycles: if reg == 6 {
                3u8
            } else {
                1u8
            },
            is_halt: false,
        }) && post_cpu.spec_z() == (res2 == 0) && post_cpu.spec_n() == false && post_cpu.spec_h()
            == (v % 16 == 15) && post_cpu.spec_c() == fetched.spec_c() && r8_written(
            (Cpu { f: post_cpu.f, ..fetched }),
            pre_mem@,
            post_cpu,
            post_mem@,
            reg,
            res2,
        ))
    })
    &&& (op < 0x40 && op % 8 == 5 ==> {
        let fetched = (Cpu { pc: fetched_pc, ..pre_cpu });
        let reg = field(op, 5, 3);
        let v = spec_r8_get(fetched, pre_mem@, reg);
        let res2 = v.wrapping_sub(1);
        &&& (r is Err <==> reg == 6 && is_mirror_addr(fetched.spec_hl()))
        &&& (r matches Ok(ir) ==> ir == (InstructionResult {
            cycles: if reg == 6 {
                3u8
            } else {
                1u8
            },
            is_halt: false,
        }) && post_cpu.spec_z() == (res2 == 0) && post_cpu.spec_n() == true && post_cpu.spec_h()
            == (v % 16 == 0) && post_cpu.spec_c() == fetched.spec_c() && r8_written(
            (Cpu { f: post_cpu.f, ..fetched }),
            pre_mem@,
            post_cpu,
            post_mem@,
            reg,
            res2,
        ))
    })
    &&& (op < 0x40 && op % 8 == 6 ==> {
        let fetched = (Cpu { pc: fetched_pc, ..pre_cpu });
        let reg = field(op, 5, 3);
        let v = pre_mem@[fetched_pc as int];
        &&& (r is Err <==> reg == 6 && is_mirror_addr(fetched.spec_hl()))
        &&& (r matches Ok(ir) ==> ir == (InstructionResult {
            cycles: if reg == 6 {
                3u8
            } else {
                2u8
            },
            is_halt: false,
        }) && r8_written(
            (Cpu { pc: fetched_pc.wrapping_add(1), ..pre_cpu }),
            pre_mem@,
            post_cpu,
            post_mem@,
            reg,
            v,
        ))
    })
    &&& (op < 0x40 && op % 16 == 1 ==> {
        let fetched = (Cpu { pc: fetched_pc, ..pre_cpu });
        r == Result::<InstructionResult, GbError>::Ok(
            InstructionResult { cycles: 3, is_halt: false },
        ) && post_mem == pre_mem && post_cpu == (Cpu {
            pc: fetched_pc.wrapping_add(2),
            ..pre_cpu
        }).with_r16(field(op, 5, 4), fetched.spec_n16(pre_mem@))
    })
    &&& (op < 0x40 && op % 16 == 3 ==> {
        let fetched = (Cpu { pc: fetched_pc, ..pre_cpu });
        let reg = field(op, 5, 4);
        r == Result::<InstructionResult, GbError>::Ok(
            InstructionResult { cycles: 2, is_halt: false },
        ) && post_mem == pre_mem && post_cpu == fetched.with_r16(
            reg,
            fetched.spec_r16(reg).wrapping_add(1),
        )
    })
    &&& (op < 0x40 && op % 16 == 11 ==> {
        let fetched = (Cpu { pc: fetched_pc, ..pre_cpu });
        let reg = field(op, 5, 4);
        r == Result::<InstructionResult, GbError>::Ok(
            InstructionResult { cycles: 2, is_halt: false },
        ) && post_mem == pre_mem && post_cpu == fetched.with_r16(
            reg,
            fetched.spec_r16(reg).wrapping_sub(1),
        )
    })
    &&& (op < 0x40 && op % 16 == 9 ==> {
        let fetched = (Cpu { pc: fetched_pc, ..pre_cpu });
        let hl = fetched.spec_hl();
        let operand = fetched.spec_r16(field(op, 5, 4));
        &&& r == Result::<InstructionResult, GbError>::Ok(
            InstructionResult { cycles: 2, is_halt: false },
        )
        &&& post_mem == pre_mem
        &&& post_cpu == (Cpu { f: post_cpu.f, ..fetched }).with_r16(2, hl.wrapping_add(operand))
        &&& post_cpu.spec_z() == fetched.spec_z()
        &&& post_cpu.spec_n() == false
        &&& post_cpu.spec_h() == (hl % 0x1000 + operand % 0x1000 > 0xFFF)
        &&& post_cpu.spec_c() == (hl + operand > 0xFFFF)
    })
    &&& (op < 0x40 && op % 16 == 2 ==> {
        let fetched = (Cpu { pc: fetched_pc, ..pre_cpu });
        let reg = field(op, 5, 4);
        let addr = fetched.r16_mem_addr(reg);
        &&& (r is Err <==> is_mirror_addr(addr))
        &&& (r matches Ok(ir) ==> ir == (InstructionResult { cycles: 2, is_halt: false })
            && post_cpu == fetched.r16_mem_cpu(reg) && post_mem@ == bus_write_ok(
            pre_mem@,
            addr,
            pre_cpu.a,
        ))
    })
    &&& (op < 0x40 && op % 16 == 10 ==> {
        let fetched = (Cpu { pc: fetched_pc, ..pre_cpu });
        let reg = field(op, 5, 4);
        &&& r == Result::<InstructionResult, GbError>::Ok(
            InstructionResult { cycles: 2, is_halt: false },
        )
        &&& post_mem == pre_mem
        &&& post_cpu == (Cpu {
            a: pre_mem@[fetched.r16_mem_addr(reg) as int],
            ..fetched.r16_mem_cpu(reg)
        })
    })
    &&& (op == 0x08 ==> {
        let fetched = (Cpu { pc: fetched_pc, ..pre_cpu });
        let addr = fetched.spec_n16(pre_mem@);
        &&& (r is Err <==> is_mirror_addr(addr) || is_mirror_addr(addr.wrapping_add(1)))
        &&& (r matches Ok(ir) ==> ir == (InstructionResult { cycles: 5, is_halt: false })
            && post_cpu == (Cpu { pc: fetched_pc.wrapping_add(2), ..pre_cpu }) && post_mem@
            == bus_write_ok(
            bus_write_ok(pre_mem@, addr, (pre_cpu.sp % 0x100) as u8),
            addr.wrapping_add(1),
            (pre_cpu.sp / 0x100) as u8,
        ))
    })
    &&& (op == 0x18 ==> r == Result::<InstructionResult, GbError>::Ok(
        InstructionResult { cycles: 3, is_halt: false },
    ) && post_mem == pre_mem && post_cpu == (Cpu {
        pc: fetched_pc.wrapping_add(1).wrapping_add_signed(
            (pre_mem@[fetched_pc as int] as i8) as i16,
        ),
        ..pre_cpu
    }))
    &&& ((op == 0x20 || op == 0x28 || op == 0x30 || op == 0x38) ==> {
        let fetched = (Cpu { pc: fetched_pc, ..pre_cpu });
        let taken = fetched.spec_cond(field(op, 4, 3));
        &&& post_mem == pre_mem
        &&& r == Result::<InstructionResult, GbError>::Ok(
            InstructionResult {
                cycles: if taken {
                    3u8
                } else {
                    2u8
                },
                is_halt: false,
            },
        )
        &&& post_cpu == (Cpu {
            pc: if taken {
                fetched_pc.wrapping_add(1).wrapping_add_signed(
                    (pre_mem@[fetched_pc as int] as i8) as i16,
                )
            } else {
                fetched_pc.wrapping_add(1)
            },
            ..pre_cpu
        })
    })
    &&& (op == 0x07 ==> r == Result::<InstructionResult, GbError>::Ok(
        InstructionResult { cycles: 1, is_halt: false },
    ) && post_mem == pre_mem && post_cpu == (Cpu {
        a: (pre_cpu.a << 1) | (pre_cpu.a >> 7),
        f: post_cpu.f,
        pc: fetched_pc,
        ..pre_cpu
    }) && !post_cpu.spec_z() && !post_cpu.spec_n() && !post_cpu.spec_h() && post_cpu.spec_c() == (
    pre_cpu.a >> 7 == 1))
    &&& (op == 0x0F ==> r == Result::<InstructionResult, GbError>::Ok(
        InstructionResult { cycles: 1, is_halt: false },
    ) && post_mem == pre_mem && post_cpu == (Cpu {
        a: (pre_cpu.a >> 1) | (pre_cpu.a << 7),
        f: post_cpu.f,
        pc: fetched_pc,
        ..pre_cpu
    }) && !post_cpu.spec_z() && !post_cpu.spec_n() && !post_cpu.spec_h() && post_cpu.spec_c() == (
    pre_cpu.a & 1 == 1))
    &&& (op == 0x17 ==> r == Result::<InstructionResult, GbError>::Ok(
        InstructionResult { cycles: 1, is_halt: false },
    ) && post_mem == pre_mem && post_cpu == (Cpu {
        a: (pre_cpu.a << 1) | (if pre_cpu.spec_c() {
            1u8
        } else {
            0u8
        }),
        f: post_cpu.f,
        pc: fetched_pc,
        ..pre_cpu
    }) && !post_cpu.spec_z() && !post_cpu.spec_n() && !post_cpu.spec_h() && post_cpu.spec_c() == (
    pre_cpu.a >> 7 == 1))
    &&& (op == 0x1F ==> r == Result::<InstructionResult, GbError>::Ok(
        InstructionResult { cycles: 1, is_halt: false },
    ) && post_mem == pre_mem && post_cpu == (Cpu {
        a: (pre_cpu.a >> 1) | (if pre_cpu.spec_c() {
            0x80u8
        } else {
            0u8
        }),
        f: post_cpu.f,
        pc: fetched_pc,
        ..pre_cpu
    }) && !post_cpu.spec_z() && !post_cpu.spec_n() && !post_cpu.spec_h() && post_cpu.spec_c() == (
    pre_cpu.a & 1 == 1))
    &&& (op == 0x27 ==> r == Result::<InstructionResult, GbError>::Ok(
        InstructionResult { cycles: 1, is_halt: false },
    ) && post_mem == pre_mem && post_cpu == (Cpu {
        a: post_cpu.a,
        f: post_cpu.f,
        pc: fetched_pc,
        ..pre_cpu
    }) && post_cpu.spec_n() == pre_cpu.spec_n() && !post_cpu.spec_h() && post_cpu.spec_z() == (
    post_cpu.a == 0) && (!pre_cpu.spec_n() ==> post_cpu.a == daa_add_result(
        pre_cpu.a,
        pre_cpu.spec_h(),
        pre_cpu.spec_c(),
    ) && post_cpu.spec_c() == daa_add_carry(pre_cpu.a, pre_cpu.spec_c())) && (pre_cpu.spec_n()
        ==> post_cpu.a == daa_sub_result(pre_cpu.a, pre_cpu.spec_h(), pre_cpu.spec_c())
        && post_cpu.spec_c() == pre_cpu.spec_c()))
    &&& (op == 0x2F ==> r == Result::<InstructionResult, GbError>::Ok(
        InstructionResult { cycles: 1, is_halt: false },
    ) && post_mem == pre_mem && post_cpu == (Cpu {
        a: !pre_cpu.a,
        f: post_cpu.f,
        pc: fetched_pc,
        ..pre_cpu
    }) && post_cpu.spec_z() == pre_cpu.spec_z() && post_cpu.spec_n() && post_cpu.spec_h()
        && post_cpu.spec_c() == pre_cpu.spec_c())
    &&& (op == 0x37 ==> r == Result::<InstructionResult, GbError>::Ok(
        InstructionResult { cycles: 1, is_halt: false },
    ) && post_mem == pre_mem && post_cpu == (Cpu { f: post_cpu.f, pc: fetched_pc, ..pre_cpu })
        && post_cpu.spec_z() == pre_cpu.spec_z() && !post_cpu.spec_n() && !post_cpu.spec_h()
        && post_cpu.spec_c())
    &&& (op == 0x3F ==> r == Result::<InstructionResult, GbError>::Ok(
        InstructionResult { cycles: 1, is_halt: false },
    ) && post_mem == pre_mem && post_cpu == (Cpu { f: post_cpu.f, pc: fetched_pc, ..pre_cpu })
        && post_cpu.spec_z() == pre_cpu.spec_z() && !post_cpu.spec_n() && !post_cpu.spec_h()
        && post_cpu.spec_c() == !pre_cpu.spec_c())
    &&& ((op == 0xC0 || op == 0xC8 || op == 0xD0 || op == 0xD8) ==> {
        let fetched = (Cpu { pc: fetched_pc, ..pre_cpu });
        let taken = fetched.spec_cond(field(op, 4, 3));
        &&& post_mem == pre_mem
        &&& r == Result::<InstructionResult, GbError>::Ok(
            InstructionResult {
                cycles: if taken {
                    5u8
                } else {
                    2u8
                },
                is_halt: false,
            },
        )
        &&& post_cpu == if taken {
            (Cpu {
                pc: fetched.spec_stack_top(pre_mem@),
                sp: pre_cpu.sp.wrapping_add(2),
                ..pre_cpu
            })
        } else {
            fetched
        }
    })
    &&& (op == 0xC9 ==> r == Result::<InstructionResult, GbError>::Ok(
        InstructionResult { cycles: 4, is_halt: false },
    ) && post_mem == pre_mem && post_cpu == (Cpu {
        pc: (Cpu { pc: fetched_pc, ..pre_cpu }).spec_stack_top(pre_mem@),
        sp: pre_cpu.sp.wrapping_add(2),
        ..pre_cpu
    }))
    &&& (op == 0xD9 ==> r == Result::<InstructionResult, GbError>::Ok(
        InstructionResult { cycles: 4, is_halt: false },
    ) && post_mem == pre_mem && post_cpu == (Cpu {
        pc: (Cpu { pc: fetched_pc, ..pre_cpu }).spec_stack_top(pre_mem@),
        sp: pre_cpu.sp.wrapping_add(2),
        ime: true,
        ..pre_cpu
    }))
    &&& ((op == 0xC2 || op == 0xCA || op == 0xD2 || op == 0xDA) ==> {
        let fetched = (Cpu { pc: fetched_pc, ..pre_cpu });
        let taken = fetched.spec_cond(field(op, 4, 3));
        &&& post_mem == pre_mem
        &&& r == Result::<InstructionResult, GbError>::Ok(
            InstructionResult {
                cycles: if taken {
                    4u8
                } else {
                    3u8
                },
                is_halt: false,
            },
        )
        &&& post_cpu == (Cpu {
            pc: if taken {
                fetched.spec_n16(pre_mem@)
            } else {
                fetched_pc.wrapping_add(2)
            },
            ..pre_cpu
        })
    })
    &&& (op == 0xE9 ==> r == Result::<InstructionResult, GbError>::Ok(
        InstructionResult { cycles: 1, is_halt: false },
    ) && post_mem == pre_mem && post_cpu == (Cpu { pc: pre_cpu.spec_hl(), ..pre_cpu }))
    &&& ((op == 0xC4 || op == 0xCC || op == 0xD4 || op == 0xDC) ==> {
        let fetched = (Cpu { pc: fetched_pc, ..pre_cpu });
        let taken = fetched.spec_cond(field(op, 4, 3));
        let ret_pc = fetched_pc.wrapping_add(2);
        &&& (r is Err <==> taken && (is_mirror_addr(pre_cpu.sp.wrapping_sub(1)) || is_mirror_addr(
            pre_cpu.sp.wrapping_sub(2),
        )))
        &&& (r matches Ok(ir) ==> if taken {
            &&& ir == (InstructionResult { cycles: 6, is_halt: false })
            &&& post_cpu == (Cpu {
                pc: fetched.spec_n16(pre_mem@),
                sp: pre_cpu.sp.wrapping_sub(2),
                ..pre_cpu
            })
            &&& post_mem@ == bus_write_ok(
                bus_write_ok(pre_mem@, pre_cpu.sp.wrapping_sub(1), (ret_pc / 0x100) as u8),
                pre_cpu.sp.wrapping_sub(2),
                (ret_pc % 0x100) as u8,
            )
        } else {
            &&& ir == (InstructionResult { cycles: 3, is_halt: false })
            &&& post_cpu == (Cpu { pc: ret_pc, ..pre_cpu })
            &&& post_mem == pre_mem
        })
    })
    &&& (op == 0xCD ==> {
        let fetched = (Cpu { pc: fetched_pc, ..pre_cpu });
        let ret_pc = fetched_pc.wrapping_add(2);
        &&& (r is Err <==> is_mirror_addr(pre_cpu.sp.wrapping_sub(1)) || is_mirror_addr(
            pre_cpu.sp.wrapping_sub(2),
        ))
        &&& (r matches Ok(ir) ==> ir == (InstructionResult { cycles: 6, is_halt: false })
            && post_cpu == (Cpu {
            pc: fetched.spec_n16(pre_mem@),
            sp: pre_cpu.sp.wrapping_sub(2),
            ..pre_cpu
        }) && post_mem@ == bus_write_ok(
            bus_write_ok(pre_mem@, pre_cpu.sp.wrapping_sub(1), (ret_pc / 0x100) as u8),
            pre_cpu.sp.wrapping_sub(2),
            (ret_pc % 0x100) as u8,
        ))
    })
    &&& (0xC0 <= op && op % 8 == 7 ==> {
        let vector = (field(op, 5, 3) * 8) as u16;
        &&& (r is Err <==> is_mirror_addr(pre_cpu.sp.wrapping_sub(1)) || is_mirror_addr(
            pre_cpu.sp.wrapping_sub(2),
        ))
        &&& (r matches Ok(ir) ==> ir == (InstructionResult { cycles: 4, is_halt: false })
            && post_cpu == (Cpu {
            pc: vector,
            sp: pre_cpu.sp.wrapping_sub(2),
            ..pre_cpu
        }) && post_mem@ == bus_write_ok(
            bus_write_ok(pre_mem@, pre_cpu.sp.wrapping_sub(1), (fetched_pc / 0x100) as u8),
            pre_cpu.sp.wrapping_sub(2),
            (fetched_pc % 0x100) as u8,
        ))
    })
    &&& ((op == 0xC1 || op == 0xD1 || op == 0xE1 || op == 0xF1) ==> {
        let fetched = (Cpu { pc: fetched_pc, ..pre_cpu });
        let reg = field(op, 5, 4);
        let v = fetched.spec_stack_top(pre_mem@);
        let popped = (Cpu { pc: fetched_pc, sp: pre_cpu.sp.wrapping_add(2), ..pre_cpu });
        &&& post_mem == pre_mem
        &&& r == Result::<InstructionResult, GbError>::Ok(
            InstructionResult { cycles: 3, is_halt: false },
        )
        &&& post_cpu == if reg < 3 {
            popped.with_r16(reg, v)
        } else {
            (Cpu { a: (v / 0x100) as u8, f: ((v % 0x100) as u8) & 0xF0, ..popped })
        }
    })
    &&& ((op == 0xC5 || op == 0xD5 || op == 0xE5 || op == 0xF5) ==> {
        let reg = field(op, 5, 4);
        let v = if reg < 3 {
            pre_cpu.spec_r16(reg)
        } else {
            pre_cpu.spec_af()
        };
        &&& (r is Err <==> is_mirror_addr(pre_cpu.sp.wrapping_sub(1)) || is_mirror_addr(
            pre_cpu.sp.wrapping_sub(2),
        ))
        &&& (r matches Ok(ir) ==> ir == (InstructionResult { cycles: 4, is_halt: false })
            && post_cpu == (Cpu {
            pc: fetched_pc,
            sp: pre_cpu.sp.wrapping_sub(2),
            ..pre_cpu
        }) && post_mem@ == bus_write_ok(
            bus_write_ok(pre_mem@, pre_cpu.sp.wrapping_sub(1), (v / 0x100) as u8),
            pre_cpu.sp.wrapping_sub(2),
            (v % 0x100) as u8,
        ))
    })
    &&& (op == 0xE2 ==> r == Result::<InstructionResult, GbError>::Ok(
        InstructionResult { cycles: 2, is_halt: false },
    ) && post_cpu == (Cpu { pc: fetched_pc, ..pre_cpu }) && post_mem@ == bus_write_ok(
        pre_mem@,
        (0xFF00 + pre_cpu.c) as u16,
        pre_cpu.a,
    ))
    &&& (op == 0xE0 ==> r == Result::<InstructionResult, GbError>::Ok(
        InstructionResult { cycles: 3, is_halt: false },
    ) && post_cpu == (Cpu { pc: fetched_pc.wrapping_add(1), ..pre_cpu }) && post_mem@
        == bus_write_ok(pre_mem@, (0xFF00 + pre_mem@[fetched_pc as int]) as u16, pre_cpu.a))
    &&& (op == 0xEA ==> {
        let addr = (Cpu { pc: fetched_pc, ..pre_cpu }).spec_n16(pre_mem@);
        &&& (r is Err <==> is_mirror_addr(addr))
        &&& (r matches Ok(ir) ==> ir == (InstructionResult { cycles: 4, is_halt: false })
            && post_cpu == (Cpu { pc: fetched_pc.wrapping_add(2), ..pre_cpu }) && post_mem@
            == bus_write_ok(pre_mem@, addr, pre_cpu.a))
    })
    &&& (op == 0xF2 ==> r == Result::<InstructionResult, GbError>::Ok(
        InstructionResult { cycles: 2, is_halt: false },
    ) && post_mem == pre_mem && post_cpu == (Cpu {
        a: pre_mem@[0xFF00 + pre_cpu.c],
        pc: fetched_pc,
        ..pre_cpu
    }))
    &&& (op == 0xF0 ==> r == Result::<InstructionResult, GbError>::Ok(
        InstructionResult { cycles: 3, is_halt: false },
    ) && post_mem == pre_mem && post_cpu == (Cpu {
        a: pre_mem@[0xFF00 + pre_mem@[fetched_pc as int]],
        pc: fetched_pc.wrapping_add(1),
        ..pre_cpu
    }))
    &&& (op == 0xFA ==> r == Result::<InstructionResult, GbError>::Ok(
        InstructionResult { cycles: 4, is_halt: false },
    ) && post_mem == pre_mem && post_cpu == (Cpu {
        a: pre_mem@[(Cpu { pc: fetched_pc, ..pre_cpu }).spec_n16(pre_mem@) as int],
        pc: fetched_pc.wrapping_add(2),
        ..pre_cpu
    }))
    &&& (op == 0xE8 ==> {
        let operand = pre_mem@[fetched_pc as int];
        &&& post_mem == pre_mem
        &&& r == Result::<InstructionResult, GbError>::Ok(
            InstructionResult { cycles: 4, is_halt: false },
        )
        &&& post_cpu == (Cpu {
            sp: pre_cpu.sp.wrapping_add_signed((operand as i8) as i16),
            f: post_cpu.f,
            pc: fetched_pc.wrapping_add(1),
            ..pre_cpu
        })
        &&& !post_cpu.spec_z()
        &&& !post_cpu.spec_n()
        &&& post_cpu.spec_h() == (pre_cpu.sp % 16 + operand % 16 > 15)
        &&& post_cpu.spec_c() == (pre_cpu.sp % 256 + operand > 255)
    })
    &&& (op == 0xF8 ==> {
        let operand = pre_mem@[fetched_pc as int];
        let v = pre_cpu.sp.wrapping_add_signed((operand as i8) as i16);
        &&& post_mem == pre_mem
        &&& r == Result::<InstructionResult, GbError>::Ok(
            InstructionResult { cycles: 3, is_halt: false },
        )
        &&& post_cpu == (Cpu {
            h: (v / 0x100) as u8,
            l: (v % 0x100) as u8,
            f: post_cpu.f,
            pc: fetched_pc.wrapping_add(1),
            ..pre_cpu
        })
        &&& !post_cpu.spec_z()
        &&& !post_cpu.spec_n()
        &&& post_cpu.spec_h() == (pre_cpu.sp % 16 + operand % 16 > 15)
        &&& post_cpu.spec_c() == (pre_cpu.sp % 256 + operand > 255)
    })
    &&& (op == 0xF9 ==> r == Result::<InstructionResult, GbError>::Ok(
        InstructionResult { cycles: 2, is_halt: false },
    ) && post_mem == pre_mem && post_cpu == (Cpu {
        sp: pre_cpu.spec_hl(),
        pc: fetched_pc,
        ..pre_cpu
    }))
    &&& (op == 0xCB ==> {
        let fetched = (Cpu { pc: fetched_pc.wrapping_add(1), ..pre_cpu });
        let cb = pre_mem@[fetched_pc as int];
        &&& (r matches Ok(ir) ==> ir.is_halt == false && cb_post(
            fetched,
            pre_mem@,
            cb,
            post_cpu,
            post_mem@,
            Ok(ir.cycles),
        ))
        &&& (r matches Err(e) ==> cb_post(fetched, pre_mem@, cb, post_cpu, post_mem@, Err(e)))
    })
}

impl Cpu {
    /// Fetches, decodes, and executes one instruction. With `halt_bug`
    /// the program counter is not advanced past the fetched opcode.
    fn execute_next_instruction_impl(&mut self, memory: &mut Memory, halt_bug: bool) -> (r: Result<
        InstructionResult,
        GbError,
    >)
        requires
            old(self).wf(),
            old(memory).wf(),
        ensures
            final(self).wf(),
            final(memory).wf(),
            exec_post(*old(self), *old(memory), *final(self), *final(memory), r, halt_bug),
    {
        let ghost pre_cpu = *old(self);
        let ghost pre_mem = *old(memory);
        let instruction = self.read_and_increment_pc(memory);
        if halt_bug {
            self.pc = self.pc.wrapping_sub(1);
        }
        if instruction < 0o300 {
            self.run_instruction_low(memory, instruction, Ghost(pre_cpu), Ghost(pre_mem), Ghost(halt_bug))
        } else {
            self.run_instruction_high(memory, instruction, Ghost(pre_cpu), Ghost(pre_mem), Ghost(halt_bug))
        }
    }

    /// Decodes and runs an opcode below 0xC0, after the fetch.
    #[verifier::rlimit(100)]
    fn run_instruction_low(
        &mut self,
        memory: &mut Memory,
        instruction: u8,
        Ghost(pre_cpu): Ghost<Cpu>,
        Ghost(pre_mem): Ghost<Memory>,
        Ghost(halt_bug): Ghost<bool>,
    ) -> (r: Result<InstructionResult, GbError>)
        requires
            instruction < 0xC0,
            old(self).wf(),
            old(memory).wf(),
            pre_cpu.wf(),
            instruction == pre_mem@[pre_cpu.pc as int],
            *old(self) == (Cpu {
                pc: if halt_bug {
                    pre_cpu.pc
                } else {
                    pre_cpu.pc.wrapping_add(1)
                },
                ..pre_cpu
            }),
            *old(memory) == pre_mem,
        ensures
            final(self).wf(),
            final(memory).wf(),
            exec_post(pre_cpu, pre_mem, *final(self), *final(memory), r, halt_bug),
    {
        let cycles_result: Result<u8, GbError> = if instruction == 0o0 {
            Ok(self.nop())
        } else if instruction == 0o166 {
            Ok(self.halt())
        } else if instruction == 0o20 {
            self.stop()
        } else if instruction == 0o01 || instruction == 0o21 || instruction == 0o41 || instruction
            == 0o61 {
            Ok(self.ld_r16_n16(memory, instruction))
        } else if instruction == 0o02 || instruction == 0o22 || instruction == 0o42 || instruction
            == 0o62 {
            self.ld_ind_r16_a(memory, instruction)
        } else if instruction == 0o12 || instruction == 0o32 || instruction == 0o52 || instruction
            == 0o72 {
            Ok(self.ld_a_ind_r16(memory, instruction))
        } else if instruction == 0o10 {
            self.ld_ind_n16_sp(memory)
        } else if instruction == 0o03 || instruction == 0o23 || instruction == 0o43 || instruction
            == 0o63 {
            Ok(self.inc_r16(instruction))
        } else if instruction == 0o13 || instruction == 0o33 || instruction == 0o53 || instruction
            == 0o73 {
            Ok(self.dec_r16(instruction))
        } else if instruction == 0o11 || instruction == 0o31 || instruction == 0o51 || instruction
            == 0o71 {
            Ok(self.add_hl_r16(instruction))
        } else if instruction == 0o04 || instruction == 0o14 || instruction == 0o24 || instruction
            == 0o34 || instruction == 0o44 || instruction == 0o54 || instruction == 0o64
            || instruction == 0o74 {
            self.inc_r8(memory, instruction)
        } else if instruction == 0o05 || instruction == 0o15 || instruction == 0o25 || instruction
            == 0o35 || instruction == 0o45 || instruction == 0o55 || instruction == 0o65
            || instruction == 0o75 {
            self.dec_r8(memory, instruction)
        } else if instruction == 0o06 || instruction == 0o16 || instruction == 0o26 || instruction
            == 0o36 || instruction == 0o46 || instruction == 0o56 || instruction == 0o66
            || instruction == 0o76 {
            self.ld_r8_n8(memory, instruction)
        } else if instruction == 0o07 {
            Ok(self.rlca())
        } else if instruction == 0o17 {
            Ok(self.rrca())
        } else if instruction == 0o27 {
            Ok(self.rla())
        } else if instruction == 0o37 {
            Ok(self.rra())
        } else if instruction == 0o47 {
            Ok(self.daa())
        } else if instruction == 0o57 {
            Ok(self.cpl())
        } else if instruction == 0o67 {
            Ok(self.scf())
        } else if instruction == 0o77 {
            Ok(self.ccf())
        } else if instruction == 0o30 {
            Ok(self.jr_n8(memory))
        } else if instruction == 0o40 || instruction == 0o50 || instruction == 0o60 || instruction
            == 0o70 {
            Ok(self.jr_cond_n8(memory, instruction))
        } else if 0o100 <= instruction && instruction <= 0o177 {
            self.ld_r8_r8(memory, instruction)
        } else if instruction <= 0o207 {
            Ok(self.add_a_r8(memory, instruction))
        } else if instruction <= 0o217 {
            Ok(self.adc_a_r8(memory, instruction))
        } else if instruction <= 0o227 {
            Ok(self.sub_a_r8(memory, instruction))
        } else if instruction <= 0o237 {
            Ok(self.sbc_a_r8(memory, instruction))
        } else if instruction <= 0o247 {
            Ok(self.and_a_r8(memory, instruction))
        } else if instruction <= 0o257 {
            Ok(self.xor_a_r8(memory, instruction))
        } else if instruction <= 0o267 {
            Ok(self.or_a_r8(memory, instruction))
        } else if instruction <= 0o277 {
            Ok(self.cp_a_r8(memory, instruction))
        } else {
            Err(GbError::UnknownInstruction { opcode: instruction })
        };
        let cycles = cycles_result?;
        Ok(InstructionResult { cycles, is_halt: instruction == 0o166 })
    }

    /// Decodes and runs an opcode at or above 0xC0, after the fetch.
    #[verifier::rlimit(100)]
    fn run_instruction_high(
        &mut self,
        memory: &mut Memory,
        instruction: u8,
        Ghost(pre_cpu): Ghost<Cpu>,
        Ghost(pre_mem): Ghost<Memory>,
        Ghost(halt_bug): Ghost<bool>,
    ) -> (r: Result<InstructionResult, GbError>)
        requires
            instruction >= 0xC0,
            old(self).wf(),
            old(memory).wf(),
            pre_cpu.wf(),
            instruction == pre_mem@[pre_cpu.pc as int],
            *old(self) == (Cpu {
                pc: if halt_bug {
                    pre_cpu.pc
                } else {
                    pre_cpu.pc.wrapping_add(1)
                },
                ..pre_cpu
            }),
            *old(memory) == pre_mem,
        ensures
            final(self).wf(),
            final(memory).wf(),
            exec_post(pre_cpu, pre_mem, *final(self), *final(memory), r, halt_bug),
    {
        let cycles_result: Result<u8, GbError> = if instruction == 0o306 {
            Ok(self.add_a_n8(memory))
        } else if instruction == 0o316 {
            Ok(self.adc_a_n8(memory))
        } else if instruction == 0o326 {
            Ok(self.sub_a_n8(memory))
        } else if instruction == 0o336 {
            Ok(self.sbc_a_n8(memory))
        } else if instruction == 0o346 {
            Ok(self.and_a_n8(memory))
        } else if instruction == 0o356 {
            Ok(self.xor_a_n8(memory))
        } else if instruction == 0o366 {
            Ok(self.or_a_n8(memory))
        } else if instruction == 0o376 {
            Ok(self.cp_a_n8(memory))
        } else if instruction == 0o300 || instruction == 0o310 || instruction == 0o320
            || instruction == 0o330 {
            Ok(self.ret_cond(memory, instruction))
        } else if instruction == 0o311 {
            Ok(self.ret(memory))
        } else if instruction == 0o331 {
            Ok(self.reti(memory))
        } else if instruction == 0o302 || instruction == 0o312 || instruction == 0o322
            || instruction == 0o332 {
            Ok(self.jp_cond_n16(memory, instruction))
        } else if instruction == 0o303 {
            Ok(self.jp_n16(memory))
        } else if instruction == 0o351 {
            Ok(self.jp_hl())
        } else if instruction == 0o304 || instruction == 0o314 || instruction == 0o324
            || instruction == 0o334 {
            self.call_cond_n16(memory, instruction)
        } else if instruction == 0o315 {
            self.call_n16(memory)
        } else if instruction == 0o307 || instruction == 0o317 || instruction == 0o327
            || instruction == 0o337 || instruction == 0o347 || instruction == 0o357 || instruction
            == 0o367 || instruction == 0o377 {
            self.rst(memory, instruction)
        } else if instruction == 0o301 || instruction == 0o321 || instruction == 0o341
            || instruction == 0o361 {
            Ok(self.pop(memory, instruction))
        } else if instruction == 0o305 || instruction == 0o325 || instruction == 0o345
            || instruction == 0o365 {
            self.push(memory, instruction)
        } else if instruction == 0o313 {
            self.prefix(memory)
        } else if instruction == 0o342 {
            Ok(self.ldh_ind_c_a(memory))
        } else if instruction == 0o340 {
            Ok(self.ldh_ind_n8_a(memory))
        } else if instruction == 0o352 {
            self.ld_ind_n16_a(memory)
        } else if instruction == 0o362 {
            Ok(self.ldh_a_ind_c(memory))
        } else if instruction == 0o360 {
            Ok(self.ldh_a_ind_n8(memory))
        } else if instruction == 0o372 {
            Ok(self.ld_a_ind_n16(memory))
        } else if instruction == 0o350 {
            Ok(self.add_sp_n8(memory))
        } else if instruction == 0o370 {
            Ok(self.ld_hl_sp_plus_n8(memory))
        } else if instruction == 0o371 {
            Ok(self.ld_sp_hl())
        } else if instruction == 0o363 {
            Ok(self.di())
        } else if instruction == 0o373 {
            Ok(self.ei())
        } else {
            Err(GbError::UnknownInstruction { opcode: instruction })
        };
        let cycles = cycles_result?;
        Ok(InstructionResult { cycles, is_halt: instruction == 0o166 })
    }

    /// Executes the next instruction normally.
    pub fn execute_next_instruction(&mut self, memory: &mut Memory) -> (r: Result<
        InstructionResult,
        GbError,
    >)
        requires
            old(self).wf(),
            old(memory).wf(),
        ensures
            final(self).wf(),
            final(memory).wf(),
            exec_post(*old(self), *old(memory), *final(self), *final(memory), r, false),
    {
        self.execute_next_instruction_impl(memory, false)
    }

    /// Executes the next instruction with the HALT-bug fetch: the opcode
    /// is read at PC but PC is not advanced past it, so that byte is
    /// fetched a second time by the following instruction.
    pub fn execute_next_instruction_with_halt_bug(&mut self, memory: &mut Memory) -> (r: Result<
        InstructionResult,
        GbError,
    >)
        requires
            old(self).wf(),
            old(memory).wf(),
        ensures
            final(self).wf(),
            final(memory).wf(),
            exec_post(*old(self), *old(memory), *final(self), *final(memory), r, true),
    {
        self.execute_next_instruction_impl(memory, true)
    }
}

} // verus!
