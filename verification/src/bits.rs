//! Bit-manipulation helpers shared by the CPU, interrupt, and video units.

use vstd::prelude::*;

verus! {

/// True when bit `i` (0 = least significant) of `v` is set.
pub open spec fn bit_set(v: u8, i: u8) -> bool {
    (v >> i) & 1 == 1
}

/// The lowest set bit of `v` as a one-hot byte (0 when `v == 0`).
pub open spec fn lowest_bit(v: u8) -> u8 {
    if v & 0x01 != 0 {
        0x01
    } else if v & 0x02 != 0 {
        0x02
    } else if v & 0x04 != 0 {
        0x04
    } else if v & 0x08 != 0 {
        0x08
    } else if v & 0x10 != 0 {
        0x10
    } else if v & 0x20 != 0 {
        0x20
    } else if v & 0x40 != 0 {
        0x40
    } else if v & 0x80 != 0 {
        0x80
    } else {
        0x00
    }
}

/// Isolates the lowest set bit of `val` (two's-complement trick `v & -v`).
pub fn get_lsb(val: u8) -> (r: u8)
    ensures
        r == lowest_bit(val),
{
    let r = val & (!val).wrapping_add(1);
    proof {
        assert(val & (!val).wrapping_add(1) == lowest_bit(val)) by (bit_vector);
    }
    r
}

/// Clears bit `bit` of `val`, leaving every other bit unchanged.
pub fn clear_bit(val: u8, bit: u8) -> (r: u8)
    requires
        bit < 8,
    ensures
        r == val & !(1u8 << bit),
        !bit_set(r, bit),
        forall|i: u8| i < 8 && i != bit ==> bit_set(r, i) == bit_set(val, i),
{
    let r = val & !(1u8 << bit);
    proof {
        assert(!bit_set(val & !(1u8 << bit), bit) && forall|i: u8|
            i < 8 && i != bit ==> bit_set(val & !(1u8 << bit), i) == bit_set(val, i))
            by (bit_vector)
            requires
                bit < 8,
        ;
    }
    r
}

/// Sets bit `bit` of `val`, leaving every other bit unchanged.
pub fn set_bit(val: u8, bit: u8) -> (r: u8)
    requires
        bit < 8,
    ensures
        r == val | (1u8 << bit),
        bit_set(r, bit),
        forall|i: u8| i < 8 && i != bit ==> bit_set(r, i) == bit_set(val, i),
{
    let r = val | (1u8 << bit);
    proof {
        assert(bit_set(val | (1u8 << bit), bit) && forall|i: u8|
            i < 8 && i != bit ==> bit_set(val | (1u8 << bit), i) == bit_set(val, i))
            by (bit_vector)
            requires
                bit < 8,
        ;
    }
    r
}

/// The bit field of `instruction` from `low_bit` up to and including `high_bit`,
/// shifted down so the field's lowest bit lands at bit 0.
pub open spec fn field(instruction: u8, high_bit: u8, low_bit: u8) -> u8 {
    (instruction >> low_bit) & (((1u8 << ((1 + high_bit - low_bit) as u8)) - 1) as u8)
}

/// Extracts bits `high_bit..=low_bit` of `instruction`.
pub fn get_bits(instruction: u8, high_bit: u8, low_bit: u8) -> (r: u8)
    requires
        low_bit <= high_bit,
        high_bit < 8,
        high_bit - low_bit < 7,
    ensures
        r == field(instruction, high_bit, low_bit),
        r < (1u8 << ((1 + high_bit - low_bit) as u8)),
        high_bit - low_bit == 0 ==> r < 2,
        high_bit - low_bit == 1 ==> r < 4,
        high_bit - low_bit == 2 ==> r < 8,
        high_bit - low_bit == 3 ==> r < 16,
        high_bit - low_bit == 4 ==> r < 32,
        high_bit - low_bit == 5 ==> r < 64,
        high_bit - low_bit == 6 ==> r < 128,
{
    let len: u8 = 1 + high_bit - low_bit;
    proof {
        assert(1u8 << len >= 1) by (bit_vector)
            requires
                len < 8,
        ;
    }
    let mask: u8 = (1u8 << len) - 1;
    let r = (instruction >> low_bit) & mask;
    proof {
        assert((instruction >> low_bit) & mask <= mask) by (bit_vector);
        assert((1u8 << 1u8) == 2 && (1u8 << 2u8) == 4 && (1u8 << 3u8) == 8 && (1u8 << 4u8) == 16
            && (1u8 << 5u8) == 32 && (1u8 << 6u8) == 64 && (1u8 << 7u8) == 128) by (bit_vector);
    }
    r
}

/// Bit `bit` of `val` as 0 or 1.
pub fn get_bit(val: u8, bit: u8) -> (r: u8)
    requires
        bit < 8,
    ensures
        r == (val >> bit) & 1,
        r == if bit_set(val, bit) {
            1u8
        } else {
            0u8
        },
{
    let r = (val >> bit) & 1;
    proof {
        assert((val >> bit) & 1 == 0 || (val >> bit) & 1 == 1) by (bit_vector);
    }
    r
}

/// True when bit `bit` of `val` is set.
pub fn test_bit(val: u8, bit: u8) -> (r: bool)
    requires
        bit < 8,
    ensures
        r == bit_set(val, bit),
{
    (val >> bit) & 1 == 1
}

} // verus!
