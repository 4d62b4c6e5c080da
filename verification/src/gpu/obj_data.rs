//! Sprite attribute entries and per-scanline sprite selection.
//!
//! Selection keeps, in OAM order, the first ten sprites whose vertical
//! extent covers the scanline, then sorts them by x-coordinate with OAM
//! index as the tie break: the front of the list wins on overlap.

use vstd::prelude::*;
use crate::bits::{bit_set, test_bit};
use crate::gpu::{get_lcdinfo, lcd_of, LCDInfo};
use crate::memory::{Memory, OBJ_ATTRIBUTES_BASE};

verus! {

/// One sprite attribute entry: position, tile, and flags, together with
/// its OAM index.
#[derive(Clone, Copy, Debug, PartialEq, Eq, Structural)]
pub struct ObjData {
    pub index: u8,
    pub y: i32,
    pub x: i32,
    pub tile_index: u8,
    pub priority: bool,
    pub y_flip: bool,
    pub x_flip: bool,
    pub use_palette_1: bool,
}

/// The entry stored at OAM slot `index`.
pub open spec fn obj_at(m: Seq<u8>, index: u8) -> ObjData {
    let base = OBJ_ATTRIBUTES_BASE + index * 4;
    ObjData {
        index,
        y: m[base] as i32,
        x: m[base + 1] as i32,
        tile_index: m[base + 2],
        priority: bit_set(m[base + 3], 7),
        y_flip: bit_set(m[base + 3], 6),
        x_flip: bit_set(m[base + 3], 5),
        use_palette_1: bit_set(m[base + 3], 4),
    }
}

/// Whether the sprite's vertical extent (8 or 16 pixels, offset 16 from
/// its stored y) covers scanline `y`.
pub open spec fn spec_covers_y(o: ObjData, y: i32, use_16px: bool) -> bool {
    o.y - 16 <= y && o.y + (if use_16px {
        16int
    } else {
        8int
    }) - 16 > y
}

/// The sprites of the first `n` OAM slots that cover the scanline, in
/// slot order.
pub open spec fn oam_candidates(m: Seq<u8>, use_16px: bool, scanline: i32, n: int) -> Seq<ObjData>
    decreases n,
{
    if n <= 0 {
        Seq::empty()
    } else {
        let rest = oam_candidates(m, use_16px, scanline, n - 1);
        if spec_covers_y(obj_at(m, (n - 1) as u8), scanline, use_16px) {
            rest.push(obj_at(m, (n - 1) as u8))
        } else {
            rest
        }
    }
}

/// The up-to-ten sprites selected for a scanline, before sorting.
pub open spec fn selection(m: Seq<u8>, use_16px: bool, scanline: i32) -> Seq<ObjData> {
    let all = oam_candidates(m, use_16px, scanline, 40);
    if all.len() > 10 {
        all.subrange(0, 10)
    } else {
        all
    }
}

/// Draw order: lower x first, lower OAM index on ties.
pub open spec fn obj_le(a: ObjData, b: ObjData) -> bool {
    a.x < b.x || (a.x == b.x && a.index <= b.index)
}

pub open spec fn sorted_objs(s: Seq<ObjData>) -> bool {
    forall|i: int, j: int| 0 <= i <= j < s.len() ==> obj_le(s[i], s[j])
}

impl ObjData {
    /// Position bytes are in range.
    pub open spec fn wf(self) -> bool {
        0 <= self.x <= 255 && 0 <= self.y <= 255
    }

    /// The sort key: x-coordinate, then OAM index.
    pub fn compare_tuple(&self) -> (r: (i32, u8))
        ensures
            r == (self.x, self.index),
    {
        (self.x, self.index)
    }

    /// Whether the sprite's horizontal extent (8 pixels, offset 8 from
    /// its stored x) covers screen column `x`.
    pub fn covers_x(&self, x: i32) -> (r: bool)
        requires
            self.wf(),
            -256 <= x <= 256,
        ensures
            r == (self.x - 8 <= x && self.x > x),
    {
        self.x - 8 <= x && self.x + 8 - 8 > x
    }

    /// The column within the sprite's tile, honouring horizontal flip.
    pub fn get_tile_x(&self, x: i32) -> (r: u8)
        requires
            self.wf(),
            self.x - 8 <= x && self.x > x,
        ensures
            r == spec_tile_x(*self, x as int),
            r < 8,
    {
        let raw = (x - (self.x - 8)) as u8;
        if self.x_flip {
            7 - raw
        } else {
            raw
        }
    }

    /// Whether the sprite covers scanline `y`.
    pub fn covers_y(&self, y: i32, lcd_info: &LCDInfo) -> (r: bool)
        requires
            self.wf(),
            -256 <= y <= 256,
        ensures
            r == spec_covers_y(*self, y, lcd_info.should_use_16px_objects),
    {
        self.y - 16 <= y && self.y + (if lcd_info.should_use_16px_objects {
            16
        } else {
            8
        }) - 16 > y
    }

    /// The row within the sprite's (upper or lower) tile, honouring
    /// vertical flip.
    pub fn get_tile_y(&self, y: i32, lcd_info: &LCDInfo) -> (r: u8)
        requires
            self.wf(),
            0 <= y <= 255,
            spec_covers_y(*self, y, true),
        ensures
            r == spec_tile_y(*self, y as int, lcd_info.should_use_16px_objects),
    {
        let raw = (y - (self.y - 16) - (if self.is_2nd_16_px_tile(y) {
            8
        } else {
            0
        })) as u8;
        let h: u8 = if lcd_info.should_use_16px_objects {
            15
        } else {
            7
        };
        if self.y_flip {
            h.wrapping_sub(raw)
        } else {
            raw
        }
    }

    /// In 16-pixel mode, whether the scanline falls in the lower tile.
    pub fn is_2nd_16_px_tile(&self, y: i32) -> (r: bool)
        requires
            self.wf(),
            -256 <= y <= 512,
        ensures
            r == (y - (self.y - 16) > 8),
    {
        y - (self.y - 16) > 8
    }

    /// Reads the sprites selected for `scanline`: at most ten, in draw
    /// order (x ascending, OAM index ascending on ties), and exactly the
    /// first matching OAM entries.
    pub fn from_memory(memory: &Memory, scanline: i32) -> (r: Vec<ObjData>)
        requires
            memory.wf(),
            0 <= scanline <= 255,
        ensures
            r@.len() <= 10,
            sorted_objs(r@),
            r@.to_multiset() == selection(
                memory@,
                lcd_of(memory@).should_use_16px_objects,
                scanline,
            ).to_multiset(),
            forall|i: int| 0 <= i < r@.len() ==> (#[trigger] r@[i]).wf(),
            forall|i: int|
                0 <= i < r@.len() ==> spec_covers_y(#[trigger] r@[i], scanline, true),
    {
        let lcd_info = get_lcdinfo(memory);
        let ghost use16 = lcd_info.should_use_16px_objects;
        let mut picked: Vec<ObjData> = Vec::new();
        let mut index: u8 = 0;
        while index < 40
            invariant
                memory.wf(),
                index <= 40,
                lcd_info == lcd_of(memory@),
                use16 == lcd_info.should_use_16px_objects,
                picked@ == selection_prefix(memory@, use16, scanline, index as int),
                forall|i: int| 0 <= i < picked@.len() ==> (#[trigger] picked@[i]).wf(),
                forall|i: int|
                    0 <= i < picked@.len() ==> spec_covers_y(
                        #[trigger] picked@[i],
                        scanline,
                        use16,
                    ),
                0 <= scanline <= 255,
            decreases 40 - index,
        {
            let base = OBJ_ATTRIBUTES_BASE + (index as u16) * 4;
            let y = memory.read(base) as i32;
            let x = memory.read(base + 1) as i32;
            let tile_index = memory.read(base + 2);
            let flags = memory.read(base + 3);
            let obj = ObjData {
                index,
                y,
                x,
                tile_index,
                priority: test_bit(flags, 7),
                y_flip: test_bit(flags, 6),
                x_flip: test_bit(flags, 5),
                use_palette_1: test_bit(flags, 4),
            };
            proof {
                assert(obj == obj_at(memory@, index));
            }
            if obj.covers_y(scanline, &lcd_info) && picked.len() < 10 {
                picked.push(obj);
            }
            proof {
                lemma_selection_prefix_step(memory@, use16, scanline, index as int);
                assert((index as int) as u8 == index);
            }
            index = index + 1;
        }
        proof {
            lemma_selection_prefix_full(memory@, use16, scanline);
        }
        let sorted = sort_objs(picked);
        proof {
            broadcast use vstd::seq_lib::group_to_multiset_ensures;

            assert forall|i: int| 0 <= i < sorted@.len() implies spec_covers_y(
                #[trigger] sorted@[i],
                scanline,
                true,
            ) by {
                let o = sorted@[i];
                assert(sorted@.contains(o));
                assert(picked@.to_multiset().count(o) > 0);
                assert(picked@.contains(o));
                let j = choose|j: int| 0 <= j < picked@.len() && picked@[j] == o;
                assert(spec_covers_y(picked@[j], scanline, use16));
            }
        }
        sorted
    }
}

/// The first ten candidates among the first `n` OAM slots.
pub open spec fn selection_prefix(m: Seq<u8>, use_16px: bool, scanline: i32, n: int) -> Seq<
    ObjData,
> {
    let all = oam_candidates(m, use_16px, scanline, n);
    if all.len() > 10 {
        all.subrange(0, 10)
    } else {
        all
    }
}

proof fn lemma_selection_prefix_step(m: Seq<u8>, use_16px: bool, scanline: i32, n: int)
    requires
        0 <= n,
    ensures
        selection_prefix(m, use_16px, scanline, n + 1) == if spec_covers_y(
            obj_at(m, n as u8),
            scanline,
            use_16px,
        ) && selection_prefix(m, use_16px, scanline, n).len() < 10 {
            selection_prefix(m, use_16px, scanline, n).push(obj_at(m, n as u8))
        } else {
            selection_prefix(m, use_16px, scanline, n)
        },
{
    let all_n = oam_candidates(m, use_16px, scanline, n);
    let all_n1 = oam_candidates(m, use_16px, scanline, n + 1);
    if spec_covers_y(obj_at(m, n as u8), scanline, use_16px) {
        assert(all_n1 == all_n.push(obj_at(m, n as u8)));
        if all_n.len() >= 10 {
            assert(all_n1.subrange(0, 10) =~= all_n.subrange(0, 10));
            if all_n.len() == 10 {
                assert(all_n.subrange(0, 10) =~= all_n);
            }
        } else {
            if all_n1.len() > 10 {
                assert(all_n1.subrange(0, 10) =~= all_n1);
            }
        }
    }
}

proof fn lemma_selection_prefix_full(m: Seq<u8>, use_16px: bool, scanline: i32)
    ensures
        selection_prefix(m, use_16px, scanline, 40) == selection(m, use_16px, scanline),
{
}

/// Sorts sprites into draw order; the result is a permutation of the
/// input.
fn sort_objs(input: Vec<ObjData>) -> (r: Vec<ObjData>)
    requires
        forall|i: int| 0 <= i < input@.len() ==> (#[trigger] input@[i]).wf(),
    ensures
        r@.len() == input@.len(),
        sorted_objs(r@),
        r@.to_multiset() == input@.to_multiset(),
        forall|i: int| 0 <= i < r@.len() ==> (#[trigger] r@[i]).wf(),
{
    let mut out: Vec<ObjData> = Vec::new();
    let mut i: usize = 0;
    proof {
        assert(input@.subrange(0, 0) =~= Seq::<ObjData>::empty());
        assert(out@.to_multiset() =~= input@.subrange(0, 0).to_multiset());
    }
    while i < input.len()
        invariant
            i <= input@.len(),
            out@.len() == i,
            sorted_objs(out@),
            out@.to_multiset() == input@.subrange(0, i as int).to_multiset(),
            forall|k: int| 0 <= k < input@.len() ==> (#[trigger] input@[k]).wf(),
            forall|k: int| 0 <= k < out@.len() ==> (#[trigger] out@[k]).wf(),
        decreases input@.len() - i,
    {
        let o = input[i];
        let mut pos: usize = 0;
        while pos < out.len() && obj_le_exec(&out[pos], &o)
            invariant
                pos <= out@.len(),
                forall|k: int| 0 <= k < pos ==> obj_le(#[trigger] out@[k], o),
            decreases out@.len() - pos,
        {
            pos = pos + 1;
        }
        let ghost out_pre = out@;
        out.insert(pos, o);
        proof {
            out_pre.insert_ensures(pos as int, o);
            assert forall|a: int, b: int| 0 <= a <= b < out@.len() implies obj_le(
                out@[a],
                out@[b],
            ) by {
                assert(out@[pos as int] == o);
                if b < pos {
                    assert(out@[a] == out_pre[a] && out@[b] == out_pre[b]);
                    assert(obj_le(out_pre[a], out_pre[b]));
                } else if b == pos {
                    if a < pos {
                        assert(out@[a] == out_pre[a]);
                        assert(obj_le(out_pre[a], o));
                    }
                } else {
                    assert(out@[b] == out_pre[b - 1]);
                    if a < pos {
                        assert(out@[a] == out_pre[a]);
                        assert(obj_le(out_pre[a], out_pre[b - 1]));
                    } else if a == pos {
                        assert(!obj_le(out_pre[pos as int], o));
                        assert(obj_le(o, out_pre[pos as int]));
                        assert(obj_le(out_pre[pos as int], out_pre[b - 1]));
                    } else {
                        assert(out@[a] == out_pre[a - 1]);
                        assert(obj_le(out_pre[a - 1], out_pre[b - 1]));
                    }
                }
            }
            vstd::seq_lib::to_multiset_insert(out_pre, pos as int, o);
            let pre = input@.subrange(0, i as int);
            let post = input@.subrange(0, i + 1);
            assert(post =~= pre.push(input@[i as int]));
            vstd::seq_lib::to_multiset_build(pre, input@[i as int]);
        }
        i = i + 1;
    }
    proof {
        assert(input@.subrange(0, input@.len() as int) =~= input@);
    }
    out
}

/// Draw-order comparison on the (x, OAM index) key.
fn obj_le_exec(a: &ObjData, b: &ObjData) -> (r: bool)
    ensures
        r == obj_le(*a, *b),
{
    a.x < b.x || (a.x == b.x && a.index <= b.index)
}

/// The column within a sprite's tile for screen column `x`.
pub open spec fn spec_tile_x(o: ObjData, x: int) -> u8 {
    let raw = (x - (o.x - 8)) as u8;
    if o.x_flip {
        (7 - raw) as u8
    } else {
        raw
    }
}

/// The row within a sprite's tile for scanline `y`; a vertical flip
/// mirrors it within the 8- or 16-pixel height (wrapping, as the 8-bit
/// subtraction does).
pub open spec fn spec_tile_y(o: ObjData, y: int, use_16px: bool) -> u8 {
    let raw = (y - (o.y - 16) - (if y - (o.y - 16) > 8 {
        8int
    } else {
        0int
    })) as u8;
    let h = if use_16px {
        15int
    } else {
        7int
    };
    if o.y_flip {
        ((h - raw + 256) % 256) as u8
    } else {
        raw
    }
}

} // verus!
