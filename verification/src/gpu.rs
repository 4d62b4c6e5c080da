//! The video unit: a dot-granular state machine that scans sprites,
//! composes background, window and sprite pixels, and raises the
//! VBlank/STAT interrupts.

use vstd::prelude::*;
use crate::bits::{bit_set, field, get_bit, get_bits, test_bit};
use crate::cpu::Interrupts;
use crate::gpu::lcd_status::{lcd_status_of, LcdStatus};
use crate::gpu::obj_data::ObjData;
use crate::memory::{Memory, BGP, LCDC, LY, LYC, OBP0, OBP1, SCX, SCY, STAT, WX, WY};
use crate::{Color, Pixel};

pub mod lcd_status;
pub mod obj_data;

verus! {

/// The LCD control register and scroll/window positions, decoded once
/// per dot batch.
#[derive(Clone, Copy, Debug, PartialEq, Eq, Structural)]
pub struct LCDInfo {
    pub is_ppu_enabled: bool,
    pub window_tile_map_base: u16,
    pub is_window_enabled: bool,
    pub should_use_8000_addressing_mode: bool,
    pub bg_tile_map_base: u16,
    pub should_use_16px_objects: bool,
    pub are_objects_enabled: bool,
    pub are_bg_and_window_enabled: bool,
    pub bg_x: i32,
    pub bg_y: i32,
    pub window_x: i32,
    pub window_y: i32,
}

/// The control state as decoded from the bus.
pub open spec fn lcd_of(m: Seq<u8>) -> LCDInfo {
    LCDInfo {
        is_ppu_enabled: bit_set(m[LCDC as int], 7),
        window_tile_map_base: if bit_set(m[LCDC as int], 6) {
            0x9C00u16
        } else {
            0x9800u16
        },
        is_window_enabled: bit_set(m[LCDC as int], 5),
        should_use_8000_addressing_mode: bit_set(m[LCDC as int], 4),
        bg_tile_map_base: if bit_set(m[LCDC as int], 3) {
            0x9C00u16
        } else {
            0x9800u16
        },
        should_use_16px_objects: bit_set(m[LCDC as int], 2),
        are_objects_enabled: bit_set(m[LCDC as int], 1),
        are_bg_and_window_enabled: bit_set(m[LCDC as int], 0),
        bg_x: m[SCX as int] as i32,
        bg_y: m[SCY as int] as i32,
        window_x: m[WX as int] as i32,
        window_y: m[WY as int] as i32,
    }
}

impl LCDInfo {
    /// Positions are bytes and the tile map bases one of the two maps.
    pub open spec fn wf(self) -> bool {
        &&& 0 <= self.bg_x <= 255
        &&& 0 <= self.bg_y <= 255
        &&& 0 <= self.window_x <= 255
        &&& 0 <= self.window_y <= 255
        &&& (self.window_tile_map_base == 0x9800 || self.window_tile_map_base == 0x9C00)
        &&& (self.bg_tile_map_base == 0x9800 || self.bg_tile_map_base == 0x9C00)
    }

    /// Whether screen position (x, y) falls inside the window's visible
    /// rectangle; the window's x register is offset by 7 pixels.
    pub open spec fn spec_covered_by_window(self, x: i32, y: i32) -> bool {
        &&& self.is_window_enabled
        &&& self.are_bg_and_window_enabled
        &&& self.window_x - 7 <= x
        &&& self.window_x + 256 - 7 > x
        &&& self.window_y <= y
        &&& self.window_y + 256 > y
    }

    pub fn is_covered_by_window(&self, x: i32, y: i32) -> (r: bool)
        requires
            self.wf(),
            0 <= x < 160,
            0 <= y < 144,
        ensures
            r == self.spec_covered_by_window(x, y),
    {
        self.is_window_enabled && self.are_bg_and_window_enabled && self.window_x - 7 <= x
            && self.window_x + 256 - 7 > x && self.window_y <= y && self.window_y + 256 > y
    }
}

/// Decodes the LCD control and position registers.
pub fn get_lcdinfo(memory: &Memory) -> (r: LCDInfo)
    requires
        memory.wf(),
    ensures
        r == lcd_of(memory@),
        r.wf(),
{
    let lcdc = memory.read(LCDC);
    LCDInfo {
        is_ppu_enabled: test_bit(lcdc, 7),
        window_tile_map_base: if test_bit(lcdc, 6) {
            0x9C00
        } else {
            0x9800
        },
        is_window_enabled: test_bit(lcdc, 5),
        should_use_8000_addressing_mode: test_bit(lcdc, 4),
        bg_tile_map_base: if test_bit(lcdc, 3) {
            0x9C00
        } else {
            0x9800
        },
        should_use_16px_objects: test_bit(lcdc, 2),
        are_objects_enabled: test_bit(lcdc, 1),
        are_bg_and_window_enabled: test_bit(lcdc, 0),
        bg_x: memory.read(SCX) as i32,
        bg_y: memory.read(SCY) as i32,
        window_x: memory.read(WX) as i32,
        window_y: memory.read(WY) as i32,
    }
}

/// The shade a palette byte assigns to a 2-bit color id.
pub open spec fn spec_color(palette: u8, color_id: u8) -> Color {
    let c = field(palette, (color_id * 2 + 1) as u8, (color_id * 2) as u8);
    if c == 0 {
        Color::White
    } else if c == 1 {
        Color::LightGray
    } else if c == 2 {
        Color::DarkGray
    } else {
        Color::Black
    }
}

/// Looks a 2-bit color id up in a palette register: each id selects two
/// bits of the palette byte.
pub fn get_color(palette: u8, color_id: u8) -> (r: Color)
    requires
        color_id < 4,
    ensures
        r == spec_color(palette, color_id),
{
    let color = get_bits(palette, color_id * 2 + 1, color_id * 2);
    if color == 0 {
        Color::White
    } else if color == 1 {
        Color::LightGray
    } else if color == 2 {
        Color::DarkGray
    } else {
        Color::Black
    }
}

// ---------------------------------------------------------------------
// Pixel composition: tile fetch, background/window lookup, sprite lookup.
// ---------------------------------------------------------------------
/// The 2-bit color id stored at row `tile_y`, column `tile_x` of the tile
/// at `tile_addr`: one bit from each of the row's two bytes.
pub open spec fn spec_color_id(m: Seq<u8>, tile_addr: u16, tile_x: u8, tile_y: u8) -> u8 {
    let line_1 = m[tile_addr + tile_y * 2];
    let line_2 = m[tile_addr + tile_y * 2 + 1];
    ((line_1 >> ((7 - tile_x) as u8)) & 1) | (((line_2 >> ((7 - tile_x) as u8)) & 1) << 1)
}

/// The tile a sprite uses: in 16-pixel mode the tile index's low bit is
/// replaced by which half of the sprite the scanline falls in.
pub open spec fn spec_obj_tile_addr(lcd: LCDInfo, o: crate::gpu::obj_data::ObjData, y: int) -> u16 {
    let tile_index = if lcd.should_use_16px_objects {
        ((o.tile_index & 0xFE) + (if y - (o.y - 16) > 8 {
            1u8
        } else {
            0u8
        })) as u8
    } else {
        o.tile_index
    };
    (0x8000 + tile_index * 16) as u16
}

/// The color id a sprite contributes at screen position (x, y).
pub open spec fn spec_obj_color_id(
    m: Seq<u8>,
    o: crate::gpu::obj_data::ObjData,
    lcd: LCDInfo,
    x: int,
    y: int,
) -> u8 {
    spec_color_id(
        m,
        spec_obj_tile_addr(lcd, o, y),
        crate::gpu::obj_data::spec_tile_x(o, x),
        crate::gpu::obj_data::spec_tile_y(o, y, lcd.should_use_16px_objects),
    )
}

/// Where a background/window tile index points: plain 0x8000-based, or
/// signed 0x9000-based addressing.
pub open spec fn spec_bg_tile_addr(lcd: LCDInfo, tile_index: u8) -> u16 {
    if lcd.should_use_8000_addressing_mode {
        (0x8000 + tile_index * 16) as u16
    } else {
        (0x9000 + (tile_index as i8) * 16) as u16
    }
}

/// The color id of the background or window layer at layer-local
/// position (x, y), through the 32x32 tile map at `base`.
pub open spec fn spec_bg_or_window_color_id(
    m: Seq<u8>,
    lcd: LCDInfo,
    x: int,
    y: int,
    base: u16,
) -> u8 {
    let tile_index = m[base + (y / 8) * 32 + (x / 8)];
    spec_color_id(m, spec_bg_tile_addr(lcd, tile_index), (x % 8) as u8, (y % 8) as u8)
}

/// The background color id at screen position (x, y), after scrolling.
pub open spec fn spec_bg_color_id(m: Seq<u8>, lcd: LCDInfo, x: int, y: int) -> u8 {
    spec_bg_or_window_color_id(
        m,
        lcd,
        (x + lcd.bg_x) % 256,
        (y + lcd.bg_y) % 256,
        lcd.bg_tile_map_base,
    )
}

/// The window color id at screen column `x` on window line `wl`.
pub open spec fn spec_window_color_id(m: Seq<u8>, lcd: LCDInfo, x: int, wl: int) -> u8 {
    spec_bg_or_window_color_id(m, lcd, x - lcd.window_x + 7, wl, lcd.window_tile_map_base)
}

/// The frontmost sprite (first in draw order) covering column `x`.
pub open spec fn first_covering(objs: Seq<crate::gpu::obj_data::ObjData>, x: int) -> Option<
    crate::gpu::obj_data::ObjData,
>
    decreases objs.len(),
{
    if objs.len() == 0 {
        None
    } else if objs[0].x - 8 <= x && objs[0].x > x {
        Some(objs[0])
    } else {
        first_covering(objs.drop_first(), x)
    }
}

/// The composed color of one pixel, and whether the window supplied it.
///
/// A sprite with a non-transparent color id wins unless it defers to a
/// non-zero background id; a transparent sprite always falls through;
/// with background and window disabled and no sprite, the pixel is White.
pub open spec fn spec_pixel_color(
    m: Seq<u8>,
    lcd: LCDInfo,
    scanline: int,
    window_line: int,
    x: int,
    objs: Seq<crate::gpu::obj_data::ObjData>,
) -> (Color, bool) {
    let obj_opt = if lcd.are_objects_enabled {
        first_covering(objs, x)
    } else {
        None
    };
    let covered = lcd.spec_covered_by_window(x as i32, scanline as i32);
    let bg_id_opt = if !lcd.are_bg_and_window_enabled {
        None
    } else if lcd.is_window_enabled && covered {
        Some(spec_window_color_id(m, lcd, x, window_line))
    } else {
        Some(spec_bg_color_id(m, lcd, x, scanline))
    };
    let is_window = lcd.are_bg_and_window_enabled && lcd.is_window_enabled && covered;
    let color = match obj_opt {
        None => match bg_id_opt {
            None => Color::White,
            Some(bg) => spec_color(m[BGP as int], bg),
        },
        Some(o) => {
            let oid = spec_obj_color_id(m, o, lcd, x, scanline);
            match bg_id_opt {
                None => spec_color(
                    m[if o.use_palette_1 {
                        OBP1 as int
                    } else {
                        OBP0 as int
                    }],
                    oid,
                ),
                Some(bg) => if oid == 0 {
                    spec_color(m[BGP as int], bg)
                } else if o.priority && bg != 0 {
                    spec_color(m[BGP as int], bg)
                } else {
                    spec_color(
                        m[if o.use_palette_1 {
                            OBP1 as int
                        } else {
                            OBP0 as int
                        }],
                        oid,
                    )
                },
            }
        },
    };
    (color, is_window)
}

/// Reads one tile row pair and extracts the 2-bit color id for a column.
pub fn get_color_id(memory: &Memory, tile_addr: u16, tile_x: u8, tile_y: u8) -> (r: u8)
    requires
        memory.wf(),
        tile_addr <= 0x9A00,
        tile_x < 8,
    ensures
        r == spec_color_id(memory@, tile_addr, tile_x, tile_y),
        r < 4,
{
    let line_offset: u16 = (tile_y as u16) * 2;
    let line_1 = memory.read(tile_addr + line_offset);
    let line_2 = memory.read(tile_addr + line_offset + 1);
    let b1 = get_bit(line_1, 7 - tile_x);
    let b2 = get_bit(line_2, 7 - tile_x);
    let r = b1 | (b2 << 1);
    proof {
        assert(b1 | (b2 << 1) < 4 && b1 | (b2 << 1) == b1 | ((b2 & 1) << 1)) by (bit_vector)
            requires
                b1 <= 1 && b2 <= 1,
        ;
        assert((line_2 >> ((7 - tile_x) as u8)) & 1 & 1 == (line_2 >> ((7 - tile_x) as u8)) & 1)
            by (bit_vector);
    }
    r
}

/// The color id a sprite contributes at (x, y).
pub fn get_object_color_id(
    memory: &Memory,
    obj: &crate::gpu::obj_data::ObjData,
    lcd_info: &LCDInfo,
    x: i32,
    y: i32,
) -> (r: u8)
    requires
        memory.wf(),
        obj.wf(),
        obj.x - 8 <= x && obj.x > x,
        crate::gpu::obj_data::spec_covers_y(*obj, y, true),
        0 <= y <= 153,
    ensures
        r == spec_obj_color_id(memory@, *obj, *lcd_info, x as int, y as int),
        r < 4,
{
    proof {
        let t = obj.tile_index;
        assert(t & 0xFE <= 0xFE) by (bit_vector);
    }
    let tile_index = if lcd_info.should_use_16px_objects {
        (obj.tile_index & 0xFE) + (if obj.is_2nd_16_px_tile(y) {
            1
        } else {
            0
        })
    } else {
        obj.tile_index
    };
    let tile_addr = crate::memory::OBJ_TILES_BASE + (tile_index as u16) * 16;
    get_color_id(memory, tile_addr, obj.get_tile_x(x), obj.get_tile_y(y, lcd_info))
}

/// The background color id at screen position (x, y).
pub fn get_bg_color_id(memory: &Memory, lcd_info: &LCDInfo, x: i32, y: i32) -> (r: u8)
    requires
        memory.wf(),
        lcd_info.wf(),
        0 <= x < 160,
        0 <= y < 144,
    ensures
        r == spec_bg_color_id(memory@, *lcd_info, x as int, y as int),
        r < 4,
{
    let bg_x = (x + lcd_info.bg_x) % 256;
    let bg_y = (y + lcd_info.bg_y) % 256;
    get_bg_or_window_color_id(memory, lcd_info, bg_x, bg_y, lcd_info.bg_tile_map_base)
}

/// The window color id at screen column `x` on window line `wl`.
pub fn get_window_color_id(memory: &Memory, lcd_info: &LCDInfo, x: i32, wl: i32) -> (r: u8)
    requires
        memory.wf(),
        lcd_info.wf(),
        0 <= x < 160,
        0 <= wl < 256,
        lcd_info.window_x - 7 <= x,
    ensures
        r == spec_window_color_id(memory@, *lcd_info, x as int, wl as int),
        r < 4,
{
    let window_x = x - lcd_info.window_x + 7;
    get_bg_or_window_color_id(memory, lcd_info, window_x, wl, lcd_info.window_tile_map_base)
}

/// The color id of a layer through its 32x32 tile map.
pub fn get_bg_or_window_color_id(
    memory: &Memory,
    lcd_info: &LCDInfo,
    x: i32,
    y: i32,
    tile_map_base: u16,
) -> (r: u8)
    requires
        memory.wf(),
        lcd_info.wf(),
        0 <= x < 256,
        0 <= y < 256,
        tile_map_base == 0x9800 || tile_map_base == 0x9C00,
    ensures
        r == spec_bg_or_window_color_id(memory@, *lcd_info, x as int, y as int, tile_map_base),
        r < 4,
{
    let tile_row = y / 8;
    let tile_col = x / 8;
    let tile_map_index = (tile_row * 32 + tile_col) as u16;
    let tile_index = memory.read(tile_map_base + tile_map_index);
    let tile_addr = get_bg_or_window_tile_addr(tile_index, lcd_info);
    let tile_x = (x % 8) as u8;
    let tile_y = (y % 8) as u8;
    get_color_id(memory, tile_addr, tile_x, tile_y)
}

/// Resolves a background/window tile index to its tile address.
pub fn get_bg_or_window_tile_addr(tile_index: u8, lcd_info: &LCDInfo) -> (r: u16)
    ensures
        r == spec_bg_tile_addr(*lcd_info, tile_index),
        0x8000 <= r <= 0x97F0,
{
    if lcd_info.should_use_8000_addressing_mode {
        0x8000 + (tile_index as u16) * 16
    } else {
        let signed: i16 = (#[verifier::truncate] (tile_index as i8)) as i16;
        0x9000u16.wrapping_add_signed(16 * signed)
    }
}

/// The background palette's shade for a color id.
pub fn get_bg_color(memory: &Memory, color_id: u8) -> (r: Color)
    requires
        memory.wf(),
        color_id < 4,
    ensures
        r == spec_color(memory@[BGP as int], color_id),
{
    let palette = memory.read(BGP);
    get_color(palette, color_id)
}

/// One of the two object palettes' shade for a color id.
pub fn get_obj_color(memory: &Memory, color_id: u8, obp1_palette: bool) -> (r: Color)
    requires
        memory.wf(),
        color_id < 4,
    ensures
        r == spec_color(
            memory@[if obp1_palette {
                OBP1 as int
            } else {
                OBP0 as int
            }],
            color_id,
        ),
{
    let palette = memory.read(
        if obp1_palette {
            OBP1
        } else {
            OBP0
        },
    );
    get_color(palette, color_id)
}

/// The frontmost sprite covering column `x`, by linear scan of the
/// already-sorted sprite list.
pub fn find_covering(objs: &Vec<crate::gpu::obj_data::ObjData>, x: i32) -> (r: Option<
    crate::gpu::obj_data::ObjData,
>)
    requires
        forall|k: int| 0 <= k < objs@.len() ==> (#[trigger] objs@[k]).wf(),
        0 <= x < 160,
    ensures
        r == first_covering(objs@, x as int),
{
    let ghost whole = objs@;
    proof {
        assert(objs@.subrange(0, objs@.len() as int) =~= objs@);
    }
    let mut i: usize = 0;
    while i < objs.len()
        invariant
            i <= objs@.len(),
            whole == objs@,
            forall|k: int| 0 <= k < objs@.len() ==> (#[trigger] objs@[k]).wf(),
            0 <= x < 160,
            first_covering(objs@, x as int) == first_covering(
                objs@.subrange(i as int, objs@.len() as int),
                x as int,
            ),
        decreases objs@.len() - i,
    {
        let o = objs[i];
        proof {
            assert(objs@.subrange(i as int, objs@.len() as int)[0] == o);
        }
        if o.covers_x(x) {
            return Some(o);
        }
        proof {
            assert(objs@.subrange(i as int, objs@.len() as int).drop_first() =~= objs@.subrange(
                i + 1,
                objs@.len() as int,
            ));
        }
        i = i + 1;
    }
    proof {
        assert(objs@.subrange(objs@.len() as int, objs@.len() as int).len() == 0);
    }
    None
}

/// Composes one pixel: sprite versus background/window, with the
/// documented priority and transparency rules. Also reports whether the
/// window supplied the pixel.
pub fn get_pixel_color(
    memory: &Memory,
    lcd_info: &LCDInfo,
    scanline: i32,
    window_line: i32,
    pixel: i32,
    object_data: &Vec<crate::gpu::obj_data::ObjData>,
) -> (r: (Color, bool))
    requires
        memory.wf(),
        lcd_info.wf(),
        0 <= scanline < 144,
        0 <= window_line < 256,
        0 <= pixel < 160,
        forall|k: int|
            0 <= k < object_data@.len() ==> (#[trigger] object_data@[k]).wf()
                && crate::gpu::obj_data::spec_covers_y(object_data@[k], scanline, true),
    ensures
        r == spec_pixel_color(
            memory@,
            *lcd_info,
            scanline as int,
            window_line as int,
            pixel as int,
            object_data@,
        ),
{
    let found = find_covering(object_data, pixel);
    let mb_obj_and_color_id: Option<(crate::gpu::obj_data::ObjData, u8)> = if lcd_info
        .are_objects_enabled {
        match found {
            Some(o) => {
                proof {
                    lemma_first_covering_props(object_data@, pixel as int);
                }
                let id = get_object_color_id(memory, &o, lcd_info, pixel, scanline);
                Some((o, id))
            },
            None => None,
        }
    } else {
        None
    };

    let covered = lcd_info.is_covered_by_window(pixel, scanline);
    let mb_bg_color_id: Option<u8> = if !lcd_info.are_bg_and_window_enabled {
        None
    } else if lcd_info.is_window_enabled && covered {
        Some(get_window_color_id(memory, lcd_info, pixel, window_line))
    } else {
        Some(get_bg_color_id(memory, lcd_info, pixel, scanline))
    };
    let is_window = lcd_info.are_bg_and_window_enabled && lcd_info.is_window_enabled && covered;

    let color = match (mb_obj_and_color_id, mb_bg_color_id) {
        (None, None) => Color::White,
        (None, Some(bg_color_id)) => get_bg_color(memory, bg_color_id),
        (Some((obj, obj_color_id)), Some(bg_color_id)) => {
            if obj_color_id == 0 {
                get_bg_color(memory, bg_color_id)
            } else if obj.priority && bg_color_id != 0 {
                get_bg_color(memory, bg_color_id)
            } else {
                get_obj_color(memory, obj_color_id, obj.use_palette_1)
            }
        },
        (Some((obj, obj_color_id)), None) => get_obj_color(memory, obj_color_id, obj.use_palette_1),
    };

    (color, is_window)
}

/// A sprite found by `first_covering` is an element of the list and
/// covers the column.
proof fn lemma_first_covering_props(objs: Seq<crate::gpu::obj_data::ObjData>, x: int)
    ensures
        first_covering(objs, x) matches Some(o) ==> objs.contains(o) && o.x - 8 <= x && o.x > x,
    decreases objs.len(),
{
    if objs.len() > 0 {
        if objs[0].x - 8 <= x && objs[0].x > x {
        } else {
            lemma_first_covering_props(objs.drop_first(), x);
            match first_covering(objs, x) {
                Some(o) => {
                    assert(objs.drop_first().contains(o));
                    let i = choose|i: int|
                        0 <= i < objs.drop_first().len() && objs.drop_first()[i] == o;
                    assert(objs[i + 1] == o);
                },
                None => {},
            }
        }
    }
}

// ---------------------------------------------------------------------
// The dot-granular mode state machine.
// ---------------------------------------------------------------------
/// The video unit's mode, with mode-local progress counters. Draw
/// (Mode3) carries the selected sprites, the next column, a total-dot
/// counter, and the start-of-line penalty still to consume.
pub enum GpuState {
    Stopped,
    Mode2 { scanline: i32, dots_left: i32, window_line: i32 },
    Mode3 {
        scanline: i32,
        window_line: i32,
        has_window: bool,
        object_data: Vec<crate::gpu::obj_data::ObjData>,
        pixel: i32,
        dots: i32,
        penalty: i32,
    },
    Mode0 { scanline: i32, window_line: i32, dots_left: i32 },
    Mode1 { dots_left: i32 },
}

/// A sprite list as the OAM scan leaves it: at most ten, draw-ordered,
/// exactly the selected sprites, and every one covering the scanline.
pub open spec fn objs_selected(
    od: Seq<crate::gpu::obj_data::ObjData>,
    m: Seq<u8>,
    lcd: LCDInfo,
    scanline: i32,
) -> bool {
    &&& od.len() <= 10
    &&& crate::gpu::obj_data::sorted_objs(od)
    &&& od.to_multiset() == crate::gpu::obj_data::selection(
        m,
        lcd.should_use_16px_objects,
        scanline,
    ).to_multiset()
    &&& forall|i: int|
        0 <= i < od.len() ==> (#[trigger] od[i]).wf() && crate::gpu::obj_data::spec_covers_y(
            od[i],
            scanline,
            true,
        )
}

impl GpuState {
    /// Mode counters stay inside their documented ranges; the window
    /// line counter never runs ahead of the scanline.
    pub open spec fn wf(self) -> bool {
        match self {
            GpuState::Stopped => true,
            GpuState::Mode2 { scanline, dots_left, window_line } => {
                &&& 0 <= scanline < 144
                &&& 1 <= dots_left <= 80
                &&& 0 <= window_line <= scanline
            },
            GpuState::Mode3 { scanline, window_line, has_window, object_data, pixel, dots, penalty } => {
                &&& 0 <= scanline < 144
                &&& 0 <= window_line <= scanline
                &&& 0 <= pixel < 160
                &&& 0 <= penalty
                &&& pixel <= dots
                &&& dots - pixel + penalty <= 19
                &&& object_data@.len() <= 10
                &&& forall|i: int|
                    0 <= i < object_data@.len() ==> (#[trigger] object_data@[i]).wf()
                        && crate::gpu::obj_data::spec_covers_y(object_data@[i], scanline, true)
            },
            GpuState::Mode0 { scanline, window_line, dots_left } => {
                &&& 0 <= scanline < 144
                &&& 0 <= window_line <= scanline + 1
                &&& 1 <= dots_left <= 376
            },
            GpuState::Mode1 { dots_left } => 1 <= dots_left <= 4560,
        }
    }

    /// How many dots of the current frame have been consumed: each
    /// scanline is 456 dots (80 OAM scan + draw + horizontal blank), and
    /// the vertical blank the last 4560.
    pub open spec fn frame_pos(self) -> int {
        match self {
            GpuState::Stopped => 0,
            GpuState::Mode2 { scanline, dots_left, .. } => scanline * 456 + 80 - dots_left,
            GpuState::Mode3 { scanline, dots, .. } => scanline * 456 + 80 + dots,
            GpuState::Mode0 { scanline, dots_left, .. } => scanline * 456 + 456 - dots_left,
            GpuState::Mode1 { dots_left } => 65664 + 4560 - dots_left,
        }
    }

    /// The externally visible scanline number: the drawn line in modes
    /// 2/3/0, and a synthetic count through the vertical blank.
    pub open spec fn spec_ly(self) -> int {
        match self {
            GpuState::Stopped => 0,
            GpuState::Mode2 { scanline, .. } => scanline as int,
            GpuState::Mode3 { scanline, .. } => scanline as int,
            GpuState::Mode0 { scanline, .. } => scanline as int,
            GpuState::Mode1 { dots_left } => 144 + (4560 - dots_left) / 456,
        }
    }

    /// The STAT mode number, or None while the LCD is off.
    pub open spec fn spec_mode(self) -> Option<u8> {
        match self {
            GpuState::Stopped => None,
            GpuState::Mode2 { .. } => Some(2u8),
            GpuState::Mode3 { .. } => Some(3u8),
            GpuState::Mode0 { .. } => Some(0u8),
            GpuState::Mode1 { .. } => Some(1u8),
        }
    }
}

/// What one dot does: every counter decrement, mode transition, sprite
/// scan, and pixel emission of the video state machine.
pub open spec fn dot_rel(
    pre: GpuState,
    post: GpuState,
    pix: Option<Pixel>,
    m: Seq<u8>,
    lcd: LCDInfo,
) -> bool {
    match pre {
        GpuState::Stopped => pix is None && post == (if lcd.is_ppu_enabled {
            GpuState::Mode2 { scanline: 0, dots_left: 80, window_line: 0 }
        } else {
            GpuState::Stopped
        }),
        GpuState::Mode2 { scanline, dots_left, window_line } => {
            &&& pix is None
            &&& if dots_left > 1 {
                post == (GpuState::Mode2 {
                    scanline,
                    dots_left: (dots_left - 1) as i32,
                    window_line,
                })
            } else {
                post matches GpuState::Mode3 {
                    scanline: s2,
                    window_line: w2,
                    has_window: h2,
                    object_data: od,
                    pixel: p2,
                    dots: d2,
                    penalty: pen2,
                } && s2 == scanline && w2 == window_line && h2 == false && p2 == 0 && d2 == 0
                    && pen2 == 12 + lcd.bg_x % 8 && objs_selected(od@, m, lcd, scanline)
            }
        },
        GpuState::Mode3 { scanline, window_line, has_window, object_data, pixel, dots, penalty } => {
            if penalty > 0 {
                &&& pix is None
                &&& post == (GpuState::Mode3 {
                    scanline,
                    window_line,
                    has_window,
                    object_data,
                    pixel,
                    dots: (dots + 1) as i32,
                    penalty: (penalty - 1) as i32,
                })
            } else {
                let pc = spec_pixel_color(
                    m,
                    lcd,
                    scanline as int,
                    window_line as int,
                    pixel as int,
                    object_data@,
                );
                &&& pix == Some(Pixel { x: pixel as u8, y: scanline as u8, color: pc.0 })
                &&& if pixel + 1 == 160 {
                    post == (GpuState::Mode0 {
                        scanline,
                        window_line: if has_window || pc.1 {
                            (window_line + 1) as i32
                        } else {
                            window_line
                        },
                        dots_left: (376 - (dots + 1)) as i32,
                    })
                } else {
                    post == (GpuState::Mode3 {
                        scanline,
                        window_line,
                        has_window: has_window || pc.1,
                        object_data,
                        pixel: (pixel + 1) as i32,
                        dots: (dots + 1) as i32,
                        penalty,
                    })
                }
            }
        },
        GpuState::Mode0 { scanline, window_line, dots_left } => {
            &&& pix is None
            &&& if dots_left > 1 {
                post == (GpuState::Mode0 {
                    scanline,
                    window_line,
                    dots_left: (dots_left - 1) as i32,
                })
            } else if scanline + 1 == 144 {
                post == (GpuState::Mode1 { dots_left: 4560 })
            } else {
                post == (GpuState::Mode2 {
                    scanline: (scanline + 1) as i32,
                    dots_left: 80,
                    window_line,
                })
            }
        },
        GpuState::Mode1 { dots_left } => {
            &&& pix is None
            &&& if dots_left > 1 {
                post == (GpuState::Mode1 { dots_left: (dots_left - 1) as i32 })
            } else {
                post == (GpuState::Mode2 { scanline: 0, dots_left: 80, window_line: 0 })
            }
        },
    }
}

impl GpuState {
    /// While the LCD is off the machine idles; the moment it is enabled
    /// a fresh frame starts at the OAM scan of scanline 0.
    pub fn tick_stopped(lcd_info: &LCDInfo) -> (r: GpuState)
        ensures
            r == (if lcd_info.is_ppu_enabled {
                GpuState::Mode2 { scanline: 0, dots_left: 80, window_line: 0 }
            } else {
                GpuState::Stopped
            }),
    {
        if lcd_info.is_ppu_enabled {
            GpuState::Mode2 { scanline: 0, dots_left: 80, window_line: 0 }
        } else {
            GpuState::Stopped
        }
    }

    /// Counts the OAM-scan dots down; on the last one, scans and selects
    /// the scanline's sprites and enters Draw with the start-of-line
    /// penalty (12 dots plus the horizontal scroll offset modulo 8).
    pub fn tick_mode_2(
        memory: &Memory,
        lcd_info: &LCDInfo,
        dots_left: i32,
        scanline: i32,
        window_line: i32,
    ) -> (r: GpuState)
        requires
            memory.wf(),
            *lcd_info == lcd_of(memory@),
            lcd_info.wf(),
            1 <= dots_left <= 80,
            0 <= scanline < 144,
            0 <= window_line <= scanline,
        ensures
            dot_rel(
                (GpuState::Mode2 { scanline, dots_left, window_line }),
                r,
                None,
                memory@,
                *lcd_info,
            ),
            r.wf(),
    {
        let dots_left = dots_left - 1;
        if dots_left == 0 {
            let object_data = crate::gpu::obj_data::ObjData::from_memory(memory, scanline);
            GpuState::Mode3 {
                scanline,
                has_window: false,
                window_line,
                object_data,
                pixel: 0,
                dots: 0,
                penalty: 12 + lcd_info.bg_x % 8,
            }
        } else {
            GpuState::Mode2 { scanline, window_line, dots_left }
        }
    }

    /// Consumes one Draw dot: a penalty dot produces no pixel; otherwise
    /// one pixel is composed and emitted, and after column 159 the line
    /// enters horizontal blank sized so the whole line is 456 dots.
    pub fn tick_mode3(
        memory: &Memory,
        lcd_info: &LCDInfo,
        dots: i32,
        scanline: i32,
        window_line: i32,
        has_window: bool,
        pixel: i32,
        penalty: i32,
        object_data: Vec<crate::gpu::obj_data::ObjData>,
    ) -> (r: (GpuState, Option<Pixel>))
        requires
            memory.wf(),
            *lcd_info == lcd_of(memory@),
            lcd_info.wf(),
            (GpuState::Mode3 {
                scanline,
                window_line,
                has_window,
                object_data,
                pixel,
                dots,
                penalty,
            }).wf(),
        ensures
            dot_rel(
                (GpuState::Mode3 {
                    scanline,
                    window_line,
                    has_window,
                    object_data,
                    pixel,
                    dots,
                    penalty,
                }),
                r.0,
                r.1,
                memory@,
                *lcd_info,
            ),
            r.0.wf(),
    {
        if penalty > 0 {
            (
                GpuState::Mode3 {
                    scanline,
                    window_line,
                    has_window,
                    object_data,
                    pixel,
                    dots: dots + 1,
                    penalty: penalty - 1,
                },
                None,
            )
        } else {
            let dots = dots + 1;
            let (color, is_window_pixel) = get_pixel_color(
                memory,
                lcd_info,
                scanline,
                window_line,
                pixel,
                &object_data,
            );
            let px = Pixel { x: pixel as u8, y: scanline as u8, color };
            if pixel + 1 == 160 {
                (
                    GpuState::Mode0 {
                        scanline,
                        window_line: if has_window || is_window_pixel {
                            window_line + 1
                        } else {
                            window_line
                        },
                        dots_left: 376 - dots,
                    },
                    Some(px),
                )
            } else {
                (
                    GpuState::Mode3 {
                        scanline,
                        window_line,
                        has_window: has_window || is_window_pixel,
                        object_data,
                        pixel: pixel + 1,
                        dots,
                        penalty,
                    },
                    Some(px),
                )
            }
        }
    }

    /// Counts the horizontal blank down; at its end the next scanline
    /// starts, or the vertical blank after scanline 143.
    pub fn tick_mode0(scanline: i32, window_line: i32, dots_left: i32) -> (r: GpuState)
        requires
            0 <= scanline < 144,
            0 <= window_line <= scanline + 1,
            1 <= dots_left <= 376,
        ensures
            dot_rel(
                (GpuState::Mode0 { scanline, window_line, dots_left }),
                r,
                None,
                Seq::empty(),
                lcd_of(Seq::empty()),
            ),
            r.wf(),
    {
        let dots_left = dots_left - 1;
        if dots_left == 0 {
            let scanline = scanline + 1;
            if scanline == 144 {
                GpuState::Mode1 { dots_left: 4560 }
            } else {
                GpuState::Mode2 { scanline, window_line, dots_left: 80 }
            }
        } else {
            GpuState::Mode0 { scanline, window_line, dots_left }
        }
    }

    /// Counts the vertical blank down; at its end a new frame starts and
    /// the window line counter resets.
    pub fn tick_mode1(dots_left: i32) -> (r: GpuState)
        requires
            1 <= dots_left <= 4560,
        ensures
            dot_rel(
                (GpuState::Mode1 { dots_left }),
                r,
                None,
                Seq::empty(),
                lcd_of(Seq::empty()),
            ),
            r.wf(),
    {
        let dots_left = dots_left - 1;
        if dots_left == 0 {
            GpuState::Mode2 { scanline: 0, window_line: 0, dots_left: 80 }
        } else {
            GpuState::Mode1 { dots_left }
        }
    }

    /// Advances the state machine by exactly one dot.
    pub fn tick_dot(&mut self, memory: &Memory, lcd_info: &LCDInfo) -> (r: Option<Pixel>)
        requires
            old(self).wf(),
            memory.wf(),
            *lcd_info == lcd_of(memory@),
            lcd_info.wf(),
        ensures
            final(self).wf(),
            dot_rel(*old(self), *final(self), r, memory@, *lcd_info),
            !(*old(self) is Stopped) ==> final(self).frame_pos() == (old(self).frame_pos() + 1)
                % 70224,
    {
        let mut state = GpuState::Stopped;
        core::mem::swap(self, &mut state);
        let (new_state, pix) = match state {
            GpuState::Stopped => (GpuState::tick_stopped(lcd_info), None),
            GpuState::Mode2 { scanline, dots_left, window_line } => (
                GpuState::tick_mode_2(memory, lcd_info, dots_left, scanline, window_line),
                None,
            ),
            GpuState::Mode3 {
                scanline,
                window_line,
                has_window,
                object_data,
                pixel,
                dots,
                penalty,
            } => GpuState::tick_mode3(
                memory,
                lcd_info,
                dots,
                scanline,
                window_line,
                has_window,
                pixel,
                penalty,
                object_data,
            ),
            GpuState::Mode0 { scanline, window_line, dots_left } => (
                GpuState::tick_mode0(scanline, window_line, dots_left),
                None,
            ),
            GpuState::Mode1 { dots_left } => (GpuState::tick_mode1(dots_left), None),
        };
        *self = new_state;
        pix
    }
}

/// A pixel option as the sequence it contributes to the output stream.
pub open spec fn opt_seq(px: Option<Pixel>) -> Seq<Pixel> {
    match px {
        Some(p) => seq![p],
        None => Seq::empty(),
    }
}

/// A pixel option prepended to a pixel stream.
pub open spec fn pixels_cons(px: Option<Pixel>, rest: Seq<Pixel>) -> Seq<Pixel> {
    opt_seq(px) + rest
}

/// `n` consecutive dots: the chained one-dot relation, with the emitted
/// pixels concatenated in order.
pub open spec fn dots_rel(
    pre: GpuState,
    post: GpuState,
    pixels: Seq<Pixel>,
    n: int,
    m: Seq<u8>,
    lcd: LCDInfo,
) -> bool
    decreases n,
{
    if n <= 0 {
        post == pre && pixels.len() == 0
    } else {
        exists|mid: GpuState, px: Option<Pixel>, rest: Seq<Pixel>|
            #![trigger dot_rel(pre, mid, px, m, lcd), pixels_cons(px, rest)]
            dot_rel(pre, mid, px, m, lcd) && dots_rel(mid, post, rest, n - 1, m, lcd) && pixels
                == pixels_cons(px, rest)
    }
}

/// The scanline register's byte value for a state.
pub open spec fn ly_byte(st: GpuState) -> u8 {
    st.spec_ly() as u8
}

/// The bus after the per-batch register reconciliation: the scanline
/// register takes the current line (when the LCD runs), and the status
/// register's LYC-match and mode bits are recomputed with its other bits
/// kept.
pub open spec fn gpu_regs_view(m: Seq<u8>, st: GpuState) -> Seq<u8> {
    let m1 = if st is Stopped {
        m
    } else {
        crate::memory::write_view(m, LY, ly_byte(st))
    };
    let lyc_match = !(st is Stopped) && ly_byte(st) == m1[LYC as int];
    let mode_bits = match st.spec_mode() {
        Option::None => m1[STAT as int] & 3,
        Option::Some(md) => md,
    };
    crate::memory::write_view(
        m1,
        STAT,
        (m1[STAT as int] & 0xF8) | ((if lyc_match {
            1u8
        } else {
            0u8
        }) << 2) | mode_bits,
    )
}

/// The interrupts one dot batch raises: STAT when the mode changed into
/// one whose interrupt is enabled or the LYC match newly holds, and
/// VBlank when the mode changed to vertical blank.
pub open spec fn gpu_interrupts(m: Seq<u8>, st: GpuState) -> Seq<Interrupts> {
    let status = lcd_status_of(m);
    let old_mode = m[STAT as int] & 3;
    let old_lyc = bit_set(m[STAT as int], 2);
    let lyc_match = !(st is Stopped) && ly_byte(st) == m[LYC as int];
    let changed = match st.spec_mode() {
        Option::None => false,
        Option::Some(md) => md != old_mode,
    };
    let new_mode = match st.spec_mode() {
        Option::None => old_mode,
        Option::Some(md) => md,
    };
    let lcd_int = (changed && ((new_mode == 0 && status.mode_0_interrupt) || (new_mode == 1
        && status.mode_1_interrupt) || (new_mode == 2 && status.mode_2_interrupt))) || (lyc_match
        && !old_lyc && status.lyc_interrupt);
    let vblank_int = changed && new_mode == 1;
    if lcd_int && vblank_int {
        seq![Interrupts::Lcd, Interrupts::VBlank]
    } else if lcd_int {
        seq![Interrupts::Lcd]
    } else if vblank_int {
        seq![Interrupts::VBlank]
    } else {
        Seq::empty()
    }
}

/// The video unit: the mode state machine plus its bus-visible register
/// housekeeping.
pub struct Gpu {
    pub state: GpuState,
}

impl Gpu {
    pub open spec fn wf(self) -> bool {
        self.state.wf()
    }

    /// A fresh frame: the OAM scan of scanline 0.
    pub fn new() -> (r: Gpu)
        ensures
            r.state == (GpuState::Mode2 { scanline: 0, dots_left: 80, window_line: 0 }),
            r.wf(),
    {
        Gpu { state: GpuState::Mode2 { scanline: 0, window_line: 0, dots_left: 80 } }
    }

    /// The STAT mode number, or None while the LCD is off.
    pub fn mode(&self) -> (r: Option<u8>)
        ensures
            r == self.state.spec_mode(),
    {
        match &self.state {
            GpuState::Stopped => None,
            GpuState::Mode2 { .. } => Some(2),
            GpuState::Mode3 { .. } => Some(3),
            GpuState::Mode0 { .. } => Some(0),
            GpuState::Mode1 { .. } => Some(1),
        }
    }

    /// The externally visible scanline, or None while the LCD is off.
    pub fn scanline(&self) -> (r: Option<i32>)
        requires
            self.wf(),
        ensures
            self.state is Stopped ==> r is None,
            !(self.state is Stopped) ==> (r matches Some(sl) && sl == self.state.spec_ly() && 0
                <= sl <= 153),
    {
        match &self.state {
            GpuState::Stopped => None,
            GpuState::Mode2 { scanline, .. } => Some(*scanline),
            GpuState::Mode3 { scanline, .. } => Some(*scanline),
            GpuState::Mode0 { scanline, .. } => Some(*scanline),
            GpuState::Mode1 { dots_left } => Some(((4560 - dots_left) / 456) + 144),
        }
    }

    /// Advances the video unit by one dot batch (4 dots = 1 M-cycle),
    /// then reconciles the scanline and status registers and reports the
    /// interrupts to raise.
    #[verifier::rlimit(100)]
    pub fn tick_gpu(&mut self, memory: &mut Memory) -> (r: (Vec<Pixel>, Vec<Interrupts>))
        requires
            old(self).wf(),
            old(memory).wf(),
        ensures
            final(self).wf(),
            final(memory).wf(),
            ({
                let m = old(memory)@;
                let lcd = lcd_of(m);
                let start = if lcd.is_ppu_enabled {
                    old(self).state
                } else {
                    GpuState::Stopped
                };
                &&& dots_rel(start, final(self).state, r.0@, 4, m, lcd)
                &&& final(memory)@ == gpu_regs_view(m, final(self).state)
                &&& r.1@ == gpu_interrupts(m, final(self).state)
            }),
    {
        let lcd_info = get_lcdinfo(memory);
        if !lcd_info.is_ppu_enabled {
            self.state = GpuState::Stopped;
        }
        let ghost m0 = memory@;
        let ghost start = self.state;
        let mut pixels: Vec<Pixel> = Vec::new();

        let p1 = self.state.tick_dot(memory, &lcd_info);
        let ghost s1 = self.state;
        match p1 {
            Some(p) => pixels.push(p),
            None => {},
        }
        let p2 = self.state.tick_dot(memory, &lcd_info);
        let ghost s2 = self.state;
        match p2 {
            Some(p) => pixels.push(p),
            None => {},
        }
        let p3 = self.state.tick_dot(memory, &lcd_info);
        let ghost s3 = self.state;
        match p3 {
            Some(p) => pixels.push(p),
            None => {},
        }
        let p4 = self.state.tick_dot(memory, &lcd_info);
        let ghost s4 = self.state;
        match p4 {
            Some(p) => pixels.push(p),
            None => {},
        }
        proof {
            let tail4: Seq<Pixel> = Seq::empty();
            let tail3 = pixels_cons(p4, tail4);
            let tail2 = pixels_cons(p3, tail3);
            let tail1 = pixels_cons(p2, tail2);
            let tail0 = pixels_cons(p1, tail1);
            assert(dots_rel(s4, s4, tail4, 0, m0, lcd_info));
            assert(dot_rel(s3, s4, p4, m0, lcd_info));
            assert(dots_rel(s3, s4, tail3, 1, m0, lcd_info));
            assert(dot_rel(s2, s3, p3, m0, lcd_info));
            assert(dots_rel(s2, s4, tail2, 2, m0, lcd_info));
            assert(dot_rel(s1, s2, p2, m0, lcd_info));
            assert(dots_rel(s1, s4, tail1, 3, m0, lcd_info));
            assert(dot_rel(start, s1, p1, m0, lcd_info));
            assert(dots_rel(start, s4, tail0, 4, m0, lcd_info));
            assert(pixels@ =~= tail0);
        }

        let maybe_mode = self.mode();
        let maybe_scanline = self.scanline();
        let stat_before = memory.read(STAT);
        let current_lyc = (stat_before >> 2) & 1 == 1;
        proof {
            assert(((stat_before >> 2) & 1 == 1) == bit_set(stat_before, 2));
        }
        match maybe_scanline {
            Some(sl) => {
                memory.poke(LY, sl as u8);
            },
            None => {},
        }
        let stat = memory.read(STAT);
        let current_mode = stat & 3;
        let lyc = memory.read(LYC);
        let lyc_match = match maybe_scanline {
            Some(sl) => (sl as u8) == lyc,
            None => false,
        };
        let mode_bits = match maybe_mode {
            Some(mb) => mb,
            None => current_mode,
        };
        let lcd_status = LcdStatus::from_memory(memory);
        memory.poke(
            STAT,
            (stat & 0xF8) | ((if lyc_match {
                1u8
            } else {
                0u8
            }) << 2) | mode_bits,
        );
        proof {
            assert(final(memory)@ =~= gpu_regs_view(m0, self.state));
        }

        let mut interrupts: Vec<Interrupts> = Vec::new();
        let mode_changed = match maybe_mode {
            Some(mb) => mb != current_mode,
            None => false,
        };
        let new_mode = match maybe_mode {
            Some(mb) => mb,
            None => current_mode,
        };
        let lcd_int = (mode_changed && ((new_mode == 0 && lcd_status.mode_0_interrupt) || (new_mode
            == 1 && lcd_status.mode_1_interrupt) || (new_mode == 2 && lcd_status.mode_2_interrupt)))
            || (lyc_match && !current_lyc && lcd_status.lyc_interrupt);
        let vblank_int = mode_changed && new_mode == 1;
        if lcd_int {
            interrupts.push(Interrupts::Lcd);
        }
        if vblank_int {
            interrupts.push(Interrupts::VBlank);
        }
        proof {
            assert(interrupts@ =~= gpu_interrupts(m0, self.state));
        }
        (pixels, interrupts)
    }
}

/// On any well-formed running state the externally visible scanline is
/// the frame position divided by the 456 dots of a scanline. Since each
/// dot advances the position by exactly one, modulo the 70224 dots of a
/// frame, a full frame consumes exactly 70224 dots (154 scanlines of 456
/// dots) and the scanline register visits 0..=153 in order before
/// wrapping to 0.
pub proof fn lemma_ly_tracks_frame_pos(st: GpuState)
    requires
        st.wf(),
    ensures
        0 <= st.frame_pos() < 70224,
        !(st is Stopped) ==> st.spec_ly() == st.frame_pos() / 456 && 0 <= st.spec_ly() <= 153,
{
    match st {
        GpuState::Stopped => {},
        GpuState::Mode2 { scanline, dots_left, .. } => {
            assert(st.frame_pos() / 456 == scanline) by (nonlinear_arith)
                requires
                    st.frame_pos() == scanline * 456 + 80 - dots_left,
                    0 <= scanline < 144,
                    1 <= dots_left <= 80,
            ;
            assert(st.frame_pos() < 70224) by (nonlinear_arith)
                requires
                    st.frame_pos() == scanline * 456 + 80 - dots_left,
                    0 <= scanline < 144,
                    1 <= dots_left <= 80,
            ;
        },
        GpuState::Mode3 { scanline, pixel, dots, penalty, .. } => {
            assert(st.frame_pos() / 456 == scanline && st.frame_pos() < 70224)
                by (nonlinear_arith)
                requires
                    st.frame_pos() == scanline * 456 + 80 + dots,
                    0 <= scanline < 144,
                    0 <= pixel < 160,
                    pixel <= dots,
                    dots - pixel + penalty <= 19,
                    0 <= penalty,
            ;
        },
        GpuState::Mode0 { scanline, dots_left, .. } => {
            assert(st.frame_pos() / 456 == scanline && st.frame_pos() < 70224)
                by (nonlinear_arith)
                requires
                    st.frame_pos() == scanline * 456 + 456 - dots_left,
                    0 <= scanline < 144,
                    1 <= dots_left <= 376,
            ;
        },
        GpuState::Mode1 { dots_left } => {
            assert(st.frame_pos() / 456 == 144 + (4560 - dots_left) / 456 && st.frame_pos()
                < 70224) by (nonlinear_arith)
                requires
                    st.frame_pos() == 65664 + 4560 - dots_left,
                    1 <= dots_left <= 4560,
            ;
        },
    }
}

} // verus!
