use boyohboy::gpu::obj_data::ObjData;
use boyohboy::{Color, GameBoy};

fn fresh_gb() -> GameBoy {
    GameBoy::new(vec![0u8; 0x8000])
}

/// Writes one OAM entry (y, x, tile, flags) at the given slot.
fn write_oam(gb: &mut GameBoy, slot: u16, y: u8, x: u8, tile: u8, flags: u8) {
    let base = 0xFE00 + slot * 4;
    gb.memory.write(base, y).unwrap();
    gb.memory.write(base + 1, x).unwrap();
    gb.memory.write(base + 2, tile).unwrap();
    gb.memory.write(base + 3, flags).unwrap();
}

#[test]
fn test_sprite_selection_caps_at_ten() {
    let mut gb = fresh_gb();
    // Twelve sprites all covering scanline 0 (stored y = 16).
    for slot in 0..12u16 {
        write_oam(&mut gb, slot, 16, 20 + slot as u8, 0, 0);
    }
    let selected = ObjData::from_memory(&gb.memory, 0);
    assert_eq!(selected.len(), 10);
    // Only the first ten OAM slots were kept.
    for obj in selected.iter() {
        assert!(obj.index < 10);
    }
}

#[test]
fn test_sprite_selection_sorts_by_x_then_index() {
    let mut gb = fresh_gb();
    // Descending x so the sort has to reverse the scan order, plus an
    // x tie between slots 5 and 6 where the lower OAM index wins.
    for slot in 0..8u16 {
        write_oam(&mut gb, slot, 16, 100 - slot as u8, 0, 0);
    }
    write_oam(&mut gb, 5, 16, 50, 0, 0);
    write_oam(&mut gb, 6, 16, 50, 0, 0);
    let selected = ObjData::from_memory(&gb.memory, 0);
    assert_eq!(selected.len(), 8);
    for w in selected.windows(2) {
        assert!(
            w[0].x < w[1].x || (w[0].x == w[1].x && w[0].index < w[1].index),
            "selection must ascend by (x, OAM index)"
        );
    }
    assert_eq!(selected[0].x, 50);
    assert_eq!(selected[0].index, 5);
    assert_eq!(selected[1].x, 50);
    assert_eq!(selected[1].index, 6);
}

#[test]
fn test_sprite_selection_skips_lines_it_does_not_cover() {
    let mut gb = fresh_gb();
    write_oam(&mut gb, 0, 16, 8, 0, 0);  // covers scanlines 0..=7
    write_oam(&mut gb, 1, 40, 8, 0, 0);  // covers scanlines 24..=31
    assert_eq!(ObjData::from_memory(&gb.memory, 0).len(), 1);
    assert_eq!(ObjData::from_memory(&gb.memory, 10).len(), 0);
    assert_eq!(ObjData::from_memory(&gb.memory, 24).len(), 1);
}

#[test]
fn test_transparent_sprite_shows_background_color() {
    let mut gb = fresh_gb();
    // LCD on, 0x8000 tile addressing, objects on, background on.
    gb.memory.write(0xFF40, 0x93).unwrap();
    // Background palette: color id 1 -> DarkGray (0b10 at bits 3..2).
    gb.memory.write(0xFF47, 0x08).unwrap();
    // Tile 0: every pixel has color id 1 (low bitplane all ones).
    for row in 0..8u16 {
        gb.memory.write(0x8000 + row * 2, 0xFF).unwrap();
        gb.memory.write(0x8000 + row * 2 + 1, 0x00).unwrap();
    }
    // Tile 1: every pixel transparent (color id 0).
    for row in 0..8u16 {
        gb.memory.write(0x8010 + row * 2, 0x00).unwrap();
        gb.memory.write(0x8010 + row * 2 + 1, 0x00).unwrap();
    }
    // The background tile map is all zeroes already: tile 0 everywhere.
    // A sprite with tile 1 (all-transparent) over columns 0..=7 of
    // scanline 0: the background color must show through, not White.
    write_oam(&mut gb, 0, 16, 8, 1, 0);

    // One scanline's worth of cycles yields the line's pixel batch.
    let pixels = gb.tick(114);
    let first = pixels
        .iter()
        .find(|p| p.x == 0 && p.y == 0)
        .expect("scanline 0 must emit its first pixel");
    assert_eq!(first.color, Color::DarkGray);
}

#[test]
fn test_sprite_pixel_wins_over_background() {
    let mut gb = fresh_gb();
    gb.memory.write(0xFF40, 0x93).unwrap();
    gb.memory.write(0xFF47, 0x08).unwrap();  // bg id 1 -> DarkGray
    gb.memory.write(0xFF48, 0xC0).unwrap();  // obj palette 0: id 3 -> Black
    for row in 0..8u16 {
        gb.memory.write(0x8000 + row * 2, 0xFF).unwrap();
        gb.memory.write(0x8000 + row * 2 + 1, 0x00).unwrap();
    }
    // Tile 1: every pixel color id 3.
    for row in 0..8u16 {
        gb.memory.write(0x8010 + row * 2, 0xFF).unwrap();
        gb.memory.write(0x8010 + row * 2 + 1, 0xFF).unwrap();
    }
    write_oam(&mut gb, 0, 16, 8, 1, 0);
    let pixels = gb.tick(114);
    let first = pixels.iter().find(|p| p.x == 0 && p.y == 0).unwrap();
    assert_eq!(first.color, Color::Black);
}

#[test]
fn test_line_emits_160_pixels_and_frame_boundary_pixel() {
    let mut gb = fresh_gb();
    let pixels = gb.tick(114);
    assert_eq!(pixels.len(), 160);
    assert!(pixels.iter().all(|p| p.y == 0));
    assert_eq!(pixels[0].x, 0);
    assert_eq!(pixels[159].x, 159);
    // Run up to the last visible scanline and check the frame-boundary
    // pixel (column 159, row 143) is emitted.
    let mut last = Vec::new();
    for _ in 1..144 {
        last = gb.tick(114);
    }
    assert!(last.iter().any(|p| p.x == 159 && p.y == 143));
}

#[test]
fn test_window_wins_over_background() {
    let mut gb = fresh_gb();
    // LCD on, window map 0x9C00, window on, 0x8000 addressing, bg map
    // 0x9800, background on.
    gb.memory.write(0xFF40, 0xF1).unwrap();
    gb.memory.write(0xFF4B, 7).unwrap();  // window x: screen column 0
    gb.memory.write(0xFF4A, 0).unwrap();  // window y: scanline 0
    // id1 -> DarkGray, id2 -> LightGray.
    gb.memory.write(0xFF47, 0x18).unwrap();
    // Tile 0 (background): all color id 1.
    for row in 0..8u16 {
        gb.memory.write(0x8000 + row * 2, 0xFF).unwrap();
        gb.memory.write(0x8000 + row * 2 + 1, 0x00).unwrap();
    }
    // Tile 1 (window): all color id 2.
    for row in 0..8u16 {
        gb.memory.write(0x8010 + row * 2, 0x00).unwrap();
        gb.memory.write(0x8010 + row * 2 + 1, 0xFF).unwrap();
    }
    // The window tile map points at tile 1.
    gb.memory.write(0x9C00, 0x01).unwrap();
    let pixels = gb.tick(114);
    let first = pixels.iter().find(|p| p.x == 0 && p.y == 0).unwrap();
    assert_eq!(first.color, Color::LightGray);
}

#[test]
fn test_sprite_behind_flag_defers_to_nonzero_background() {
    let mut gb = fresh_gb();
    gb.memory.write(0xFF40, 0x93).unwrap();
    gb.memory.write(0xFF47, 0x08).unwrap();  // bg id 1 -> DarkGray
    gb.memory.write(0xFF48, 0xC0).unwrap();  // obj id 3 -> Black
    for row in 0..8u16 {
        gb.memory.write(0x8000 + row * 2, 0xFF).unwrap();  // bg: id 1
        gb.memory.write(0x8000 + row * 2 + 1, 0x00).unwrap();
        gb.memory.write(0x8010 + row * 2, 0xFF).unwrap();  // obj: id 3
        gb.memory.write(0x8010 + row * 2 + 1, 0xFF).unwrap();
    }
    // Sprite with the behind-background flag: a non-zero background id
    // suppresses it.
    write_oam(&mut gb, 0, 16, 8, 1, 0x80);
    let pixels = gb.tick(114);
    let first = pixels.iter().find(|p| p.x == 0 && p.y == 0).unwrap();
    assert_eq!(first.color, Color::DarkGray);
}

#[test]
fn test_sprite_behind_flag_shows_over_zero_background() {
    let mut gb = fresh_gb();
    gb.memory.write(0xFF40, 0x93).unwrap();
    gb.memory.write(0xFF47, 0x00).unwrap();  // bg all ids -> White
    gb.memory.write(0xFF48, 0xC0).unwrap();  // obj id 3 -> Black
    // Background tile 0 stays all zeroes: color id 0 everywhere.
    for row in 0..8u16 {
        gb.memory.write(0x8010 + row * 2, 0xFF).unwrap();  // obj: id 3
        gb.memory.write(0x8010 + row * 2 + 1, 0xFF).unwrap();
    }
    write_oam(&mut gb, 0, 16, 8, 1, 0x80);
    let pixels = gb.tick(114);
    let first = pixels.iter().find(|p| p.x == 0 && p.y == 0).unwrap();
    assert_eq!(first.color, Color::Black);
}

#[test]
fn test_lcd_off_emits_no_pixels() {
    let mut gb = fresh_gb();
    gb.memory.write(0xFF40, 0x00).unwrap();
    let pixels = gb.tick(114);
    assert!(pixels.is_empty());
}
