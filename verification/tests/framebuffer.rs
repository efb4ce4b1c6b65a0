//! Framebuffer, compositor, and pixel-conversion behavior.

use invader_core::array_sprite::{array_sprite, erase_sprite, test_overlap};
use invader_core::bottom_area::BottomArea;
use invader_core::dot_map::{pos2rgba, set_color, Color, DotMap};
use invader_core::math::Vec2;
use invader_core::top_area::TopArea;

fn num_sprites() -> Vec<Vec<u8>> {
    let mut num: Vec<Vec<u8>> = Vec::new();
    for d in 0..10u8 {
        num.push(vec![d + 1; 8]);
    }
    num
}

#[test]
fn draw_then_erase_restores_idle_framebuffer() {
    let mut map = DotMap::new();
    let before = map.map.clone();
    let sprite: Vec<u8> = vec![0x3C, 0x7E, 0xFF, 0x7E, 0x3C];
    array_sprite(&mut map.map, Vec2::new(50, 16), &sprite);
    assert_ne!(map.map, before);
    erase_sprite(&mut map.map, Vec2::new(50, 16), &sprite);
    assert_eq!(map.map, before);
}

#[test]
fn draw_and_erase_leave_untouched_bits_alone() {
    let mut map = DotMap::new();
    // Background: the whole dot row 20 lit, which is bit 4 of char row 2.
    map.draw_holizon_line(20);
    assert_eq!(map.map[2][60], 0x10);
    // A sprite whose bytes never touch bit 4.
    let sprite: Vec<u8> = vec![0x0F, 0x0F, 0x0F];
    array_sprite(&mut map.map, Vec2::new(60, 16), &sprite);
    assert_eq!(map.map[2][60], 0x10 | 0x0F);
    assert_eq!(map.map[2][59], 0x10);
    assert_eq!(map.map[2][63], 0x10);
    erase_sprite(&mut map.map, Vec2::new(60, 16), &sprite);
    assert_eq!(map.map[2][60], 0x10);
    // Other rows never changed.
    assert_eq!(map.map[1][60], 0);
    assert_eq!(map.map[3][60], 0);
}

#[test]
fn overlap_probe_sees_exactly_the_shared_bits() {
    let mut map = DotMap::new();
    let sprite: Vec<u8> = vec![0x0F, 0x0F];
    assert!(!test_overlap(&map.map, Vec2::new(100, 8), &sprite));
    array_sprite(&mut map.map, Vec2::new(100, 8), &sprite);
    assert!(test_overlap(&map.map, Vec2::new(100, 8), &sprite));
    // A probe whose bits are disjoint from what is lit reports no overlap.
    let high: Vec<u8> = vec![0xF0, 0xF0];
    assert!(!test_overlap(&map.map, Vec2::new(100, 8), &high));
}

#[test]
fn cleared_top_area_converts_to_all_black_of_exact_length() {
    let top = TopArea::new(num_sprites());
    let bytes = top.convert_to_color_bytes(false);
    assert_eq!(bytes.len(), 224 * 32 * 4);
    for p in 0..bytes.len() {
        if p % 4 == 3 {
            assert_eq!(bytes[p], 255);
        } else {
            assert_eq!(bytes[p], 0);
        }
    }
}

#[test]
fn cleared_regions_convert_to_all_black_of_exact_length() {
    let map = DotMap::new();
    let top = TopArea::new(num_sprites());
    let bottom = BottomArea::new(num_sprites(), vec![0xFF; 16]);
    let bytes = map.convert_to_color_bytes(&top.top, &bottom.bottom, false);
    assert_eq!(bytes.len(), 224 * 256 * 4);
    for p in 0..bytes.len() {
        if p % 4 == 3 {
            assert_eq!(bytes[p], 255);
        } else {
            assert_eq!(bytes[p], 0);
        }
    }
}

#[test]
fn lit_dots_take_the_banded_playfield_colors() {
    let mut map = DotMap::new();
    // The floor line: dot row 207 = char row 25, bit 7 — a red band.
    map.draw_holizon_line(207);
    let top = TopArea::new(num_sprites());
    let bottom = BottomArea::new(num_sprites(), vec![0xFF; 16]);
    let bytes = map.convert_to_color_bytes(&top.top, &bottom.bottom, false);
    // Byte offset of pixel (x=5, char row 25, bit 7) in the playfield part.
    let idx = 28672 + (((25 * 8 + 7) * 224) + 5) * 4;
    assert_eq!(&bytes[idx..idx + 4], &[210, 0, 0, 255]);
    // The same frame while the player explodes is red as well.
    let alert = map.convert_to_color_bytes(&top.top, &bottom.bottom, true);
    assert_eq!(&alert[idx..idx + 4], &[210, 0, 0, 255]);
}

#[test]
fn color_table_matches_the_fixed_rgba_values() {
    assert_eq!(set_color(Color::Red), [210, 0, 0, 255]);
    assert_eq!(set_color(Color::Purple), [220, 20, 230, 255]);
    assert_eq!(set_color(Color::Blue), [83, 83, 241, 255]);
    assert_eq!(set_color(Color::Green), [98, 222, 109, 255]);
    assert_eq!(set_color(Color::Turquoise), [68, 200, 210, 255]);
    assert_eq!(set_color(Color::Yellow), [220, 210, 30, 255]);
    assert_eq!(set_color(Color::White), [220, 220, 220, 255]);
}

#[test]
fn playfield_bands_cover_every_char_row() {
    assert_eq!(pos2rgba(0), [210, 0, 0, 255]);
    assert_eq!(pos2rgba(1), [220, 20, 230, 255]);
    assert_eq!(pos2rgba(2), [83, 83, 241, 255]);
    assert_eq!(pos2rgba(4), [98, 222, 109, 255]);
    assert_eq!(pos2rgba(8), [68, 200, 210, 255]);
    assert_eq!(pos2rgba(14), [220, 20, 230, 255]);
    assert_eq!(pos2rgba(16), [220, 210, 30, 255]);
    assert_eq!(pos2rgba(21), [210, 0, 0, 255]);
    assert_eq!(pos2rgba(23), [68, 200, 210, 255]);
    assert_eq!(pos2rgba(25), [210, 0, 0, 255]);
}

#[test]
fn score_display_writes_five_digits_most_significant_first() {
    let num = num_sprites();
    let mut top = TopArea::new(num.clone());
    top.draw_score(12345);
    for m in 0..5usize {
        let digit = [1u8, 2, 3, 4, 5][m] as usize;
        for dx in 0..8usize {
            assert_eq!(top.top[3][24 + 8 * m + dx], num[digit][dx]);
        }
    }
}

#[test]
fn life_display_shows_digit_and_spare_players() {
    let num = num_sprites();
    let player: Vec<u8> = vec![0xAA; 16];
    let mut bottom = BottomArea::new(num.clone(), player.clone());
    bottom.draw(3);
    for dx in 0..8usize {
        assert_eq!(bottom.bottom[0][8 + dx], num[3][dx]);
    }
    for m in 0..2usize {
        for dx in 0..16usize {
            assert_eq!(bottom.bottom[0][24 + 16 * m + dx], player[dx]);
        }
    }
    // Nothing beyond the two spare players.
    assert_eq!(bottom.bottom[0][24 + 32], 0);
}
