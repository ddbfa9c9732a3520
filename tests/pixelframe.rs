use std::collections::HashSet;
use std::io::Cursor;

use pixelframe::glyph::{glyph_for, glyph_for_luminance, luminance};
use pixelframe::player::{DEFAULT_COLUMNS, DEFAULT_ROWS};
use pixelframe::render::{render, stride};
use pixelframe::{Animation, AnimationPlayer, DecodeError, Frame, PlaybackAction};

const BLOCK: char = '\u{2588}';

fn solid_rgba(width: u32, height: u32, rgba: [u8; 4]) -> Vec<u8> {
    let mut out = Vec::new();
    for _ in 0..(width * height) {
        out.extend_from_slice(&rgba);
    }
    out
}

fn encode_png(width: u32, height: u32, rgba: Vec<u8>) -> Vec<u8> {
    let img = image::RgbaImage::from_raw(width, height, rgba).unwrap();
    let mut bytes = Vec::new();
    img.write_to(&mut Cursor::new(&mut bytes), image::ImageFormat::Png).unwrap();
    bytes
}

#[test]
fn from_rgba_drops_alpha() {
    let rgba = vec![1, 2, 3, 4, 5, 6, 7, 8];
    let frame = Frame::from_rgba(&rgba, 2, 1);
    assert_eq!(frame.pixels(), &[(1, 2, 3), (5, 6, 7)]);
    assert_eq!(frame.width(), 2);
    assert_eq!(frame.height(), 1);
}

#[test]
fn from_rgba_ignores_trailing_bytes() {
    let rgba = vec![9, 8, 7, 6, 1, 1, 1, 1];
    let frame = Frame::from_rgba(&rgba, 1, 1);
    assert_eq!(frame.pixels(), &[(9, 8, 7)]);
}

#[test]
fn get_pixel_is_row_major() {
    let mut rgba = Vec::new();
    for i in 0..6u8 {
        rgba.extend_from_slice(&[i, 10 + i, 20 + i, 255]);
    }
    let frame = Frame::from_rgba(&rgba, 3, 2);
    assert_eq!(frame.get_pixel(0, 0), Some((0, 10, 20)));
    assert_eq!(frame.get_pixel(2, 0), Some((2, 12, 22)));
    assert_eq!(frame.get_pixel(0, 1), Some((3, 13, 23)));
    assert_eq!(frame.get_pixel(2, 1), Some((5, 15, 25)));
}

#[test]
fn get_pixel_out_of_bounds_is_none() {
    let frame = Frame::from_rgba(&solid_rgba(3, 2, [1, 1, 1, 1]), 3, 2);
    assert_eq!(frame.get_pixel(3, 0), None);
    assert_eq!(frame.get_pixel(0, 2), None);
    assert_eq!(frame.get_pixel(u32::MAX, u32::MAX), None);
    let empty = Frame::from_rgba(&[], 0, 0);
    assert_eq!(empty.get_pixel(0, 0), None);
}

#[test]
fn luminance_of_white_and_black() {
    assert_eq!(luminance(255, 255, 255), 255);
    assert_eq!(luminance(0, 0, 0), 0);
    assert_eq!(glyph_for(255, 255, 255), BLOCK);
    assert_eq!(glyph_for(0, 0, 0), ' ');
}

#[test]
fn luminance_weights_channels() {
    assert_eq!(luminance(100, 150, 200), 140);
    assert_eq!(luminance(255, 0, 0), 76);
    assert_eq!(luminance(0, 255, 0), 149);
    assert_eq!(luminance(0, 0, 255), 29);
    assert_eq!(glyph_for(100, 150, 200), '+');
}

#[test]
fn glyph_bins_are_total_and_ordered() {
    let glyphs = [' ', '.', ':', '-', '=', '+', '*', '#', '@', BLOCK];
    let mut bin = 0usize;
    let mut previous = glyph_for_luminance(0);
    assert_eq!(previous, glyphs[0]);
    for l in 1..=255u8 {
        let g = glyph_for_luminance(l);
        if g != previous {
            bin += 1;
            previous = g;
        }
        assert_eq!(g, glyphs[bin]);
        assert_eq!(g, glyph_for_luminance(l));
    }
    assert_eq!(bin, glyphs.len() - 1);
}

#[test]
fn glyph_bin_edges() {
    assert_eq!(glyph_for_luminance(25), ' ');
    assert_eq!(glyph_for_luminance(26), '.');
    assert_eq!(glyph_for_luminance(50), '.');
    assert_eq!(glyph_for_luminance(51), ':');
    assert_eq!(glyph_for_luminance(225), '@');
    assert_eq!(glyph_for_luminance(226), BLOCK);
}

#[test]
fn stride_floors_at_one() {
    assert_eq!(stride(400, 40), 10);
    assert_eq!(stride(200, 20), 10);
    assert_eq!(stride(79, 40), 1);
    assert_eq!(stride(10, 40), 1);
    assert_eq!(stride(0, 40), 1);
}

#[test]
fn render_400_by_200_fills_default_grid() {
    let frame = Frame::from_rgba(&solid_rgba(400, 200, [255, 255, 255, 255]), 400, 200);
    let cells = render(&frame, DEFAULT_COLUMNS, DEFAULT_ROWS);
    assert_eq!(cells.len(), 800);
    let mut seen = HashSet::new();
    for c in &cells {
        assert!(c.col < 40 && c.row < 20);
        assert_eq!(c.glyph, BLOCK);
        assert!(seen.insert((c.col, c.row)));
    }
    assert_eq!(seen.len(), 800);
}

#[test]
fn render_empty_frame_draws_nothing() {
    let frame = Frame::from_rgba(&[], 0, 0);
    assert!(render(&frame, DEFAULT_COLUMNS, DEFAULT_ROWS).is_empty());
    let flat = Frame::from_rgba(&[], 5, 0);
    assert!(render(&flat, DEFAULT_COLUMNS, DEFAULT_ROWS).is_empty());
}

#[test]
fn render_small_frame_keeps_every_pixel() {
    let frame = Frame::from_rgba(&solid_rgba(79, 3, [0, 0, 0, 0]), 79, 3);
    let cells = render(&frame, 40, 20);
    assert_eq!(cells.len(), 79 * 3);
    assert_eq!((cells[0].col, cells[0].row), (0, 0));
    assert_eq!((cells[78].col, cells[78].row), (78, 0));
    assert_eq!((cells[79].col, cells[79].row), (0, 1));
}

#[test]
fn render_samples_at_stride() {
    // 4 by 1: white, black, black, black; two columns give stride 2.
    let rgba = vec![255, 255, 255, 255, 0, 0, 0, 255, 0, 0, 0, 255, 255, 255, 255, 0];
    let frame = Frame::from_rgba(&rgba, 4, 1);
    let cells = render(&frame, 2, 1);
    assert_eq!(cells.len(), 2);
    assert_eq!((cells[0].col, cells[0].row, cells[0].glyph), (0, 0, BLOCK));
    assert_eq!((cells[1].col, cells[1].row, cells[1].glyph), (1, 0, ' '));
}

#[test]
fn render_drops_unaddressable_columns() {
    let width = 70_000u32;
    let frame = Frame::from_rgba(&solid_rgba(width, 1, [0, 0, 0, 0]), width, 1);
    let cells = render(&frame, width, 1);
    assert_eq!(cells.len(), 65_536);
    assert_eq!(cells[65_535].col, 65_535);
}

#[test]
fn decode_png_keeps_rgb() {
    let rgba = vec![10, 20, 30, 0, 40, 50, 60, 128, 70, 80, 90, 255, 1, 2, 3, 4, 5, 6, 7, 8, 9, 10, 11, 12];
    let bytes = encode_png(3, 2, rgba);
    let animation = Animation::decode(&bytes).unwrap();
    assert_eq!(animation.frame_count(), 1);
    assert_eq!(animation.width(), 3);
    assert_eq!(animation.height(), 2);
    let frame = animation.get_frame(0).unwrap();
    assert_eq!(frame.pixels().len(), 6);
    assert_eq!(
        frame.pixels(),
        &[(10, 20, 30), (40, 50, 60), (70, 80, 90), (1, 2, 3), (5, 6, 7), (9, 10, 11)]
    );
    assert!(animation.get_frame(1).is_none());
}

#[test]
fn decode_corrupt_bytes_fails() {
    let r = Animation::decode(b"definitely not an image");
    assert!(matches!(r, Err(DecodeError::Image(_))));
    assert!(matches!(Animation::decode(&[]), Err(DecodeError::Image(_))));
    let mut truncated = encode_png(2, 2, solid_rgba(2, 2, [1, 2, 3, 4]));
    truncated.truncate(truncated.len() / 2);
    assert!(matches!(Animation::decode(&truncated), Err(DecodeError::Image(_))));
}

#[test]
fn player_step_shows_then_wraps() {
    let frame = Frame::from_rgba(&solid_rgba(400, 200, [0, 0, 0, 255]), 400, 200);
    let player = AnimationPlayer::new(Animation::from_frame(frame), 75);
    let (next, action) = player.step(0, false);
    assert_eq!(next, 0);
    match action {
        PlaybackAction::Show { frame_index, cells, delay_ms } => {
            assert_eq!(frame_index, 0);
            assert_eq!(cells.len(), 800);
            assert!(cells.iter().all(|c| c.glyph == ' '));
            assert_eq!(delay_ms, 75);
        }
        PlaybackAction::Stop => panic!("expected a frame"),
    }
}

#[test]
fn player_step_stops_when_cancelled() {
    let frame = Frame::from_rgba(&solid_rgba(2, 2, [0, 0, 0, 255]), 2, 2);
    let player = AnimationPlayer::new(Animation::from_frame(frame), 100);
    let (next, action) = player.step(0, true);
    assert_eq!(next, 0);
    assert!(matches!(action, PlaybackAction::Stop));
}

#[test]
fn player_render_frame_and_color_to_char() {
    let frame = Frame::from_rgba(&solid_rgba(80, 40, [255, 255, 255, 255]), 80, 40);
    let player = AnimationPlayer::new(Animation::from_frame(frame.clone()), 100);
    let cells = player.render_frame(&frame);
    assert_eq!(cells.len(), 800);
    assert_eq!(player.color_to_char(255, 255, 255), BLOCK);
    assert_eq!(player.color_to_char(0, 0, 0), ' ');
    assert_eq!(player.animation().frame_count(), 1);
}

#[test]
fn render_positions_are_distinct_for_odd_sizes() {
    let frame = Frame::from_rgba(&solid_rgba(123, 57, [128, 128, 128, 255]), 123, 57);
    let cells = render(&frame, 40, 20);
    // strides 3 and 2 give 41 columns and 29 rows of samples
    assert_eq!(cells.len(), 41 * 29);
    let mut seen = HashSet::new();
    for (k, c) in cells.iter().enumerate() {
        assert_eq!((c.col as usize, c.row as usize), (k % 41, k / 41));
        assert!(seen.insert((c.col, c.row)));
        assert_eq!(c.glyph, glyph_for(128, 128, 128));
    }
}
