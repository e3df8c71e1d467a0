use aurex::framebuffer::{blend_pixel, draw_text, glyph_5x7, text_pixel_width, BootFramebuffer};

fn blank(width: u32, height: u32) -> Vec<u8> {
    vec![0u8; (width * height * 4) as usize]
}

#[test]
fn glyphs_ignore_ascii_case() {
    assert_eq!(glyph_5x7('a'), glyph_5x7('A'));
    assert_eq!(
        glyph_5x7('A'),
        [0b01110, 0b10001, 0b10001, 0b11111, 0b10001, 0b10001, 0b10001]
    );
    assert_eq!(glyph_5x7('?'), [0u8; 7]);
    assert_eq!(glyph_5x7(' '), [0u8; 7]);
    assert_eq!(glyph_5x7('7'), [0b11111, 0b00001, 0b00010, 0b00100, 0b01000, 0b01000, 0b01000]);
}

#[test]
fn text_width_counts_spaces_as_four_units() {
    assert_eq!(text_pixel_width("AB C", 2), 44);
    assert_eq!(text_pixel_width("", 3), 0);
    assert_eq!(text_pixel_width("  ", 1), 8);
    assert_eq!(text_pixel_width("HI", -1), -12);
}

#[test]
fn blend_pixel_mixes_toward_the_colour() {
    let mut rgba = blank(2, 2);
    blend_pixel(&mut rgba, 2, 2, 1, 0, [255, 100, 0], 255);
    assert_eq!(&rgba[4..8], &[255, 100, 0, 255]);
    assert_eq!(&rgba[0..4], &[0, 0, 0, 0]);

    let mut half = vec![100u8, 100, 100, 7];
    blend_pixel(&mut half, 1, 1, 0, 0, [200, 0, 100], 128);
    assert_eq!(half, vec![150, 49, 100, 255]);

    let mut none = vec![10u8, 20, 30, 40];
    blend_pixel(&mut none, 1, 1, 0, 0, [200, 200, 200], 0);
    assert_eq!(none, vec![10, 20, 30, 255]);
}

#[test]
fn blend_pixel_outside_the_frame_changes_nothing() {
    let mut rgba = blank(2, 2);
    blend_pixel(&mut rgba, 2, 2, 2, 0, [255, 255, 255], 255);
    blend_pixel(&mut rgba, 2, 2, -1, 1, [255, 255, 255], 255);
    blend_pixel(&mut rgba, 2, 2, 0, 5, [255, 255, 255], 255);
    assert_eq!(rgba, blank(2, 2));
}

#[test]
fn drawing_one_glyph_lights_its_bits() {
    let mut rgba = blank(8, 8);
    draw_text(&mut rgba, 8, 8, "I", 0, 0, 1, [255, 255, 255], 255);
    let fb = BootFramebuffer { width: 8, height: 8, rgba };
    assert_eq!(fb.pixel_count(), 64);
    assert_eq!(fb.lit_pixel_count(), 15);
    // Top row of `I` is five pixels wide, the stem is column 2.
    assert_eq!(fb.rgba[0], 255);
    assert_eq!(fb.rgba[4 * 5], 0);
    assert_eq!(fb.rgba[4 * (8 + 2)], 255);
    assert_eq!(fb.rgba[4 * (8 + 1)], 0);
}

#[test]
fn spaces_advance_without_drawing_and_scale_grows_glyphs() {
    let mut rgba = blank(32, 16);
    draw_text(&mut rgba, 32, 16, " -", 0, 0, 2, [9, 9, 9], 255);
    let fb = BootFramebuffer { width: 32, height: 16, rgba };
    // `-` is one row of five bits, drawn 2x2 from x = 8.
    assert_eq!(fb.lit_pixel_count(), 20);
    let row = 3 * 2;
    assert_eq!(fb.rgba[4 * (row * 32 + 8)], 9);
    assert_eq!(fb.rgba[4 * (row * 32 + 7)], 0);
    assert_eq!(fb.rgba[4 * (row * 32 + 17)], 9);
    assert_eq!(fb.rgba[4 * (row * 32 + 18)], 0);
}

#[test]
fn text_is_clipped_at_the_frame_edge() {
    let mut rgba = blank(4, 4);
    draw_text(&mut rgba, 4, 4, "HH", -2, -3, 1, [1, 2, 3], 200);
    let fb = BootFramebuffer { width: 4, height: 4, rgba };
    assert!(fb.lit_pixel_count() > 0);
    assert_eq!(fb.rgba.len(), 64);
}

#[test]
fn checksum_weights_bytes_by_position() {
    let fb = BootFramebuffer { width: 1, height: 1, rgba: vec![1, 2, 3, 4] };
    assert_eq!(fb.checksum(), 628_001_459_450_124_970);
    let white = BootFramebuffer { width: 2, height: 1, rgba: vec![255; 8] };
    assert_eq!(white.checksum(), 9_985_924_608_153_553_676);
    let dark = BootFramebuffer { width: 1, height: 1, rgba: vec![0; 4] };
    assert_eq!(dark.checksum(), 0);
    assert_eq!(dark.lit_pixel_count(), 0);
}

#[test]
fn lit_pixels_ignore_alpha() {
    let fb = BootFramebuffer { width: 3, height: 1, rgba: vec![0, 0, 0, 255, 0, 0, 1, 0, 5, 0, 0, 0] };
    assert_eq!(fb.lit_pixel_count(), 2);
    assert_eq!(fb.pixel_count(), 3);
}

#[test]
fn text_needs_only_the_bytes_it_inks() {
    // Eight rows wide frame, but the buffer holds only the seven rows the glyph touches.
    let mut rgba = vec![0u8; 8 * 7 * 4];
    draw_text(&mut rgba, 8, 8, "I", 0, 0, 1, [255, 255, 255], 255);
    let fb = BootFramebuffer { width: 8, height: 7, rgba };
    assert_eq!(fb.lit_pixel_count(), 15);
}
