use cortex::glyph::{draw_char_to_frame, glyph_rows, render_tui_to_pixels};

#[test]
fn glyph_table() {
    assert_eq!(glyph_rows('A'), [0x18, 0x3C, 0x66, 0x66, 0x7E, 0x66, 0x66, 0x00]);
    assert_eq!(glyph_rows('a'), glyph_rows('A'));
    assert_eq!(glyph_rows('\u{2500}'), [0x00, 0x00, 0x00, 0xFF, 0x00, 0x00, 0x00, 0x00]);
    assert_eq!(glyph_rows('\u{e9}'), [0x7E, 0x81, 0xA5, 0x81, 0xBD, 0x99, 0x81, 0x7E]);
}

#[test]
fn draws_scaled_dots() {
    // A 16x16 frame; the '|' glyph has the two middle columns set on every row.
    let width = 16;
    let mut frame = vec![0u8; width * 16 * 4];
    draw_char_to_frame(&mut frame, '|', 0, 0, width, 16, 16, 10, 20, 30);
    let px = |x: usize, y: usize| {
        let i = (y * width + x) * 4;
        [frame[i], frame[i + 1], frame[i + 2], frame[i + 3]]
    };
    assert_eq!(px(6, 0), [10, 20, 30, 255]);
    assert_eq!(px(9, 15), [10, 20, 30, 255]);
    assert_eq!(px(5, 3), [0, 0, 0, 0]);
    assert_eq!(px(10, 3), [0, 0, 0, 0]);
}

#[test]
fn clips_to_frame() {
    let width = 4;
    let mut frame = vec![1u8; width * 2 * 4];
    draw_char_to_frame(&mut frame, '_', 0, 0, width, 8, 8, 9, 9, 9);
    // Row 6 of '_' is outside a two-row frame: nothing changes.
    assert!(frame.iter().all(|&b| b == 1));
    let mut small = vec![0u8; 3];
    draw_char_to_frame(&mut small, '#', 0, 0, 1, 8, 8, 1, 1, 1);
    assert_eq!(small, vec![0, 0, 0]);
}

#[test]
fn render_lines_cuts_to_the_frame() {
    let (width, height) = (100usize, 50usize);
    let mut frame = vec![7u8; width * height * 4 + 3];
    let lines = vec!["hello world".to_string(), "xy".to_string(), "z".to_string()];
    render_tui_to_pixels(&mut frame, width, height, &lines);
    // Expected: cleared to opaque black, then 6 cells of 16 pixels on each of
    // the 2 rows of 24 pixels that fit.
    let mut expected = vec![7u8; width * height * 4 + 3];
    for p in 0..width * height * 4 {
        expected[p] = if p % 4 == 3 { 255 } else { 0 };
    }
    for (row, line) in ["hello ", "xy"].iter().enumerate() {
        for (col, ch) in line.chars().enumerate() {
            draw_char_to_frame(&mut expected, ch, col * 16, row * 24, width, 16, 24, 255, 255, 255);
        }
    }
    assert_eq!(frame, expected);
    // The bytes after the last whole pixel stay.
    assert_eq!(&frame[width * height * 4..], &[7, 7, 7]);
}

#[test]
fn render_cell_size_follows_the_frame() {
    // 3360 pixels wide: a third of a 35th is 32; 2880 high: 48.
    let (width, height) = (3360usize, 2880usize);
    let mut frame = vec![0u8; width * height * 4];
    render_tui_to_pixels(&mut frame, width, height, &vec!["I".to_string()]);
    let mut expected = vec![0u8; width * height * 4];
    for p in 0..expected.len() {
        if p % 4 == 3 {
            expected[p] = 255;
        }
    }
    draw_char_to_frame(&mut expected, 'I', 0, 0, width, 32, 48, 255, 255, 255);
    assert!(frame == expected);
}

#[test]
fn far_right_characters_draw_nothing() {
    let mut frame = vec![9u8; 16];
    draw_char_to_frame(&mut frame, 'A', usize::MAX - 8, 0, 1, 8, 8, 1, 2, 3);
    assert_eq!(frame, vec![9u8; 16]);
}
