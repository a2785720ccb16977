use cortex::screen::{TerminalBuffer, TerminalCell, TerminalRenderer};
use cortex::theme::Color;

#[test]
fn blank_buffer() {
    let b = TerminalBuffer::new(3, 2);
    assert_eq!(b.get_cell(2, 1), Some(&TerminalCell { ch: ' ', fg: Color::White, bg: Color::Black }));
    assert_eq!(b.get_cell(3, 0), None);
    assert_eq!(b.get_cell(0, 2), None);
}

#[test]
fn set_then_get() {
    let mut b = TerminalBuffer::new(4, 3);
    let cell = TerminalCell { ch: 'x', fg: Color::Rgb(1, 2, 3), bg: Color::Indexed(7) };
    b.set_cell(1, 2, cell);
    assert_eq!(b.get_cell(1, 2), Some(&cell));
    assert_eq!(b.get_cell(2, 1).map(|c| c.ch), Some(' '));
    // Outside the grid nothing changes.
    b.set_cell(9, 0, cell);
    assert_eq!(b.get_cell(0, 0).map(|c| c.ch), Some(' '));
    b.clear();
    assert_eq!(b.get_cell(1, 2).map(|c| c.ch), Some(' '));
}

#[test]
fn renderer_fits_window() {
    let mut r = TerminalRenderer::new(800, 600);
    assert_eq!(r.width_in_chars, 88);
    assert_eq!(r.height_in_chars, 33);
    assert!(r.buffer.get_cell(87, 32).is_some());
    assert!(r.buffer.get_cell(88, 0).is_none());
    r.buffer.set_cell(0, 0, TerminalCell { ch: 'a', fg: Color::Red, bg: Color::Reset });
    r.resize(90, 36);
    assert_eq!((r.width_in_chars, r.height_in_chars), (10, 2));
    assert_eq!(r.buffer.get_cell(0, 0).map(|c| c.ch), Some(' '));
    r.clear();
    assert_eq!(r.window_width, 90);
}

#[test]
fn screen_lines_read_the_grid() {
    let mut b = TerminalBuffer::new(3, 2);
    b.set_cell(0, 0, TerminalCell { ch: 'h', fg: Color::White, bg: Color::Black });
    b.set_cell(2, 1, TerminalCell { ch: '│', fg: Color::White, bg: Color::Black });
    assert_eq!(b.screen_lines(), vec!["h  ".to_string(), "  │".to_string()]);
}
