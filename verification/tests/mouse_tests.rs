use cortex::config::{Config, ConfigManager};
use cortex::fs::{FileEntry, FileType};
use cortex::mouse::{handle_mouse_event, MouseAction, MouseEffect, Position};
use cortex::state::{ActivePanel, AppState};

fn entries(n: usize) -> Vec<FileEntry> {
    (0..n)
        .map(|i| {
            let mut e = FileEntry::default();
            e.name = format!("f{}", i);
            e.path = format!("/d/f{}", i);
            e.file_type = FileType::File;
            e
        })
        .collect()
}

fn state() -> AppState {
    let cm = ConfigManager::new("/tmp/cortex.toml".to_string(), Config::default());
    let mut s = AppState::new("/d".to_string(), cm, None, None, 0);
    s.left_panel.entries = entries(30);
    s.right_panel.entries = entries(5);
    s
}

#[test]
fn click_focuses_and_selects() {
    let mut s = state();
    let r = handle_mouse_event(&mut s, MouseAction::Click(Position { x: 50, y: 3 }), 80, 24);
    assert_eq!(r, MouseEffect::Nothing);
    assert_eq!(s.active_panel, ActivePanel::Right);
    assert_eq!(s.right_panel.selected_index, 2);
    // Below the last entry: focus moves, selection stays.
    handle_mouse_event(&mut s, MouseAction::Click(Position { x: 50, y: 10 }), 80, 24);
    assert_eq!(s.right_panel.selected_index, 2);
    s.left_panel.view_offset = 4;
    handle_mouse_event(&mut s, MouseAction::Click(Position { x: 10, y: 1 }), 80, 24);
    assert_eq!(s.active_panel, ActivePanel::Left);
    assert_eq!(s.left_panel.selected_index, 4);
    // The border row and the bottom rows select nothing.
    handle_mouse_event(&mut s, MouseAction::Click(Position { x: 10, y: 0 }), 80, 24);
    handle_mouse_event(&mut s, MouseAction::Click(Position { x: 10, y: 20 }), 80, 24);
    assert_eq!(s.left_panel.selected_index, 4);
}

#[test]
fn double_and_right_clicks() {
    let mut s = state();
    let r = handle_mouse_event(&mut s, MouseAction::DoubleClick(Position { x: 1, y: 2 }), 80, 24);
    assert_eq!(r, MouseEffect::OpenSelected);
    assert_eq!(s.left_panel.selected_index, 1);
    s.left_panel.marked_files.push("/d/f1".to_string());
    let at = Position { x: 3, y: 5 };
    let r = handle_mouse_event(&mut s, MouseAction::RightClick(at), 80, 24);
    assert_eq!(r, MouseEffect::ContextMenu { at, has_selection: true });
    assert_eq!(s.left_panel.selected_index, 4);
    let r = handle_mouse_event(&mut s, MouseAction::RightClick(Position { x: 70, y: 1 }), 80, 24);
    assert_eq!(r, MouseEffect::ContextMenu { at: Position { x: 70, y: 1 }, has_selection: false });
}

#[test]
fn wheel_scrolls() {
    let mut s = state();
    let left = Position { x: 0, y: 5 };
    handle_mouse_event(&mut s, MouseAction::ScrollDown(left), 80, 24);
    assert_eq!(s.left_panel.view_offset, 3);
    for _ in 0..10 {
        handle_mouse_event(&mut s, MouseAction::ScrollDown(left), 80, 24);
    }
    assert_eq!(s.left_panel.view_offset, 20);
    handle_mouse_event(&mut s, MouseAction::ScrollUp(left), 80, 24);
    assert_eq!(s.left_panel.view_offset, 17);
    s.left_panel.view_offset = 2;
    handle_mouse_event(&mut s, MouseAction::ScrollUp(left), 80, 24);
    assert_eq!(s.left_panel.view_offset, 0);
    // Fewer than ten entries never scroll.
    handle_mouse_event(&mut s, MouseAction::ScrollDown(Position { x: 60, y: 1 }), 80, 24);
    assert_eq!(s.right_panel.view_offset, 0);
    assert_eq!(handle_mouse_event(&mut s, MouseAction::Other, 80, 24), MouseEffect::Nothing);
}

#[test]
fn mouse_leaves_the_rest_of_the_state() {
    let mut s = state();
    s.command_line = "ls".to_string();
    s.command_cursor = 2;
    handle_mouse_event(&mut s, MouseAction::Click(Position { x: 50, y: 3 }), 80, 24);
    handle_mouse_event(&mut s, MouseAction::ScrollUp(Position { x: 0, y: 3 }), 80, 24);
    handle_mouse_event(&mut s, MouseAction::ScrollDown(Position { x: 0, y: 3 }), 80, 24);
    assert_eq!(s.command_line, "ls");
    assert_eq!(s.command_cursor, 2);
}
