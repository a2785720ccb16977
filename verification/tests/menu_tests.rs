use cortex::config::{Config, ConfigManager};
use cortex::fs::{FileEntry, FileType};
use cortex::menu::{
    copy_files, delete_files, execute_context_menu_action, get_selected_files, handle_context_menu_input,
    move_files, ContextMenu, ContextMenuAction, MenuEffect,
};
use cortex::shortcuts::KeyCode;
use cortex::state::{AppState, FileOperation};

fn entry(name: &str, kind: FileType) -> FileEntry {
    let mut e = FileEntry::default();
    e.name = name.to_string();
    e.path = format!("/home/u/{}", name);
    e.file_type = kind;
    e.size_display = "1 KiB".to_string();
    e.permissions = "rw-r--r--".to_string();
    e
}

fn state() -> AppState {
    let cm = ConfigManager::new("/tmp/cortex.toml".to_string(), Config::default());
    let mut s = AppState::new("/home/u".to_string(), cm, None, None, 0);
    s.left_panel.entries = vec![entry("docs", FileType::Directory), entry("a.txt", FileType::File)];
    s.right_panel.current_dir = "/srv".to_string();
    s
}

#[test]
fn selected_files_prefer_marks() {
    let mut s = state();
    assert_eq!(get_selected_files(&s), vec!["/home/u/docs".to_string()]);
    s.left_panel.marked_files = vec!["/x".to_string(), "/y".to_string()];
    assert_eq!(get_selected_files(&s), vec!["/x".to_string(), "/y".to_string()]);
    s.left_panel.marked_files.clear();
    s.left_panel.entries.clear();
    assert!(get_selected_files(&s).is_empty());
}

#[test]
fn copy_move_delete_ask_first() {
    let mut s = state();
    s.left_panel.selected_index = 1;
    copy_files(&mut s);
    assert_eq!(s.status_message.as_deref(), Some("Copy 1 file(s) to /srv? (Y/N)"));
    match &s.pending_operation {
        Some(FileOperation::Copy { sources, destination }) => {
            assert_eq!(sources, &vec!["/home/u/a.txt".to_string()]);
            assert_eq!(destination, "/srv");
        }
        other => panic!("unexpected {:?}", other),
    }
    s.left_panel.marked_files = vec!["/a".to_string(), "/b".to_string()];
    move_files(&mut s);
    assert_eq!(s.status_message.as_deref(), Some("Move 2 file(s) to /srv? (Y/N)"));
    assert!(matches!(s.pending_operation, Some(FileOperation::Move { .. })));
    delete_files(&mut s);
    assert_eq!(s.status_message.as_deref(), Some("Delete 2 file(s)? (Y/N)"));
    assert!(matches!(s.pending_operation, Some(FileOperation::Delete { .. })));
}

#[test]
fn nothing_selected_asks_nothing() {
    let mut s = state();
    s.left_panel.entries.clear();
    copy_files(&mut s);
    delete_files(&mut s);
    assert!(s.pending_operation.is_none());
    assert!(s.status_message.is_none());
}

#[test]
fn context_menu_commands() {
    let mut s = state();
    assert!(matches!(execute_context_menu_action(&mut s, ContextMenuAction::ViewFile), MenuEffect::Nothing));
    s.left_panel.selected_index = 1;
    match execute_context_menu_action(&mut s, ContextMenuAction::EditFile) {
        MenuEffect::EditFile(p) => assert_eq!(p, "/home/u/a.txt"),
        other => panic!("unexpected {:?}", other),
    }
    assert!(matches!(execute_context_menu_action(&mut s, ContextMenuAction::Rename), MenuEffect::RenameDialog));
    execute_context_menu_action(&mut s, ContextMenuAction::Properties);
    assert_eq!(
        s.status_message.as_deref(),
        Some("Name: a.txt\nSize: 1 KiB\nModified: None\nPermissions: rw-r--r--")
    );
    s.left_panel.entries[1].modified = Some(0);
    execute_context_menu_action(&mut s, ContextMenuAction::Properties);
    assert_eq!(
        s.status_message.as_deref(),
        Some("Name: a.txt\nSize: 1 KiB\nModified: Some(1970-01-01T00:00:00Z)\nPermissions: rw-r--r--")
    );
    execute_context_menu_action(&mut s, ContextMenuAction::Cut);
    assert!(matches!(s.pending_operation, Some(FileOperation::Move { .. })));
}

#[test]
fn context_menu_keys() {
    let mut s = state();
    s.left_panel.selected_index = 1;
    let items = vec![ContextMenuAction::ViewFile, ContextMenuAction::Copy, ContextMenuAction::Delete];
    let mut menu = Some(ContextMenu { items, selected_index: 0 });
    handle_context_menu_input(&mut menu, &mut s, KeyCode::Up);
    assert_eq!(menu.as_ref().unwrap().selected_index, 0);
    for _ in 0..5 {
        handle_context_menu_input(&mut menu, &mut s, KeyCode::Down);
    }
    assert_eq!(menu.as_ref().unwrap().selected_index, 2);
    handle_context_menu_input(&mut menu, &mut s, KeyCode::Up);
    assert_eq!(menu.as_ref().unwrap().get_selected_action(), Some(ContextMenuAction::Copy));
    handle_context_menu_input(&mut menu, &mut s, KeyCode::Tab);
    assert!(menu.is_some());
    let r = handle_context_menu_input(&mut menu, &mut s, KeyCode::Enter);
    assert!(matches!(r, MenuEffect::Nothing));
    assert!(menu.is_none());
    assert_eq!(s.status_message.as_deref(), Some("Copy 1 file(s) to /srv? (Y/N)"));
    let mut menu = Some(ContextMenu { items: vec![ContextMenuAction::Delete], selected_index: 0 });
    handle_context_menu_input(&mut menu, &mut s, KeyCode::Esc);
    assert!(menu.is_none());
}

#[test]
fn modification_times_at_the_edges_of_the_calendar() {
    let mut s = state();
    s.left_panel.selected_index = 1;
    let cases = [
        (cortex::fs::UTC_MAX_SECS, true),
        (cortex::fs::UTC_MAX_SECS + 1, false),
        (cortex::fs::UTC_MIN_SECS, true),
        (cortex::fs::UTC_MIN_SECS - 1, false),
    ];
    for (secs, shown) in cases {
        s.left_panel.entries[1].modified = Some(secs);
        execute_context_menu_action(&mut s, ContextMenuAction::Properties);
        let text = s.status_message.clone().unwrap();
        assert_eq!(text.contains("Modified: Some("), shown, "{} gave {}", secs, text);
    }
}
