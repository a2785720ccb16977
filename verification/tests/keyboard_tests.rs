use cortex::config::{Config, ConfigManager};
use cortex::fs::{FileEntry, FileType};
use cortex::keyboard::{enter_directory_or_archive, handle_input, KeyEffect};
use cortex::shortcuts::{KeyCode, KeyModifiers};
use cortex::state::{ActivePanel, AppState, FileOperation};
use cortex::theme::ThemeMode;
use cortex::vfs::{VfsEntry, VfsEntryType, VfsPath};

fn entry(name: &str, kind: FileType) -> FileEntry {
    let mut e = FileEntry::default();
    e.name = name.to_string();
    e.path = if name == ".." { "/home".to_string() } else { format!("/home/u/{}", name) };
    e.file_type = kind;
    e
}

fn vfs_entry(name: &str) -> VfsEntry {
    VfsEntry {
        name: name.to_string(),
        path: VfsPath::Local(name.to_string()),
        entry_type: VfsEntryType::File,
        size: 0,
        modified: 0,
        permissions: String::new(),
        compressed_size: None,
    }
}

fn state() -> AppState {
    let cm = ConfigManager::new("/tmp/cortex.toml".to_string(), Config::default());
    let mut s = AppState::new("/home/u".to_string(), cm, None, None, 0);
    s.left_panel.entries = vec![
        entry("..", FileType::Directory),
        entry("src", FileType::Directory),
        entry("notes.txt", FileType::File),
        entry("pack.ZIP", FileType::File),
    ];
    s.right_panel.current_dir = "/srv".to_string();
    s
}

fn key(s: &mut AppState, code: KeyCode) -> (KeyEffect, bool) {
    let r = handle_input(s, code, KeyModifiers::none(), 24);
    (r.effect, r.stop)
}

fn type_text(s: &mut AppState, text: &str) {
    for c in text.chars() {
        key(s, KeyCode::Char(c));
    }
}

#[test]
fn panel_keys_with_empty_line() {
    let mut s = state();
    key(&mut s, KeyCode::Down);
    key(&mut s, KeyCode::Down);
    assert_eq!(s.left_panel.selected_index, 2);
    key(&mut s, KeyCode::End);
    assert_eq!(s.left_panel.selected_index, 3);
    key(&mut s, KeyCode::PageUp);
    assert_eq!(s.left_panel.selected_index, 0);
    key(&mut s, KeyCode::PageDown);
    assert_eq!(s.left_panel.selected_index, 3);
    key(&mut s, KeyCode::Home);
    assert_eq!(s.left_panel.selected_index, 0);
    let (e, stop) = key(&mut s, KeyCode::Left);
    assert!(matches!(e, KeyEffect::Reload { watch: true }));
    assert!(!stop);
    assert_eq!(s.left_panel.current_dir, "/home");
}

#[test]
fn right_enters_directories_only() {
    let mut s = state();
    s.left_panel.selected_index = 2;
    assert!(matches!(key(&mut s, KeyCode::Right).0, KeyEffect::Nothing));
    s.left_panel.selected_index = 1;
    assert!(matches!(key(&mut s, KeyCode::Right).0, KeyEffect::Reload { watch: true }));
    assert_eq!(s.left_panel.current_dir, "/home/u/src");
    assert_eq!(s.left_panel.selected_index, 0);
}

#[test]
fn typing_edits_the_line() {
    let mut s = state();
    type_text(&mut s, "ls");
    assert_eq!(s.command_line, "ls");
    assert_eq!(s.command_cursor, 2);
    // With text on the line the arrows move the cursor, not the panel.
    key(&mut s, KeyCode::Left);
    key(&mut s, KeyCode::Char('x'));
    assert_eq!(s.command_line, "lxs");
    key(&mut s, KeyCode::Backspace);
    assert_eq!(s.command_line, "ls");
    key(&mut s, KeyCode::Delete);
    assert_eq!(s.command_line, "l");
    key(&mut s, KeyCode::Right);
    key(&mut s, KeyCode::Right);
    assert_eq!(s.command_cursor, 1);
    assert_eq!(s.left_panel.selected_index, 0);
}

#[test]
fn multibyte_characters_move_the_cursor_by_one_byte() {
    let mut s = state();
    key(&mut s, KeyCode::Char('é'));
    assert_eq!(s.command_line, "é");
    assert_eq!(s.command_cursor, 1);
    // Backspace removes the character that starts one byte back.
    key(&mut s, KeyCode::Backspace);
    assert_eq!(s.command_line, "");
    assert_eq!(s.command_cursor, 0);
}

#[test]
fn enter_runs_and_records_the_line() {
    let mut s = state();
    type_text(&mut s, "echo hi");
    let (e, stop) = key(&mut s, KeyCode::Enter);
    match e {
        KeyEffect::RunCommand(c) => assert_eq!(c, "echo hi"),
        other => panic!("unexpected {:?}", other),
    }
    assert!(!stop);
    assert_eq!(s.command_history, vec!["echo hi".to_string()]);
    assert_eq!(s.command_line, "");
    type_text(&mut s, "x");
    key(&mut s, KeyCode::Up);
    assert_eq!(s.command_line, "echo hi");
    assert_eq!(s.command_cursor, 7);
    key(&mut s, KeyCode::Down);
    assert_eq!(s.command_line, "");
    assert_eq!(s.command_cursor, 0);
}

#[test]
fn escape_closes_output_first() {
    let mut s = state();
    type_text(&mut s, "abc");
    s.command_output_visible = true;
    key(&mut s, KeyCode::Esc);
    assert!(!s.command_output_visible);
    assert_eq!(s.status_message.as_deref(), Some("Command output panel closed"));
    assert_eq!(s.command_line, "abc");
    key(&mut s, KeyCode::Esc);
    assert_eq!(s.command_line, "");
    assert_eq!(s.command_cursor, 0);
}

#[test]
fn function_keys() {
    let mut s = state();
    assert!(matches!(key(&mut s, KeyCode::F(1)).0, KeyEffect::OpenHelp));
    assert!(matches!(key(&mut s, KeyCode::F(9)).0, KeyEffect::ChooseTheme(ThemeMode::Dark)));
    assert!(matches!(key(&mut s, KeyCode::F(7)).0, KeyEffect::AskDirectoryName));
    s.left_panel.selected_index = 2;
    match key(&mut s, KeyCode::F(3)).0 {
        KeyEffect::View(p) => assert_eq!(p, "/home/u/notes.txt"),
        other => panic!("unexpected {:?}", other),
    }
    match key(&mut s, KeyCode::F(4)).0 {
        KeyEffect::Edit(p) => assert_eq!(p, "/home/u/notes.txt"),
        other => panic!("unexpected {:?}", other),
    }
    key(&mut s, KeyCode::F(8));
    assert!(matches!(s.pending_operation, Some(FileOperation::Delete { .. })));
    assert_eq!(s.status_message.as_deref(), Some("Delete 1 file(s)? (Y/N)"));
    key(&mut s, KeyCode::F(5));
    assert_eq!(s.status_message.as_deref(), Some("Copy 1 file(s) to /srv? (Y/N)"));
    key(&mut s, KeyCode::F(2));
    assert_eq!(s.command_line, "/");
    assert_eq!(s.command_cursor, 1);
    // With a line typed, F-keys still work.
    key(&mut s, KeyCode::F(6));
    assert_eq!(s.status_message.as_deref(), Some("Move 1 file(s) to /srv? (Y/N)"));
}

#[test]
fn tab_and_enter_stop_the_loop() {
    let mut s = state();
    let (_, stop) = key(&mut s, KeyCode::Tab);
    assert!(stop);
    assert_eq!(s.active_panel, ActivePanel::Right);
    let (_, stop) = key(&mut s, KeyCode::Insert);
    assert!(!stop);
    let mut s = state();
    s.left_panel.selected_index = 1;
    let (e, stop) = key(&mut s, KeyCode::Enter);
    assert!(stop);
    assert!(matches!(e, KeyEffect::Reload { watch: false }));
    assert_eq!(s.left_panel.current_dir, "/home/u/src");
}

#[test]
fn enter_opens_archives_and_leaves_them() {
    let mut s = state();
    s.left_panel.selected_index = 3;
    assert!(matches!(enter_directory_or_archive(&mut s), KeyEffect::Nothing));
    match &s.left_panel.current_vfs_path {
        Some(VfsPath::Archive { archive_path, internal_path }) => {
            assert_eq!(archive_path, "/home/u/pack.ZIP");
            assert_eq!(internal_path, "");
        }
        other => panic!("unexpected {:?}", other),
    }
    // Inside the archive nothing but `..` can be opened.
    assert!(matches!(enter_directory_or_archive(&mut s), KeyEffect::Nothing));
    assert!(s.left_panel.current_vfs_path.is_some());
    s.left_panel.vfs_entries = vec![vfs_entry("inner.txt")];
    assert!(matches!(enter_directory_or_archive(&mut s), KeyEffect::Nothing));
    assert_eq!(s.status_message.as_deref(), Some("VFS navigation not available in this build"));
    s.left_panel.vfs_entries = vec![vfs_entry("..")];
    assert!(matches!(enter_directory_or_archive(&mut s), KeyEffect::Reload { watch: false }));
    assert!(s.left_panel.current_vfs_path.is_none());
    assert_eq!(s.left_panel.current_dir, "/home/u");
    s.left_panel.selected_index = 2;
    assert!(matches!(enter_directory_or_archive(&mut s), KeyEffect::Nothing));
    assert_eq!(s.left_panel.current_dir, "/home/u");
}
