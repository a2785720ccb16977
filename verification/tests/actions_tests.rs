use cortex::actions::{
    action_name_text, confirm_dialog_enter, handle_action, handle_command_execution, input_dialog_enter,
    ActionEffect, ViewMode,
};
use cortex::config::{Config, ConfigManager};
use cortex::fs::{FileEntry, FileType};
use cortex::shortcuts::{Action, KeyCode, KeyModifiers, ShortcutManager};
use cortex::state::{ActivePanel, AppState, FileOperation, SortMode};

fn entry(name: &str, kind: FileType, size: u64) -> FileEntry {
    let mut e = FileEntry::default();
    e.name = name.to_string();
    e.path = if name == ".." { "/home".to_string() } else { format!("/home/u/{}", name) };
    e.file_type = kind;
    e.size = size;
    e
}

fn state_with(config: Config) -> AppState {
    let cm = ConfigManager::new("/tmp/cortex.toml".to_string(), config);
    let mut s = AppState::new("/home/u".to_string(), cm, None, None, 0);
    s.left_panel.entries = vec![
        entry("..", FileType::Directory, 0),
        entry("src", FileType::Directory, 0),
        entry("b.txt", FileType::File, 30),
        entry("a.txt", FileType::File, 20),
    ];
    s.right_panel.current_dir = "/srv".to_string();
    s
}

fn state() -> AppState {
    state_with(Config::default())
}

#[test]
fn moving_and_focus() {
    let mut s = state();
    assert!(matches!(handle_action(&mut s, Action::NavigateDown, Some(24)), ActionEffect::Done));
    handle_action(&mut s, Action::NavigateDown, None);
    assert_eq!(s.left_panel.selected_index, 2);
    handle_action(&mut s, Action::NavigateUp, Some(24));
    assert_eq!(s.left_panel.selected_index, 1);
    handle_action(&mut s, Action::SwitchPanel, None);
    assert_eq!(s.active_panel, ActivePanel::Right);
    handle_action(&mut s, Action::FocusLeftPanel, None);
    assert_eq!(s.active_panel, ActivePanel::Left);
    handle_action(&mut s, Action::FocusRightPanel, None);
    assert_eq!(s.active_panel, ActivePanel::Right);
}

#[test]
fn navigation_targets() {
    let mut s = state();
    match handle_action(&mut s, Action::NavigateToParent, None) {
        ActionEffect::NavigateTo(d) => assert_eq!(d, "/home"),
        other => panic!("unexpected {:?}", other),
    }
    match handle_action(&mut s, Action::NavigateInto, None) {
        ActionEffect::NavigateTo(d) => assert_eq!(d, "/home"),
        other => panic!("unexpected {:?}", other),
    }
    s.left_panel.selected_index = 1;
    match handle_action(&mut s, Action::NavigateInto, None) {
        ActionEffect::NavigateTo(d) => assert_eq!(d, "/home/u/src"),
        other => panic!("unexpected {:?}", other),
    }
    s.left_panel.selected_index = 2;
    assert!(matches!(handle_action(&mut s, Action::NavigateInto, None), ActionEffect::Done));
}

#[test]
fn copy_asks_or_runs() {
    let mut s = state();
    s.left_panel.selected_index = 2;
    match handle_action(&mut s, Action::Copy, None) {
        ActionEffect::Confirm { title, message } => {
            assert_eq!(title, "Copy Files");
            assert_eq!(message, "Confirm copy operation?");
        }
        other => panic!("unexpected {:?}", other),
    }
    assert!(matches!(s.pending_operation, Some(FileOperation::Copy { .. })));
    let mut config = Config::default();
    config.general.confirm_operations = false;
    config.general.confirm_delete = false;
    let mut s = state_with(config);
    s.left_panel.selected_index = 3;
    match handle_action(&mut s, Action::Move, None) {
        ActionEffect::Execute(FileOperation::Move { sources, destination }) => {
            assert_eq!(sources, vec!["/home/u/a.txt".to_string()]);
            assert_eq!(destination, "/srv");
        }
        other => panic!("unexpected {:?}", other),
    }
    assert!(matches!(handle_action(&mut s, Action::Delete, None), ActionEffect::Execute(FileOperation::Delete { .. })));
    assert!(s.pending_operation.is_none());
    // `..` is never a source.
    s.left_panel.selected_index = 0;
    assert!(matches!(handle_action(&mut s, Action::Copy, None), ActionEffect::Done));
}

#[test]
fn delete_confirmation() {
    let mut s = state();
    s.left_panel.selected_index = 2;
    match handle_action(&mut s, Action::Delete, None) {
        ActionEffect::Confirm { title, message } => {
            assert_eq!(title, "Delete Files");
            assert_eq!(message, "Confirm delete operation? This cannot be undone!");
        }
        other => panic!("unexpected {:?}", other),
    }
    let op = confirm_dialog_enter(&mut s, true);
    assert!(matches!(op, Some(FileOperation::Delete { .. })));
    assert!(s.pending_operation.is_none());
    handle_action(&mut s, Action::Delete, None);
    assert_eq!(confirm_dialog_enter(&mut s, false).is_none(), true);
    assert!(s.pending_operation.is_none());
}

#[test]
fn name_dialogs() {
    let mut s = state();
    match handle_action(&mut s, Action::CreateDirectory, None) {
        ActionEffect::AskName { title, prompt, initial } => {
            assert_eq!(title, "Create Directory");
            assert_eq!(prompt, "Enter directory name:");
            assert_eq!(initial, "");
        }
        other => panic!("unexpected {:?}", other),
    }
    match input_dialog_enter(&mut s, "new") {
        Some(FileOperation::CreateDir { path }) => assert_eq!(path, "/home/u/new"),
        other => panic!("unexpected {:?}", other),
    }
    s.left_panel.selected_index = 2;
    match handle_action(&mut s, Action::Rename, None) {
        ActionEffect::AskName { initial, .. } => assert_eq!(initial, "b.txt"),
        other => panic!("unexpected {:?}", other),
    }
    match input_dialog_enter(&mut s, "c.txt") {
        Some(FileOperation::Rename { old_path, new_name }) => {
            assert_eq!(old_path, "/home/u/b.txt");
            assert_eq!(new_name, "c.txt");
        }
        other => panic!("unexpected {:?}", other),
    }
    assert!(input_dialog_enter(&mut s, "x").is_none());
    match handle_action(&mut s, Action::CopyAs, None) {
        ActionEffect::AskCopyAs { source, destination, initial } => {
            assert_eq!(source, "/home/u/b.txt");
            assert_eq!(destination, "/srv");
            assert_eq!(initial, "b.txt");
        }
        other => panic!("unexpected {:?}", other),
    }
    match handle_action(&mut s, Action::NewFile, None) {
        ActionEffect::AskNewFile { directory } => assert_eq!(directory, "/home/u"),
        other => panic!("unexpected {:?}", other),
    }
}

#[test]
fn sorting_and_views() {
    let mut s = state();
    assert!(matches!(handle_action(&mut s, Action::SortBySize, None), ActionEffect::Redraw));
    assert_eq!(s.left_panel.sort_mode, SortMode::Size);
    let names: Vec<&str> = s.left_panel.entries.iter().map(|e| e.name.as_str()).collect();
    assert_eq!(names[0], "..");
    handle_action(&mut s, Action::SortByName, None);
    let names: Vec<&str> = s.left_panel.entries.iter().map(|e| e.name.as_str()).collect();
    assert_eq!(names, vec!["..", "src", "a.txt", "b.txt"]);
    assert!(matches!(handle_action(&mut s, Action::WideView, None), ActionEffect::SetViewMode(ViewMode::Wide)));
    assert!(matches!(handle_action(&mut s, Action::ReverseSort, None), ActionEffect::ReverseSort));
    assert!(matches!(handle_action(&mut s, Action::Refresh, None), ActionEffect::ReloadPanels));
    assert_eq!(s.status_message.as_deref(), Some("Panels refreshed"));
    assert!(matches!(handle_action(&mut s, Action::HidePanels, None), ActionEffect::TogglePanels));
}

#[test]
fn view_and_edit() {
    let mut s = state();
    s.left_panel.selected_index = 3;
    match handle_action(&mut s, Action::EditFile, None) {
        ActionEffect::Edit { editor, path } => {
            assert_eq!(editor, "vim");
            assert_eq!(path, "/home/u/a.txt");
        }
        other => panic!("unexpected {:?}", other),
    }
    match handle_action(&mut s, Action::ViewFile, None) {
        ActionEffect::View(p) => assert_eq!(p, "/home/u/a.txt"),
        other => panic!("unexpected {:?}", other),
    }
    s.left_panel.selected_index = 1;
    assert!(matches!(handle_action(&mut s, Action::ViewFile, None), ActionEffect::Done));
}

#[test]
fn marks() {
    let mut s = state();
    s.left_panel.selected_index = 2;
    handle_action(&mut s, Action::SelectItem, None);
    assert_eq!(s.left_panel.marked_files, vec!["/home/u/b.txt".to_string()]);
    handle_action(&mut s, Action::SelectAll, None);
    assert_eq!(
        s.left_panel.marked_files,
        vec![
            "/home/u/b.txt".to_string(),
            "/home/u/src".to_string(),
            "/home/u/b.txt".to_string(),
            "/home/u/a.txt".to_string()
        ]
    );
    handle_action(&mut s, Action::SelectNone, None);
    assert!(s.left_panel.marked_files.is_empty());
}

#[test]
fn reports_and_defaults() {
    let mut s = state();
    handle_action(&mut s, Action::About, None);
    assert_eq!(s.status_message.as_deref(), Some("About not yet implemented"));
    handle_action(&mut s, Action::ChangeDriveRight, None);
    assert_eq!(s.status_message.as_deref(), Some("Change drive not yet implemented"));
    handle_action(&mut s, Action::NavigateLeft, None);
    assert_eq!(s.status_message.as_deref(), Some("Action not yet implemented: NavigateLeft"));
    handle_action(&mut s, Action::GoToBookmark(7), None);
    assert_eq!(s.status_message.as_deref(), Some("Action not yet implemented: GoToBookmark(7)"));
    assert_eq!(action_name_text(Action::GoToQuickDir(3)), format!("{:?}", Action::GoToQuickDir(3)));
    assert_eq!(action_name_text(Action::VimGoToMark), format!("{:?}", Action::VimGoToMark));
    match handle_action(&mut s, Action::SetQuickDir(2), None) {
        ActionEffect::SaveQuickDir { slot, path } => {
            assert_eq!(slot, 2);
            assert_eq!(path, "/home/u");
        }
        other => panic!("unexpected {:?}", other),
    }
    assert!(matches!(handle_action(&mut s, Action::QuickExit, None), ActionEffect::Exit));
}

#[test]
fn command_line_execution() {
    let mut s = state();
    assert!(matches!(handle_action(&mut s, Action::ExecuteCommand, None), ActionEffect::Done));
    s.command_line = "  cd docs ".to_string();
    s.command_cursor = 10;
    match handle_action(&mut s, Action::ExecuteCommand, None) {
        ActionEffect::NavigateTo(d) => assert_eq!(d, "/home/u/docs"),
        other => panic!("unexpected {:?}", other),
    }
    assert_eq!(s.command_history, vec!["  cd docs ".to_string()]);
    assert_eq!(s.command_line, "");
    assert_eq!(s.command_cursor, 0);
    s.command_line = "cd /etc".to_string();
    match handle_command_execution(&mut s) {
        ActionEffect::NavigateTo(d) => assert_eq!(d, "/etc"),
        other => panic!("unexpected {:?}", other),
    }
    s.command_line = " quit".to_string();
    assert!(matches!(handle_command_execution(&mut s), ActionEffect::Exit));
    s.command_line = "restart".to_string();
    assert!(matches!(handle_command_execution(&mut s), ActionEffect::Restart));
    s.command_line = "ls -l".to_string();
    match handle_command_execution(&mut s) {
        ActionEffect::RunCommand(c) => assert_eq!(c, "ls -l"),
        other => panic!("unexpected {:?}", other),
    }
}

#[test]
fn every_action_name_matches_debug() {
    let all = [
        Action::NavigateUp, Action::CopyToClipboard, Action::ToggleHidden, Action::SearchPrevious,
        Action::SyncPanels, Action::Autocomplete, Action::ShowHistoryList, Action::FindDuplicates,
        Action::MultiRename, Action::VimEnterCommand, Action::SetQuickDir(9),
    ];
    for a in all {
        assert_eq!(action_name_text(a), format!("{:?}", a));
    }
}

#[test]
fn keys_with_and_without_shortcuts() {
    let manager = ShortcutManager::new();
    let none = KeyModifiers::none();
    let mut s = state();
    s.left_panel.selected_index = 2;
    let r = cortex::actions::handle_input(&mut s, &manager, KeyCode::F(5), none, Some(24));
    assert!(matches!(r, ActionEffect::Confirm { .. }));
    for c in ['l', 's', 'x'] {
        cortex::actions::handle_input(&mut s, &manager, KeyCode::Char(c), none, Some(24));
    }
    assert_eq!(s.command_line, "lsx");
    // Backspace is bound (to the parent directory), so it does not edit.
    match cortex::actions::handle_input(&mut s, &manager, KeyCode::Backspace, none, Some(24)) {
        ActionEffect::NavigateTo(d) => assert_eq!(d, "/home"),
        other => panic!("unexpected {:?}", other),
    }
    assert_eq!(s.command_line, "lsx");
    assert_eq!(s.command_cursor, 3);
    cortex::actions::handle_input(&mut s, &manager, KeyCode::Esc, none, Some(24));
    assert_eq!(s.command_line, "");
    assert_eq!(s.command_cursor, 0);
}
