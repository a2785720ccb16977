use cortex::config::{Config, ConfigManager};
use cortex::operations::OperationProgress;
use cortex::progress::{
    handle_operation_progress, handle_search_progress, report_operation_progress, report_search_progress, DialogChange,
};
use cortex::search::{SearchProgress, SearchResult};
use cortex::special::{
    handle_special_command, special_command_named, theme_by_name, DialogKind, SpecialCommand, SpecialEffect,
};
use cortex::state::AppState;
use cortex::theme::{Theme, ThemeMode};

fn state() -> AppState {
    let cm = ConfigManager::new("/tmp/cortex.toml".to_string(), Config::default());
    AppState::new("/home/u".to_string(), cm, None, None, 0)
}

fn status(s: &AppState) -> String {
    s.status_message.clone().unwrap_or_default()
}

#[test]
fn command_words_and_short_forms() {
    assert_eq!(special_command_named("help"), SpecialCommand::Help);
    assert_eq!(special_command_named("?"), SpecialCommand::Help);
    assert_eq!(special_command_named("cfg"), SpecialCommand::Config);
    assert_eq!(special_command_named("exit"), SpecialCommand::Quit);
    assert_eq!(special_command_named("t"), SpecialCommand::Theme);
    assert_eq!(special_command_named("Help"), SpecialCommand::Unknown);
    assert_eq!(theme_by_name("NoRd"), Some(ThemeMode::Nord));
    assert_eq!(theme_by_name("random"), None);
}

#[test]
fn dialogs_open() {
    let mut s = state();
    assert!(matches!(handle_special_command(&mut s, "FILTER", 0), SpecialEffect::OpenDialog(DialogKind::Filter)));
    assert!(matches!(handle_special_command(&mut s, "s", 0), SpecialEffect::OpenDialog(DialogKind::Search)));
    assert!(matches!(handle_special_command(&mut s, "p", 0), SpecialEffect::OpenDialog(DialogKind::Plugin)));
    assert!(matches!(
        handle_special_command(&mut s, "cmd", 0),
        SpecialEffect::OpenDialog(DialogKind::CommandPalette)
    ));
    assert!(matches!(handle_special_command(&mut s, "config", 0), SpecialEffect::OpenDialog(DialogKind::Config)));
    assert_eq!(s.status_message, None);
}

#[test]
fn help_reload_quit_and_unknown() {
    let mut s = state();
    assert!(matches!(handle_special_command(&mut s, "h", 0), SpecialEffect::Nothing));
    assert!(status(&s).starts_with("Special Commands:\n/help, /h, /?"));
    assert!(status(&s).ends_with("\n\nPress any key to continue..."));
    assert!(matches!(handle_special_command(&mut s, "  reload  ", 0), SpecialEffect::Refresh));
    assert_eq!(status(&s), "Panels refreshed");
    assert!(matches!(handle_special_command(&mut s, "q", 0), SpecialEffect::Nothing));
    assert_eq!(status(&s), "Panels refreshed");
    assert!(matches!(handle_special_command(&mut s, "bogus arg", 0), SpecialEffect::Nothing));
    assert_eq!(status(&s), "Unknown command: /bogus arg");
    handle_special_command(&mut s, "", 0);
    assert_eq!(status(&s), "Unknown command: /");
}

#[test]
fn theme_command() {
    let mut s = state();
    assert!(matches!(handle_special_command(&mut s, "theme Gruvbox", 0), SpecialEffect::ThemeChanged));
    assert_eq!(*s.theme_manager.get_current_theme(), Theme::gruvbox());
    assert_eq!(status(&s), "Theme changed to: Gruvbox");
    assert!(matches!(handle_special_command(&mut s, "t solar", 0), SpecialEffect::Nothing));
    assert_eq!(status(&s), "Unknown theme: solar");
    assert_eq!(s.theme_manager.get_current_theme().mode, ThemeMode::Gruvbox);
    handle_special_command(&mut s, "theme", 0);
    assert_eq!(status(&s), "Usage: /theme <name>");
}

#[test]
fn connect_command() {
    let mut s = state();
    assert!(matches!(handle_special_command(&mut s, "connect", 0), SpecialEffect::OpenDialog(DialogKind::Connection)));
    assert!(matches!(
        handle_special_command(&mut s, "c sftp host", 0),
        SpecialEffect::OpenDialog(DialogKind::Connection)
    ));
    match handle_special_command(&mut s, "c SSH example.org 2222 alice", 0) {
        SpecialEffect::ConnectSftp { host, port, username } => {
            assert_eq!(host, "example.org");
            assert_eq!(port, 2222);
            assert_eq!(username, "alice");
        }
        _ => panic!("expected an sftp connection"),
    }
    match handle_special_command(&mut s, "connect ftp files.local x bob", 0) {
        SpecialEffect::ConnectFtp { host, port, username } => {
            assert_eq!(host, "files.local");
            assert_eq!(port, 21);
            assert_eq!(username, "bob");
        }
        _ => panic!("expected an ftp connection"),
    }
    match handle_special_command(&mut s, "c sftp h 70000 u", 0) {
        SpecialEffect::ConnectSftp { port, .. } => assert_eq!(port, 22),
        _ => panic!("expected an sftp connection"),
    }
    assert_eq!(s.status_message, None);
    assert!(matches!(handle_special_command(&mut s, "connect smb h 1 u", 0), SpecialEffect::Nothing));
    assert_eq!(status(&s), "Usage: /connect [sftp|ftp] [host port username]");
}

#[test]
fn operation_progress_reports() {
    let mut s = state();
    match handle_operation_progress(&mut s, OperationProgress::Started { operation: "Copy".to_string() }) {
        DialogChange::Open { title, operation } => {
            assert_eq!(title, "File Operation");
            assert_eq!(operation, "Copy");
        }
        _ => panic!("expected the dialog to open"),
    }
    assert_eq!(status(&s), "Started: Copy");
    let change = handle_operation_progress(
        &mut s,
        OperationProgress::Progress { current: 3, total: 9, message: "a.txt".to_string() },
    );
    assert!(matches!(change, DialogChange::Update { current: 3, total: 9, .. }));
    assert_eq!(status(&s), "Started: Copy");
    let change = handle_operation_progress(&mut s, OperationProgress::Completed { operation: "Copy".to_string() });
    assert!(matches!(change, DialogChange::Close { refresh: true }));
    assert_eq!(status(&s), "Completed: Copy");
    let change = handle_operation_progress(
        &mut s,
        OperationProgress::Failed { operation: "Move".to_string(), error: "denied".to_string() },
    );
    assert!(matches!(change, DialogChange::Close { refresh: false }));
    assert_eq!(status(&s), "Failed Move: denied");
}

#[test]
fn search_progress_reports() {
    let mut s = state();
    handle_search_progress(&mut s, SearchProgress::Started { total_dirs: 1 });
    assert_eq!(status(&s), "Search started...");
    handle_search_progress(
        &mut s,
        SearchProgress::Searching { current_path: "/x".to_string(), searched: 1, total: 2 },
    );
    assert_eq!(status(&s), "Searching...");
    let result = SearchResult { path: "/x/a.rs".to_string(), size: 1, modified: 0, matches: vec![] };
    handle_search_progress(&mut s, SearchProgress::Found { result });
    assert_eq!(s.command_output.back().map(|l| l.as_str()), Some("Found: /x/a.rs"));
    assert_eq!(status(&s), "Searching...");
    handle_search_progress(&mut s, SearchProgress::Completed { total_found: 12, elapsed_ms: 5 });
    assert_eq!(status(&s), "Search complete: 12 matches found");
    handle_search_progress(&mut s, SearchProgress::Error { path: "/x".to_string(), error: "boom".to_string() });
    assert_eq!(status(&s), "Search error: boom");
}

#[test]
fn main_window_progress_lines() {
    let mut s = state();
    assert!(!report_operation_progress(&mut s, OperationProgress::Progress { current: 3, total: 8, message: "Copying".to_string() }));
    assert_eq!(status(&s), "Copying: 37% (3/8)");
    report_operation_progress(&mut s, OperationProgress::Progress { current: 0, total: 0, message: "Idle".to_string() });
    assert_eq!(status(&s), "Idle: 0% (0/0)");
    assert!(report_operation_progress(&mut s, OperationProgress::Completed { operation: "Copy".to_string() }));
    report_operation_progress(&mut s, OperationProgress::Failed { operation: "Copy".to_string(), error: "full".to_string() });
    assert_eq!(status(&s), "Error in Copy: full");
    report_search_progress(&mut s, SearchProgress::Started { total_dirs: 4 });
    assert_eq!(status(&s), "Search started... 4 directories");
    report_search_progress(&mut s, SearchProgress::Searching { current_path: "/x".to_string(), searched: 2, total: 4 });
    assert_eq!(status(&s), "Searching... /x: 2/4");
    report_search_progress(&mut s, SearchProgress::Completed { total_found: 7, elapsed_ms: 12345678901234567890123 });
    assert_eq!(status(&s), "Search completed. Found 7 results in 12345678901234567890123ms.");
    report_search_progress(&mut s, SearchProgress::Error { path: "/y".to_string(), error: "denied".to_string() });
    assert_eq!(status(&s), "Search error at /y: denied");
}
