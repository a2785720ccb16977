use cortex::config::{Config, ConfigManager};
use cortex::events::{file_event_notification, handle_file_event, NotificationType};
use cortex::state::AppState;
use cortex::terminal::FileMonitorEvent;

fn state() -> AppState {
    let cm = ConfigManager::new("/tmp/cortex.toml".to_string(), Config::default());
    let mut s = AppState::new("/home/u".to_string(), cm, None, None, 0);
    s.right_panel.current_dir = "/srv/data".to_string();
    s
}

#[test]
fn changes_in_a_panel_directory_are_reported() {
    let s = state();
    let e = FileMonitorEvent::Created("/home/u/new.txt".to_string());
    assert_eq!(handle_file_event(&s, &e), Some("File created: new.txt".to_string()));
    let e = FileMonitorEvent::Modified("/srv/data/sub/deep.rs".to_string());
    assert_eq!(handle_file_event(&s, &e), Some("File modified: deep.rs".to_string()));
    let e = FileMonitorEvent::Deleted("/home/u".to_string());
    assert_eq!(handle_file_event(&s, &e), Some("File deleted: u".to_string()));
    let e = FileMonitorEvent::Renamed { from: "/tmp/a".to_string(), to: "/srv/data/b".to_string() };
    assert_eq!(handle_file_event(&s, &e), Some("File renamed to: b".to_string()));
}

#[test]
fn changes_elsewhere_are_ignored() {
    let s = state();
    // Components count whole: /home/user is not under /home/u.
    let e = FileMonitorEvent::Created("/home/user/x".to_string());
    assert_eq!(handle_file_event(&s, &e), None);
    let e = FileMonitorEvent::Renamed { from: "/home/u/a".to_string(), to: "/tmp/b".to_string() };
    assert_eq!(handle_file_event(&s, &e), None);
}

#[test]
fn notifications_of_changes() {
    let (n, refresh) = file_event_notification(&FileMonitorEvent::Created("/a/b".to_string()));
    assert_eq!((n.title.as_str(), n.message.as_str(), n.kind, refresh), ("File Created", "Created: /a/b", NotificationType::Info, true));
    let (n, refresh) = file_event_notification(&FileMonitorEvent::Modified("/a/b".to_string()));
    assert_eq!((n.message.as_str(), refresh), ("Modified: /a/b", false));
    let (n, refresh) = file_event_notification(&FileMonitorEvent::Deleted("/x".to_string()));
    assert_eq!((n.title.as_str(), n.kind, refresh), ("File Deleted", NotificationType::Warning, true));
    let (n, _) = file_event_notification(&FileMonitorEvent::Renamed { from: "/a".to_string(), to: "/b".to_string() });
    assert_eq!(n.message, "Renamed: /a -> /b");
}
