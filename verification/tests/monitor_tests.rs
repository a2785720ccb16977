use cortex::monitor::{FileMonitor, FileMonitorManager};

#[test]
fn nothing_is_recorded_before_start() {
    let mut m = FileMonitor::new();
    assert!(!m.watch_path("/a", false));
    assert!(!m.is_watching("/a"));
    m.start();
    assert!(m.is_started());
    assert!(m.watch_path("/a", false));
    assert!(m.is_watching("/a"));
}

#[test]
fn paths_compare_by_components() {
    let mut m = FileMonitor::new();
    m.start();
    m.watch_path("/home/u/", true);
    // The same directory written without the trailing slash is the same path.
    assert!(m.is_watching("/home/u"));
    m.watch_path("/home/u", false);
    assert_eq!(m.get_watched_paths(), vec!["/home/u/".to_string()]);
    m.watch_path("/srv", false);
    assert_eq!(m.get_watched_paths(), vec!["/home/u/".to_string(), "/srv".to_string()]);
    assert!(m.unwatch_path("/home/u"));
    assert!(!m.is_watching("/home/u/"));
    m.stop();
    assert!(m.get_watched_paths().is_empty());
    assert!(!m.unwatch_path("/srv"));
}

#[test]
fn manager_runs_the_monitor() {
    let mut m = FileMonitorManager::new();
    assert!(!m.watch_directory("/x", false));
    m.start();
    assert!(m.watch_directory("/x", false));
    assert!(m.is_watching("/x"));
    assert_eq!(m.get_watched_directories(), vec!["/x".to_string()]);
    assert!(m.unwatch_directory("/x"));
    m.watch_directory("/y", true);
    m.stop();
    assert!(m.get_watched_directories().is_empty());
}
