use cortex::cache::{CacheConfig, DirectoryCache};
use cortex::config::{Config, ConfigManager};
use cortex::fs::{format_permissions, FileEntry, FileSystem, FileType};
use cortex::operations::{Operation, OperationManager, OperationProgress, OperationRun};
use cortex::state::{ActivePanel, AppState, FileOperation, MonitorChange, PanelState, SortMode};

fn file(name: &str, size: u64) -> FileEntry {
    let mut e = FileEntry::default();
    e.name = name.to_string();
    e.path = format!("/d/{}", name);
    e.file_type = FileType::File;
    e.size = size;
    e
}

#[test]
fn cache_put_then_get() {
    let mut c = DirectoryCache::new();
    assert!(c.put("/d", vec![file("a", 1), file("b", 2)], Some(5), 100).is_ok());
    let got = c.get("/d", 101).unwrap();
    assert_eq!(got.len(), 2);
    assert_eq!(got[1].name, "b");
    assert!(c.get("/missing", 101).is_none());
    let stats = c.get_statistics();
    assert_eq!((stats.total_hits, stats.total_misses), (1, 1));
    c.invalidate("/d");
    assert!(c.get("/d", 102).is_none());
    assert!(c.put("/e", vec![], None, 103).is_err());
}

#[test]
fn cache_evicts_least_recently_used() {
    let mut cfg = CacheConfig::default();
    cfg.max_entries = 2;
    let mut c = DirectoryCache::with_config(cfg);
    assert!(c.put("/a", vec![file("x", 1)], Some(1), 1).is_ok());
    assert!(c.put("/b", vec![file("y", 1)], Some(1), 2).is_ok());
    assert!(c.get("/a", 3).is_some());
    assert!(c.put("/c", vec![file("z", 1)], Some(1), 4).is_ok());
    assert!(c.get("/b", 5).is_none());
    assert!(c.get("/a", 5).is_some());
    assert!(c.get("/c", 5).is_some());
    assert_eq!(c.get_statistics().total_evictions, 1);
}

#[test]
fn panel_selection_and_marks() {
    let mut p = PanelState::new("/d".to_string(), None);
    p.entries = vec![file("a", 1), file("b", 2), file("c", 3)];
    p.move_selection_down();
    p.move_selection_down();
    p.move_selection_down();
    assert_eq!(p.selected_index, 2);
    p.move_selection_home();
    assert_eq!(p.selected_index, 0);
    p.move_selection_end();
    assert_eq!(p.selected_index, 2);
    p.toggle_mark_current();
    assert!(p.is_marked("/d/c"));
    p.toggle_mark_current();
    assert!(!p.is_marked("/d/c"));
    p.apply_filter("B");
    assert_eq!(p.get_visible_entries().len(), 1);
    p.clear_filter();
    assert_eq!(p.get_visible_entries().len(), 3);
}

#[test]
fn panel_sorting() {
    let mut p = PanelState::new("/d".to_string(), None);
    p.entries = vec![file("b", 1), file("C", 3), file("a", 2)];
    p.sort_mode = SortMode::Name;
    p.sort_entries();
    let names: Vec<&str> = p.entries.iter().map(|e| e.name.as_str()).collect();
    assert_eq!(names, vec!["a", "b", "C"]);
    p.sort_mode = SortMode::Size;
    p.sort_entries();
    let names: Vec<&str> = p.entries.iter().map(|e| e.name.as_str()).collect();
    assert_eq!(names, vec!["C", "a", "b"]);
}

#[test]
fn copy_plan_and_confirmation() {
    let cm = ConfigManager::new("/c".to_string(), Config::default());
    let mut s = AppState::new("/d".to_string(), cm, None, None, 0);
    s.left_panel.entries = vec![file("a", 1), file("b", 2)];
    s.right_panel.current_dir = "/t".to_string();
    s.left_panel.marked_files = vec!["/d/a".to_string(), "/d/b".to_string()];
    let op = OperationManager::prepare_copy(&s).unwrap();
    let (title, message) = OperationManager::confirm_dialog_text(&op);
    assert_eq!(title, "Confirm Copy");
    assert_eq!(message, "Copy 2 item(s) to t?");
    let plan = OperationManager::plan_operations(&op);
    assert_eq!(plan.len(), 2);
    match &plan[1] {
        Operation::Copy { src, dst } => {
            assert_eq!(src, "/d/b");
            assert_eq!(dst, "/t/b");
        },
        _ => panic!(),
    }
    let rename = FileOperation::Rename { old_path: "/d/a".to_string(), new_name: "z".to_string() };
    match &OperationManager::plan_operations(&rename)[0] {
        Operation::Rename { old, new } => {
            assert_eq!(old, "/d/a");
            assert_eq!(new, "/d/z");
        },
        _ => panic!(),
    }
}

#[test]
fn permission_text() {
    assert_eq!(format_permissions(0o755), "rwxr-xr-x");
    assert_eq!(format_permissions(0o640), "rw-r-----");
}

#[test]
fn auto_reload_toggles_the_monitor() {
    let cm = ConfigManager::new("/tmp/c.toml".to_string(), Config::default());
    let mut s = AppState::new("/d".to_string(), cm, None, None, 0);
    s.right_panel.current_dir = "/e".to_string();
    assert!(s.auto_reload_enabled);
    assert_eq!(s.update_file_monitoring(ActivePanel::Left, "/x"), None);
    assert_eq!(s.init_file_monitor(), Some(vec!["/d".to_string(), "/e".to_string()]));
    assert!(s.is_file_monitoring_active());
    assert_eq!(s.update_file_monitoring(ActivePanel::Right, "/f"), Some(("/e".to_string(), "/f".to_string())));
    assert_eq!(s.toggle_auto_reload(), MonitorChange::Stop);
    assert!(!s.auto_reload_enabled);
    assert!(!s.is_file_monitoring_active());
    assert!(!s.config_manager.get().general.auto_reload);
    assert_eq!(s.init_file_monitor(), None);
    assert_eq!(s.toggle_auto_reload(), MonitorChange::Start);
    assert!(s.config_manager.get().general.auto_reload);
    assert!(s.is_file_monitoring_active());
}

#[test]
fn directory_info_counts_every_entry() {
    assert_eq!(FileSystem::get_directory_info(&vec![]), (0, 0));
    assert_eq!(FileSystem::get_directory_info(&vec![Some(10), None, Some(5)]), (3, 15));
}

#[test]
fn relisting_keeps_cursor_and_listed_marks() {
    let mut p = PanelState::new("/d".to_string(), None);
    p.entries = vec![file("a", 1), file("b", 2), file("c", 3)];
    p.selected_index = 2;
    p.marked_files = vec![p.entries[0].path.clone(), p.entries[2].path.clone(), "/elsewhere".to_string()];
    let kept_first = p.entries[0].path.clone();
    p.replace_entries(vec![file("a", 1), file("z", 9)]);
    assert_eq!(p.selected_index, 1);
    assert_eq!(p.marked_files, vec![kept_first]);
    p.replace_entries(vec![]);
    assert_eq!(p.selected_index, 0);
    assert!(p.marked_files.is_empty());
}

#[test]
fn operation_runs_stop_at_the_first_failure() {
    let mut run = OperationRun::new(3);
    assert_eq!(run.next_step(), Some(0));
    assert!(matches!(run.begin_step("a".to_string()), OperationProgress::Started { .. }));
    assert!(matches!(run.end_step("a".to_string(), Ok(())), OperationProgress::Completed { .. }));
    assert_eq!(run.next_step(), Some(1));
    match run.end_step("b".to_string(), Err("denied".to_string())) {
        OperationProgress::Failed { operation, error } => {
            assert_eq!(operation, "b");
            assert_eq!(error, "denied");
        }
        other => panic!("unexpected {:?}", other),
    }
    assert_eq!(run.next_step(), None);
    assert!(!run.succeeded());
    let mut ok = OperationRun::new(1);
    ok.end_step("x".to_string(), Ok(()));
    assert_eq!(ok.next_step(), None);
    assert!(ok.succeeded());
    assert!(OperationRun::new(0).succeeded());
}
