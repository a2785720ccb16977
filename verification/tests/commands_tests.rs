use cortex::commands::{CdTarget, CommandProcessor};
use cortex::config::{Config, ConfigManager};
use cortex::fs::{FileEntry, FileType};
use cortex::state::AppState;

fn entry(name: &str, path: &str) -> FileEntry {
    let mut e = FileEntry::default();
    e.name = name.to_string();
    e.path = path.to_string();
    e.file_type = FileType::File;
    e
}

fn state() -> AppState {
    let cm = ConfigManager::new("/tmp/cortex.toml".to_string(), Config::default());
    let mut s = AppState::new("/home/u".to_string(), cm, None, None, 0);
    s.left_panel.entries = vec![entry("..", "/home"), entry("a.txt", "/home/u/a.txt")];
    s.left_panel.selected_index = 1;
    s.right_panel.current_dir = "/srv".to_string();
    s
}

#[test]
fn expand_variables() {
    let s = state();
    let out = CommandProcessor::expand_command("cp %f %D/; echo %d %p %F %P %%", &s);
    assert_eq!(out, "cp a.txt /srv/; echo /home/u /home/u/a.txt a.txt \"/home/u/a.txt\" %%");
}

#[test]
fn expand_with_marks() {
    let mut s = state();
    s.left_panel.marked_files = vec!["/home/u/x.rs".to_string(), "/home/u/y.rs".to_string()];
    let out = CommandProcessor::expand_command("tar cf t.tar %F; ls %P", &s);
    assert_eq!(out, "tar cf t.tar x.rs y.rs; ls \"/home/u/x.rs\" \"/home/u/y.rs\"");
}

#[test]
fn expand_on_parent_entry() {
    let mut s = state();
    s.left_panel.selected_index = 0;
    let out = CommandProcessor::expand_command("[%f] [%F] [%P]", &s);
    assert_eq!(out, "[..] [] []");
}

#[test]
fn builtin_replies() {
    let s = state();
    assert_eq!(CommandProcessor::builtin_reply("  pwd extra", &s), Some("/home/u".to_string()));
    assert_eq!(CommandProcessor::builtin_reply("quit", &s), Some("exit".to_string()));
    assert_eq!(CommandProcessor::builtin_reply("   ", &s), Some(String::new()));
    assert_eq!(
        CommandProcessor::builtin_reply("/watch", &s),
        Some("Watched directories: /home/u, /srv".to_string())
    );
    assert_eq!(
        CommandProcessor::builtin_reply("/monitor", &s),
        Some("File monitoring is currently DISABLED".to_string())
    );
    assert_eq!(CommandProcessor::builtin_reply("ls -l", &s), None);
}

#[test]
fn cd_targets() {
    match CommandProcessor::cd_target("", "/w", Some("/home/u".to_string())) {
        CdTarget::Direct(p) => assert_eq!(p, "/home/u"),
        _ => panic!(),
    }
    assert!(matches!(CommandProcessor::cd_target("", "/w", None), CdTarget::Nowhere));
    match CommandProcessor::cd_target("/etc", "/w", None) {
        CdTarget::IfDirectory(p) => assert_eq!(p, "/etc"),
        _ => panic!(),
    }
    match CommandProcessor::cd_target("~/docs", "/w", Some("/home/u".to_string())) {
        CdTarget::IfDirectory(p) => assert_eq!(p, "/home/u/docs"),
        _ => panic!(),
    }
    match CommandProcessor::cd_target("src", "/w", None) {
        CdTarget::IfDirectory(p) => assert_eq!(p, "/w/src"),
        _ => panic!(),
    }
}
