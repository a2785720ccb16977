use cortex::config::{Config, ConfigManager};
use cortex::shell::{
    cd_path, execute_shell_command, execute_system_command_status, exit_line, failure_line, finish_cd, handle_command_output,
    process_config_reload, stderr_line, ShellStep,
};
use cortex::special::{handle_plugin_command, process_command, CommandStep, SpecialEffect};
use cortex::state::AppState;

fn state() -> AppState {
    let cm = ConfigManager::new("/tmp/cortex.toml".to_string(), Config::default());
    AppState::new("/home/u".to_string(), cm, None, None, 0)
}

#[test]
fn cd_paths() {
    assert_eq!(cd_path("cd /etc", "/home/u"), Some("/etc".to_string()));
    assert_eq!(cd_path("  cd  docs  ", "/home/u"), Some("/home/u/docs".to_string()));
    assert_eq!(cd_path("cd", "/home/u"), None);
    assert_eq!(cd_path("ls", "/home/u"), None);
}

#[test]
fn shell_command_starts() {
    let mut s = state();
    s.command_output.push_back("old".to_string());
    match execute_shell_command(&mut s, "ls -la".to_string()) {
        ShellStep::Spawn { command, working_dir } => {
            assert_eq!(command, "ls -la");
            assert_eq!(working_dir, "/home/u");
        }
        other => panic!("unexpected {:?}", other),
    }
    let lines: Vec<&str> = s.command_output.iter().map(|l| l.as_str()).collect();
    assert_eq!(lines, vec!["[WORKING DIR] /home/u", "[STARTED] ls -la"]);
    assert!(s.command_output_visible);
    assert!(!s.command_running);
}

#[test]
fn cd_is_checked_then_finished() {
    let mut s = state();
    match execute_shell_command(&mut s, "cd /tmp".to_string()) {
        ShellStep::CheckDirectory(d) => assert_eq!(d, "/tmp"),
        other => panic!("unexpected {:?}", other),
    }
    assert!(s.command_output.is_empty());
    s.left_panel.selected_index = 3;
    assert!(finish_cd(&mut s, "/tmp".to_string(), true));
    assert_eq!(s.left_panel.current_dir, "/tmp");
    assert_eq!(s.left_panel.selected_index, 0);
    assert_eq!(s.status_message.as_deref(), Some("Changed to: /tmp"));
    assert!(!finish_cd(&mut s, "/nope".to_string(), false));
    assert_eq!(s.left_panel.current_dir, "/tmp");
    assert_eq!(s.status_message.as_deref(), Some("Directory not found: /nope"));
}

#[test]
fn output_lines() {
    assert_eq!(stderr_line("bad"), "[ERROR] bad");
    assert_eq!(exit_line(true, Some(0)), "[COMPLETED] Command finished successfully");
    assert_eq!(exit_line(false, Some(2)), format!("[COMPLETED] Command exited with code: {:?}", Some(2)));
    assert_eq!(exit_line(false, Some(-7)), "[COMPLETED] Command exited with code: Some(-7)");
    assert_eq!(exit_line(false, Some(i32::MIN)), format!("[COMPLETED] Command exited with code: {:?}", Some(i32::MIN)));
    assert_eq!(exit_line(false, None), "[COMPLETED] Command exited with code: None");
    assert_eq!(failure_line(true, "x"), "[ERROR] Failed to wait for command: x");
    assert_eq!(failure_line(false, "y"), "[ERROR] Failed to execute command: y");
}

#[test]
fn plugin_commands() {
    let mut s = state();
    assert!(!handle_plugin_command(&mut s, "   "));
    assert!(s.status_message.is_none());
    assert!(handle_plugin_command(&mut s, "git status"));
    assert_eq!(s.status_message.as_deref(), Some("Plugin command: git"));
}

#[test]
fn command_lines_are_dispatched() {
    let mut s = state();
    assert!(matches!(process_command(&mut s, "/reload", 0), CommandStep::Special(SpecialEffect::Refresh)));
    assert_eq!(s.status_message.as_deref(), Some("Panels refreshed"));
    assert!(matches!(process_command(&mut s, ":fmt now", 0), CommandStep::Plugin(true)));
    assert_eq!(s.status_message.as_deref(), Some("Plugin command: fmt"));
    assert!(matches!(process_command(&mut s, "make", 0), CommandStep::Shell(ShellStep::Spawn { .. })));
    assert!(matches!(process_command(&mut s, "cd src", 0), CommandStep::Shell(ShellStep::CheckDirectory(_))));
}

#[test]
fn status_lines_of_commands() {
    let mut s = state();
    handle_command_output(&mut s, "  built \n");
    assert_eq!(s.status_message.as_deref(), Some("Command: built"));
    execute_system_command_status(&mut s, " hello\n", "warn");
    assert_eq!(s.status_message.as_deref(), Some("Command output: hello"));
    execute_system_command_status(&mut s, " \n", " bad thing\n");
    assert_eq!(s.status_message.as_deref(), Some("Command error: bad thing"));
    execute_system_command_status(&mut s, "", "");
    assert_eq!(s.status_message.as_deref(), Some("Command error: bad thing"));
    process_config_reload(&mut s, Some("parse error"));
    assert_eq!(s.status_message.as_deref(), Some("Failed to reload config: parse error"));
    process_config_reload(&mut s, None);
    assert_eq!(s.status_message.as_deref(), Some("Configuration reloaded"));
}
