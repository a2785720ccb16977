use cortex::terminal::{ShellConfig, ShellType, TerminalManager, TerminalSize};

#[test]
fn shell_commands() {
    assert_eq!(ShellConfig::bash().build_command(), "bash --login");
    assert_eq!(ShellConfig::zsh().build_command(), "zsh -l");
    assert_eq!(ShellConfig::powershell_core().build_command(), "pwsh -NoLogo");
    assert_eq!(ShellConfig::cmd().build_command(), "cmd.exe");
    let c = ShellConfig::custom("/opt/sh".to_string()).with_env("A".to_string(), "1".to_string());
    assert_eq!(c.env.len(), 3);
    assert_eq!(c.env[2], ("A".to_string(), "1".to_string()));
    let w = ShellConfig::fish().with_working_dir("/tmp".to_string());
    assert_eq!(w.working_dir, Some("/tmp".to_string()));
    assert_eq!(w.env[0], ("TERM".to_string(), "xterm-256color".to_string()));
}

#[test]
fn shell_from_variable() {
    assert!(matches!(ShellConfig::from_shell_variable(Some("/usr/bin/zsh".to_string())).shell_type, ShellType::Zsh));
    assert!(matches!(ShellConfig::from_shell_variable(Some("/usr/bin/fish".to_string())).shell_type, ShellType::Fish));
    assert!(matches!(ShellConfig::from_shell_variable(None).shell_type, ShellType::Bash));
    let c = ShellConfig::from_shell_variable(Some("/bin/dash".to_string()));
    assert_eq!(c.command, "/bin/dash");
    assert!(matches!(c.shell_type, ShellType::Custom(_)));
    assert_eq!(ShellConfig::for_windows(false, true).command, "powershell");
    assert_eq!(ShellConfig::for_windows(false, false).command, "cmd.exe");
}

#[test]
fn sessions() {
    let mut t = TerminalManager::new(ShellConfig::bash());
    let a = t.create_session(None, "/home".to_string(), None);
    assert_eq!(a.id, "term_1");
    assert_eq!(a.title, "Terminal term_1");
    assert_eq!((a.rows, a.cols), (24, 80));
    let b = t.create_session(Some("build".to_string()), "/src".to_string(), Some(TerminalSize { rows: 10, cols: 20 }));
    assert_eq!(b.id, "term_2");
    assert_eq!(b.title, "build");
    assert!(t.resize_session("term_1", 50, 120));
    assert!(!t.resize_session("term_9", 1, 1));
    let s = t.get_session_info("term_1").unwrap();
    assert_eq!((s.rows, s.cols), (50, 120));
    assert_eq!(t.list_sessions().len(), 2);
    assert!(t.close_session("term_2"));
    assert!(!t.close_session("term_2"));
    assert_eq!(t.list_sessions().len(), 1);
}

#[test]
fn shells_and_closing_all() {
    let mut t = TerminalManager::new(ShellConfig::bash());
    assert_eq!(t.spawn_command(), "bash --login");
    t.create_session(None, "/a".to_string(), None);
    t.create_session(None, "/b".to_string(), None);
    let mut t = t.with_default_shell(ShellConfig::zsh());
    assert_eq!(t.spawn_command(), "zsh -l");
    assert_eq!(t.close_all_sessions(), vec!["term_1".to_string(), "term_2".to_string()]);
    assert!(t.list_sessions().is_empty());
    let c = t.create_session(None, "/c".to_string(), None);
    assert_eq!(c.id, "term_3");
}

#[test]
fn system_shell() {
    let s = ShellConfig::detect_system_shell(false, Some("/usr/bin/fish".to_string()));
    assert!(matches!(s.shell_type, ShellType::Fish));
    let s = ShellConfig::detect_system_shell(false, None);
    assert!(matches!(s.shell_type, ShellType::Bash));
    let s = ShellConfig::detect_system_shell(true, None);
    assert!(["pwsh", "powershell", "cmd.exe"].contains(&s.command.as_str()));
}
