use cortex::launch::{no_terminal_message, relaunch_command, system_terminal_candidates, TargetOs};

#[test]
fn relaunch_commands() {
    assert_eq!(relaunch_command("/usr/bin/cortex", None), "/usr/bin/cortex --terminal");
    assert_eq!(relaunch_command("/usr/bin/cortex", Some("/home/u")), "/usr/bin/cortex --terminal '/home/u'");
}

#[test]
fn linux_terminals_in_order() {
    let c = system_terminal_candidates(TargetOs::Linux, "x --terminal");
    let names: Vec<&str> = c.iter().map(|(n, _)| n.as_str()).collect();
    assert_eq!(
        names,
        vec![
            "gnome-terminal", "konsole", "tilix", "alacritty", "kitty", "wezterm", "hyper", "xfce4-terminal",
            "mate-terminal", "lxterminal", "rxvt", "urxvt", "xterm"
        ]
    );
    assert_eq!(
        c[0].1,
        vec!["--geometry=120x40", "--title=Cortex File Manager", "--", "sh", "-c", "x --terminal"]
    );
    assert_eq!(c[12].1, vec!["-geometry", "120x40", "-title", "Cortex File Manager", "-e", "sh", "-c", "x --terminal"]);
}

#[test]
fn windows_and_mac_terminals() {
    let c = system_terminal_candidates(TargetOs::Windows, "c");
    assert_eq!(c.len(), 4);
    assert_eq!(c[2].0, "powershell");
    assert_eq!(c[2].1, vec!["-NoExit", "-Command", "cmd /K 'c'"]);
    let m = system_terminal_candidates(TargetOs::MacOs, "run me");
    assert_eq!(m.len(), 2);
    assert_eq!(m[0].0, "osascript");
    assert_eq!(
        m[1].1[1],
        format!(
            r#"tell application "Terminal"
                do script "{}"
                activate
                set bounds of front window to {{100, 100, 1380, 900}}
            end tell"#,
            "run me"
        )
    );
    assert!(m[0].1[1].contains("write text \"run me\""));
    assert!(system_terminal_candidates(TargetOs::Other, "c").is_empty());
}

#[test]
fn messages_when_nothing_opens() {
    assert_eq!(
        no_terminal_message(TargetOs::Windows).as_deref(),
        Some("Could not find any suitable terminal application on Windows")
    );
    assert!(no_terminal_message(TargetOs::Linux).unwrap().ends_with("kitty, xterm"));
    assert!(no_terminal_message(TargetOs::MacOs).is_none());
}

#[test]
fn terminals_are_tried_until_one_opens() {
    let mut a = cortex::launch::TerminalAttempts::new(3);
    assert_eq!(a.next_candidate(), Some(0));
    a.record(false);
    assert_eq!(a.next_candidate(), Some(1));
    a.record(true);
    assert_eq!(a.next_candidate(), None);
    assert!(a.opened());
    let mut b = cortex::launch::TerminalAttempts::new(1);
    b.record(false);
    assert_eq!(b.next_candidate(), None);
    assert!(!b.opened());
}
