use cortex::demo::{
    demo_intro_screen, map_physical_key_to_tui, window_event_message, DemoState, IntegratedTuiMessage, RenderMessage,
    WindowEvent, WindowKey,
};

fn expected(kind: &str, count: usize, log: &[String]) -> Vec<String> {
    let (sub, det, label, logname, foot) = match kind {
        "key" => (
            "│        KEYBOARD WORKING!        │",
            "│  ✅ KEY INPUT DETECTED!         │",
            "Keys pressed",
            "│  Recent keys:                   │",
            "│  Press F10 or close to exit     │",
        ),
        "arrow" => (
            "│       ARROW KEYS WORK!          │",
            "│  ✅ NAVIGATION DETECTED!        │",
            "Total events",
            "│  Recent inputs:                 │",
            "│  All arrows work perfectly!     │",
        ),
        _ => (
            "│      SPECIAL KEYS WORK!         │",
            "│  ✅ ESC, TAB, F10 WORKING!      │",
            "Total inputs",
            "│  Input log:                     │",
            "│  All keys work perfectly!       │",
        ),
    };
    let mut s = vec![
        "┌─────────────────────────────────┐".to_string(),
        "│       CORTEX FILE MANAGER       │".to_string(),
        sub.to_string(),
        "├─────────────────────────────────┤".to_string(),
        "│                                 │".to_string(),
        det.to_string(),
        "│                                 │".to_string(),
        format!("│  {}: {:>3}             │", label, count),
        "│                                 │".to_string(),
        logname.to_string(),
    ];
    for (i, k) in log.iter().enumerate() {
        s.push(format!("│  {:>2}. {:25} │", i + 1, k));
    }
    while s.len() < 18 {
        s.push("│                                 │".to_string());
    }
    s.push(foot.to_string());
    s.push("└─────────────────────────────────┘".to_string());
    s
}

#[test]
fn intro_screen_lines() {
    let s = demo_intro_screen();
    assert_eq!(s.len(), 20);
    assert_eq!(s[2], "│      INTERACTIVE DEMO MODE      │");
    assert_eq!(s[19], "└─────────────────────────────────┘");
}

#[test]
fn keys_are_counted_and_logged() {
    let mut d = DemoState::new();
    let mut log: Vec<String> = Vec::new();
    match d.handle_key(IntegratedTuiMessage::KeyChar('a')) {
        RenderMessage::ScreenUpdate(lines) => {
            log.push("Key 'a' (press #1) ".to_string());
            assert_eq!(lines, expected("key", 1, &log));
        }
        RenderMessage::Quit => panic!("unexpected quit"),
    }
    match d.handle_key(IntegratedTuiMessage::ArrowUp) {
        RenderMessage::ScreenUpdate(lines) => {
            log.push("Arrow UP".to_string());
            assert_eq!(lines, expected("arrow", 2, &log));
        }
        RenderMessage::Quit => panic!("unexpected quit"),
    }
    match d.handle_key(IntegratedTuiMessage::EscapeKey) {
        RenderMessage::ScreenUpdate(lines) => {
            log.push("Special key".to_string());
            assert_eq!(lines, expected("special", 3, &log));
        }
        RenderMessage::Quit => panic!("unexpected quit"),
    }
}

#[test]
fn only_the_last_ten_keys_stay() {
    let mut d = DemoState::new();
    let mut log: Vec<String> = Vec::new();
    let mut last = Vec::new();
    for (n, c) in "abcdefghijklmn".chars().enumerate() {
        log.push(format!("Key '{}' (press #{}) ", c, n + 1));
        if log.len() > 10 {
            log.remove(0);
        }
        if let RenderMessage::ScreenUpdate(lines) = d.handle_key(IntegratedTuiMessage::KeyChar(c)) {
            last = lines;
        }
    }
    assert_eq!(last, expected("key", 14, &log));
    assert_eq!(last.len(), 22);
    assert!(matches!(d.handle_key(IntegratedTuiMessage::F10Key), RenderMessage::Quit));
    assert!(matches!(d.handle_key(IntegratedTuiMessage::Quit), RenderMessage::Quit));
}

#[test]
fn wide_characters_pad_by_character() {
    let mut d = DemoState::new();
    if let RenderMessage::ScreenUpdate(lines) = d.handle_key(IntegratedTuiMessage::KeyChar('é')) {
        assert_eq!(lines[10], format!("│  {:>2}. {:25} │", 1, "Key 'é' (press #1) "));
    } else {
        panic!("unexpected quit");
    }
}

#[test]
fn window_events_become_messages() {
    use_window_events();
}

fn use_window_events() {
    assert_eq!(window_event_message(WindowEvent::Close), Some(IntegratedTuiMessage::Quit));
    assert_eq!(window_event_message(WindowEvent::KeyPress('q')), Some(IntegratedTuiMessage::KeyChar('q')));
    assert_eq!(window_event_message(WindowEvent::KeyDown(WindowKey::F10)), Some(IntegratedTuiMessage::F10Key));
    assert_eq!(window_event_message(WindowEvent::KeyDown(WindowKey::Other)), None);
    assert_eq!(window_event_message(WindowEvent::Other), None);
    assert_eq!(map_physical_key_to_tui(WindowKey::ArrowLeft), Some(IntegratedTuiMessage::ArrowLeft));
}
