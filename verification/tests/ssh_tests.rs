use cortex::ssh::{connection_failure, make_session_key, retry_delay_ms, SshConnectionManager};

#[test]
fn test_ssh_connection_manager_creation() {
    let manager: SshConnectionManager<String> = SshConnectionManager::new().with_timeouts(10, 300).with_max_retries(5);
    // Manager should be created successfully
    let _arc = std::sync::Arc::new(manager);
}

#[test]
fn test_connection_manager_timeouts() {
    let manager: SshConnectionManager<String> = SshConnectionManager::new().with_timeouts(5, 1);
    // Manager should be created with custom timeouts
    assert_eq!(manager.connection_timeout(), 5);
}

#[test]
fn test_disconnect_all() {
    let mut manager: SshConnectionManager<String> = SshConnectionManager::new();
    let result = manager.disconnect_all();
    assert!(result.is_empty());
}

#[test]
fn sessions_are_kept_by_key_and_dropped_when_idle() {
    let mut m: SshConnectionManager<&str> = SshConnectionManager::new().with_timeouts(30, 100);
    assert_eq!(m.max_retries(), 3);
    let a = make_session_key("example.com", 22, "alice");
    assert_eq!(a, "alice:22@example.com");
    m.insert_session(a.clone(), "session-a", 10);
    m.insert_session(make_session_key("h", 2222, "bob"), "session-b", 50);
    assert_eq!(m.get_session(&a), Some(&"session-a"));
    m.insert_session(a.clone(), "session-a2", 60);
    assert_eq!(m.get_session(&a), Some(&"session-a2"));
    // At 200, the session used at 60 is idle (140 > 100); the one at 50 too.
    m.touch("bob:2222@h", 150);
    assert_eq!(m.cleanup_idle_sessions(200), vec!["session-a2"]);
    assert_eq!(m.get_session(&a), None);
    assert_eq!(m.disconnect("h", 2222, "bob"), Some("session-b"));
    assert_eq!(m.disconnect("h", 2222, "bob"), None);
    m.insert_session("x".to_string(), "s1", 1);
    m.insert_session("y".to_string(), "s2", 1);
    assert_eq!(m.disconnect_all(), vec!["s1", "s2"]);
}

#[test]
fn retry_delays_double() {
    assert_eq!(retry_delay_ms(0), 0);
    assert_eq!(retry_delay_ms(1), 1000);
    assert_eq!(retry_delay_ms(2), 2000);
    assert_eq!(retry_delay_ms(55), 500 * (1u64 << 55));
}

#[test]
fn valid_sessions_are_reused() {
    let mut m: SshConnectionManager<&str> = SshConnectionManager::new();
    let k = make_session_key("h", 22, "u");
    assert!(!m.reuse_or_connect(&k, true, 5));
    m.insert_session(k.clone(), "s", 1);
    assert!(!m.reuse_or_connect(&k, false, 5));
    assert!(m.reuse_or_connect(&k, true, 700));
    // Used at 700, so not idle at 1000 with the default ten minutes.
    assert!(m.cleanup_idle_sessions(1000).is_empty());
    assert_eq!(connection_failure(None), "Failed to create SSH session");
    assert_eq!(connection_failure(Some("refused".to_string())), "refused");
}
