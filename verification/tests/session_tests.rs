use pairing_core::session::{QrManager, SESSION_RETENTION_MS, STATUS_REMAINING_SECS};

#[test]
fn create_then_validate_returns_target() {
    let mut mgr = QrManager::new(8080);
    let (token, qr) = mgr.create_session("img-1").expect("encode");
    assert_eq!(token.len(), 36);
    assert!(qr.starts_with("data:image/svg+xml;base64,"));
    assert_eq!(mgr.validate_session(&token), Some("img-1".to_string()));
}

#[test]
fn two_created_tokens_differ() {
    let mut mgr = QrManager::new(8080);
    let (t1, _) = mgr.create_session("a").expect("encode");
    let (t2, _) = mgr.create_session("b").expect("encode");
    assert_ne!(t1, t2);
    assert_eq!(mgr.validate_session(&t1), Some("a".to_string()));
    assert_eq!(mgr.validate_session(&t2), Some("b".to_string()));
}

#[test]
fn validation_is_repeatable_within_window() {
    let mut mgr = QrManager::new(8080);
    mgr.put_session("tok-1".to_string(), "img-7", 1_000);
    for step in 0..5u64 {
        let now = 1_000 + step * 60_000;
        assert_eq!(
            mgr.validate_session_at("tok-1", now),
            Some("img-7".to_string()),
            "validation must stay successful at {now}"
        );
    }
}

#[test]
fn session_expires_after_retention_window() {
    let mut mgr = QrManager::new(8080);
    mgr.put_session("tok-old".to_string(), "img-1", 0);
    // One millisecond before the window closes the token still validates.
    assert_eq!(
        mgr.validate_session_at("tok-old", SESSION_RETENTION_MS - 1),
        Some("img-1".to_string())
    );
    mgr.put_session("tok-old".to_string(), "img-1", 0);
    // At the window boundary the sweep removes it.
    assert_eq!(mgr.validate_session_at("tok-old", SESSION_RETENTION_MS), None);
    assert_eq!(mgr.get_session_status("tok-old"), None);
}

#[test]
fn sweep_removes_only_expired_sessions() {
    let mut mgr = QrManager::new(8080);
    mgr.put_session("tok-old".to_string(), "img-old", 0);
    mgr.put_session("tok-new".to_string(), "img-new", SESSION_RETENTION_MS);
    assert_eq!(
        mgr.validate_session_at("tok-new", SESSION_RETENTION_MS + 1),
        Some("img-new".to_string())
    );
    assert_eq!(mgr.get_session_status("tok-old"), None);
}

#[test]
fn unknown_token_not_found() {
    let mut mgr = QrManager::new(8080);
    assert_eq!(mgr.validate_session("no-such-token"), None);
    assert_eq!(mgr.get_session_status("no-such-token"), None);
}

#[test]
fn status_reports_sticky_connected_flag() {
    let mut mgr = QrManager::new(8080);
    mgr.put_session("tok-s".to_string(), "img-s", 0);
    assert_eq!(mgr.get_session_status("tok-s"), Some((false, STATUS_REMAINING_SECS)));
    assert_eq!(mgr.validate_session_at("tok-s", 5), Some("img-s".to_string()));
    assert_eq!(mgr.get_session_status("tok-s"), Some((true, STATUS_REMAINING_SECS)));
    // Status never un-connects.
    assert_eq!(mgr.validate_session_at("tok-s", 6), Some("img-s".to_string()));
    assert_eq!(mgr.get_session_status("tok-s"), Some((true, STATUS_REMAINING_SECS)));
}

#[test]
fn put_session_replaces_same_token() {
    let mut mgr = QrManager::new(8080);
    mgr.put_session("tok-r".to_string(), "first", 0);
    mgr.put_session("tok-r".to_string(), "second", 1);
    assert_eq!(mgr.validate_session_at("tok-r", 2), Some("second".to_string()));
}

#[test]
fn server_port_is_kept() {
    let mgr = QrManager::new(8087);
    assert_eq!(mgr.server_port(), 8087);
}
