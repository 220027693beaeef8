use pairing_core::gateway::{
    handle_frame, handle_message, rest_connect, Connection, FrameResult, RestConnectError,
    SocketFrame, TickAction, HEARTBEAT_INTERVAL_MS,
};
use pairing_core::protocol::{decode_message, BusEvent, Reply, WsMessage};
use pairing_core::session::QrManager;

fn blank_message(msg_type: &str) -> WsMessage {
    WsMessage {
        msg_type: msg_type.to_string(),
        sid: None,
        image_id_top: None,
        session_id: None,
        payload_sid: None,
        payload_image_id: None,
        cmd: None,
        direction: None,
        action_type: None,
        emote_type: None,
        echo_cmd: None,
        echo_image_id: None,
    }
}

#[test]
fn connect_with_valid_token_connects() {
    let mut mgr = QrManager::new(8080);
    mgr.put_session("tok-1".to_string(), "img-1", 0);
    let mut msg = blank_message("connect");
    msg.session_id = Some("tok-1".to_string());
    msg.payload_image_id = Some("img-1".to_string());
    let out = handle_message(&mut mgr, &msg, 1);
    assert!(out.authenticated);
    match out.reply {
        Some(Reply::Connected { image_id }) => assert_eq!(image_id, "img-1"),
        _ => panic!("expected a connected reply"),
    }
    match out.event {
        Some(BusEvent::MobileConnected { session_id, image_id }) => {
            assert_eq!(session_id, "tok-1");
            assert_eq!(image_id, "img-1");
        }
        _ => panic!("expected a mobile-connected bus event"),
    }
    assert_eq!(mgr.get_session_status("tok-1"), Some((true, 24 * 60 * 60)));
}

#[test]
fn mismatched_image_id_rejects_and_stays_unconnected() {
    let mut mgr = QrManager::new(8080);
    mgr.put_session("tok-1".to_string(), "img-1", 0);
    let mut msg = blank_message("connect");
    msg.session_id = Some("tok-1".to_string());
    msg.payload_image_id = Some("img-other".to_string());
    let out = handle_message(&mut mgr, &msg, 1);
    assert!(!out.authenticated);
    assert!(out.event.is_none());
    match out.reply {
        Some(Reply::Error { message }) => assert_eq!(message, "imageId mismatch"),
        _ => panic!("expected an error reply"),
    }
    // The session was not marked connected by the failed handshake.
    assert_eq!(mgr.get_session_status("tok-1"), Some((false, 24 * 60 * 60)));
}

#[test]
fn connect_with_unknown_token_errors() {
    let mut mgr = QrManager::new(8080);
    let mut msg = blank_message("connect");
    msg.session_id = Some("ghost".to_string());
    let out = handle_message(&mut mgr, &msg, 1);
    match out.reply {
        Some(Reply::Error { message }) => assert_eq!(message, "invalid or expired session"),
        _ => panic!("expected an error reply"),
    }
    assert!(!out.authenticated);
}

#[test]
fn join_acknowledges_with_top_level_sid() {
    let mut mgr = QrManager::new(8080);
    mgr.put_session("tok-j".to_string(), "img-j", 0);
    let mut msg = blank_message("join");
    msg.sid = Some("tok-j".to_string());
    let out = handle_message(&mut mgr, &msg, 1);
    assert!(matches!(out.reply, Some(Reply::AckOk)));
    assert!(out.authenticated);
}

#[test]
fn join_falls_back_to_payload_sid() {
    let mut mgr = QrManager::new(8080);
    mgr.put_session("tok-p".to_string(), "img-p", 0);
    let mut msg = blank_message("join");
    msg.payload_sid = Some("tok-p".to_string());
    msg.payload_image_id = Some("img-p".to_string());
    let out = handle_message(&mut mgr, &msg, 1);
    assert!(matches!(out.reply, Some(Reply::AckOk)));
}

#[test]
fn join_reports_mismatch_as_ack_error() {
    let mut mgr = QrManager::new(8080);
    mgr.put_session("tok-j2".to_string(), "img-a", 0);
    let mut msg = blank_message("join");
    msg.sid = Some("tok-j2".to_string());
    msg.image_id_top = Some("img-b".to_string());
    let out = handle_message(&mut mgr, &msg, 1);
    match out.reply {
        Some(Reply::AckError { message }) => assert_eq!(message, "imageId mismatch"),
        _ => panic!("expected an ack error"),
    }
    assert_eq!(mgr.get_session_status("tok-j2"), Some((false, 24 * 60 * 60)));
}

#[test]
fn join_with_unknown_sid_acks_failure() {
    let mut mgr = QrManager::new(8080);
    let mut msg = blank_message("join");
    msg.sid = Some("ghost".to_string());
    let out = handle_message(&mut mgr, &msg, 1);
    match out.reply {
        Some(Reply::AckError { message }) => assert_eq!(message, "invalid or expired session"),
        _ => panic!("expected an ack error"),
    }
}

#[test]
fn keepalive_echoes_server_clock() {
    let mut mgr = QrManager::new(8080);
    let out = handle_message(&mut mgr, &blank_message("keepalive"), 777);
    assert!(matches!(out.reply, Some(Reply::Keepalive { timestamp_ms: 777 })));
    assert!(out.event.is_none());
}

#[test]
fn unknown_message_type_is_dropped() {
    let mut mgr = QrManager::new(8080);
    let out = handle_message(&mut mgr, &blank_message("mystery"), 1);
    assert!(out.reply.is_none());
    assert!(out.event.is_none());
    assert!(!out.authenticated);
}

#[test]
fn control_message_republishes_on_bus() {
    let mut mgr = QrManager::new(8080);
    let msg = decode_message(r#"{"type":"cmd","payload":{"cmd":"right","imageId":"i9"}}"#).unwrap();
    let out = handle_message(&mut mgr, &msg, 1);
    assert!(out.reply.is_none());
    match out.event {
        Some(BusEvent::MobileControl(_)) => {}
        _ => panic!("expected a mobile-control bus event"),
    }
}

#[test]
fn silent_connection_times_out_after_two_intervals() {
    let conn = Connection::open_at(1_000);
    let boundary = 1_000 + 2 * HEARTBEAT_INTERVAL_MS;
    assert!(matches!(conn.heartbeat_tick(boundary), TickAction::Ping));
    assert!(matches!(conn.heartbeat_tick(boundary + 1), TickAction::Close));
}

#[test]
fn traffic_refreshes_the_liveness_clock() {
    let mut conn = Connection::open_at(0);
    conn.record_traffic(9_000);
    assert!(matches!(conn.heartbeat_tick(19_000), TickAction::Ping));
    assert!(matches!(conn.heartbeat_tick(19_001), TickAction::Close));
}

#[test]
fn frames_drive_the_connection() {
    let mut mgr = QrManager::new(8080);
    let mut conn = Connection::open_at(0);
    assert!(matches!(
        handle_frame(&mut mgr, &mut conn, &SocketFrame::Ping, 5),
        FrameResult::Pong
    ));
    assert!(matches!(
        handle_frame(&mut mgr, &mut conn, &SocketFrame::Pong, 6),
        FrameResult::Ignored
    ));
    // Malformed text is dropped without closing the connection.
    assert!(matches!(
        handle_frame(&mut mgr, &mut conn, &SocketFrame::Text("{oops".to_string()), 7),
        FrameResult::Ignored
    ));
    assert!(matches!(
        handle_frame(&mut mgr, &mut conn, &SocketFrame::Close, 8),
        FrameResult::Closed
    ));
    assert!(matches!(conn.heartbeat_tick(7), TickAction::Ping));
}

#[test]
fn successful_handshake_authenticates_connection() {
    let mut mgr = QrManager::new(8080);
    mgr.put_session("tok-f".to_string(), "img-f", 0);
    let mut conn = Connection::open_at(0);
    let text = r#"{"type":"connect","payload":{"sessionId":"tok-f","imageId":"img-f"}}"#;
    match handle_frame(&mut mgr, &mut conn, &SocketFrame::Text(text.to_string()), 3) {
        FrameResult::Handled(out) => assert!(out.authenticated),
        _ => panic!("expected the frame to be handled"),
    }
    assert!(conn.authenticated);
}

#[test]
fn rest_connect_needs_both_fields() {
    match rest_connect(Some("s1".to_string()), Some("i1".to_string())) {
        Ok(BusEvent::MobileConnected { session_id, image_id }) => {
            assert_eq!(session_id, "s1");
            assert_eq!(image_id, "i1");
        }
        _ => panic!("expected a mobile-connected event"),
    }
    assert!(matches!(
        rest_connect(None, Some("i1".to_string())),
        Err(RestConnectError::MissingSessionId)
    ));
    assert!(matches!(
        rest_connect(Some("s1".to_string()), None),
        Err(RestConnectError::MissingImageId)
    ));
}
