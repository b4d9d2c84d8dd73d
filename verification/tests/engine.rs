use gateway_client::error::GatewayError;
use gateway_client::machine::{Action, Engine, GatewayEvent, Input};
use gateway_client::payload::build_resume;
use gateway_client::reconnect::ReconnectPolicy;
use gateway_client::stage::ConnectionStage;

fn policy() -> ReconnectPolicy {
    ReconnectPolicy {
        base_delay_ms: 1000,
        max_delay_ms: 30000,
        jitter_permille: 0,
        max_attempts: 10,
    }
}

fn fresh_engine() -> Engine {
    Engine::new(0, 1, policy())
}

/// Drive a fresh engine to the Connected stage via Hello and Ready.
fn connected_engine() -> Engine {
    let mut e = fresh_engine();
    let act = e.step(Input::Opened, 0, 0);
    assert!(matches!(act, Action::Continue));
    let act = e.step(Input::Frame(GatewayEvent::Hello { interval_ms: 45000 }), 10, 0);
    assert!(matches!(act, Action::SendIdentify));
    let act = e.step(
        Input::Frame(GatewayEvent::Ready {
            session_id: "abc".to_string(),
            resume_url: "wss://x".to_string(),
        }),
        20,
        0,
    );
    assert!(matches!(act, Action::Continue));
    e
}

#[test]
fn scenario_hello_identify_ready_connects() {
    let mut e = fresh_engine();
    assert!(matches!(e.stage, ConnectionStage::Connecting));
    assert!(e.stage.is_connecting());

    let act = e.step(Input::Opened, 0, 0);
    assert!(matches!(act, Action::Continue));
    assert!(matches!(e.stage, ConnectionStage::Handshake));

    // Hello announces the heartbeat interval; with no session on hand the
    // engine identifies.
    let act = e.step(Input::Frame(GatewayEvent::Hello { interval_ms: 45000 }), 100, 0);
    assert!(matches!(act, Action::SendIdentify));
    assert!(matches!(e.stage, ConnectionStage::Identifying));
    let hb = e.heartbeat.expect("heartbeat schedule must start on Hello");
    assert_eq!(hb.interval_ms, 45000);
    assert_eq!(hb.last_sent_at, 100);
    assert!(hb.ack_received);

    let act = e.step(
        Input::Frame(GatewayEvent::Ready {
            session_id: "abc".to_string(),
            resume_url: "wss://x".to_string(),
        }),
        200,
        0,
    );
    assert!(matches!(act, Action::Continue));
    assert!(matches!(e.stage, ConnectionStage::Connected));
    assert_eq!(e.session.session_id.as_deref(), Some("abc"));
    assert_eq!(e.session.resume_url.as_deref(), Some("wss://x"));
    assert!(e.session.resumable);
}

#[test]
fn scenario_resumable_close_leads_to_resume_not_identify() {
    let mut e = connected_engine();
    let act = e.step(
        Input::Frame(GatewayEvent::Dispatch {
            sequence: 7,
            event_name: "MESSAGE_CREATE".to_string(),
            payload: vec![1, 2, 3],
        }),
        30,
        0,
    );
    assert!(matches!(act, Action::Dispatch { sequence: 7, .. }));
    assert_eq!(e.session.sequence, Some(7));

    // The transport closes with a resumable close code.
    let act = e.step(Input::Closed { code: Some(4000) }, 40, 0);
    assert!(matches!(act, Action::OpenTransport));
    assert!(matches!(e.stage, ConnectionStage::Connecting));
    assert!(e.session.resumable);

    // The next handshake completes; the engine resumes instead of
    // identifying, echoing the last recorded sequence.
    let act = e.step(Input::Opened, 50, 0);
    assert!(matches!(act, Action::Continue));
    let act = e.step(Input::Frame(GatewayEvent::Hello { interval_ms: 1000 }), 60, 0);
    assert!(matches!(act, Action::SendResume { delay_ms: 0 }));
    assert!(matches!(e.stage, ConnectionStage::Resuming));

    let payload = build_resume("Bot token".to_string(), &e.session).expect("resume must build");
    assert_eq!(payload.session_id, "abc");
    assert_eq!(payload.sequence, 7);

    let act = e.step(Input::Frame(GatewayEvent::Resumed), 70, 0);
    assert!(matches!(act, Action::Continue));
    assert!(matches!(e.stage, ConnectionStage::Connected));
}

#[test]
fn scenario_three_connect_failures_back_off_exponentially() {
    let mut e = fresh_engine();
    let act = e.step(Input::ConnectFailed, 0, 0);
    match act {
        Action::Backoff { delay_ms } => assert_eq!(delay_ms, 1000),
        other => panic!("expected backoff, got {other:?}"),
    }
    let act = e.step(Input::ConnectFailed, 0, 0);
    match act {
        Action::Backoff { delay_ms } => assert_eq!(delay_ms, 2000),
        other => panic!("expected backoff, got {other:?}"),
    }
    let act = e.step(Input::ConnectFailed, 0, 0);
    match act {
        Action::Backoff { delay_ms } => assert_eq!(delay_ms, 4000),
        other => panic!("expected backoff, got {other:?}"),
    }
    assert_eq!(e.attempt, 3);

    // Delays never exceed the ceiling, whatever the attempt.
    for _ in 0..20 {
        match e.step(Input::ConnectFailed, 0, 0) {
            Action::Backoff { delay_ms } => assert!(delay_ms <= 30000),
            Action::Fatal { error } => {
                assert!(matches!(error, GatewayError::ReconnectFailure));
                break;
            }
            other => panic!("unexpected action {other:?}"),
        }
    }
}

#[test]
fn heartbeat_timeout_forces_reconnect_with_resumable() {
    let mut e = connected_engine();
    // A heartbeat becomes due one interval after the handshake.
    let act = e.step(Input::Tick, 45020, 0);
    assert!(matches!(act, Action::SendHeartbeat { .. }));
    let hb = e.heartbeat.expect("heartbeat state must persist");
    assert!(!hb.ack_received);
    assert_eq!(hb.last_sent_at, 45020);

    // While the heartbeat is in flight, nothing further is due.
    let act = e.step(Input::Tick, 45030, 0);
    assert!(matches!(act, Action::Continue));

    // No acknowledgement within two intervals of the send: the engine
    // closes and reconnects with the session kept resumable.
    let act = e.step(Input::Tick, 45020 + 2 * 45000, 0);
    assert!(matches!(act, Action::CloseAndReconnect { resumable: true }));
    assert!(matches!(e.stage, ConnectionStage::Connecting));
    assert!(e.session.resumable);
}

#[test]
fn heartbeat_ack_records_latency() {
    let mut e = connected_engine();
    let act = e.step(Input::Tick, 45020, 0);
    assert!(matches!(act, Action::SendHeartbeat { .. }));
    let act = e.step(Input::Frame(GatewayEvent::HeartbeatAck), 45070, 0);
    assert!(matches!(act, Action::Continue));
    let hb = e.heartbeat.expect("heartbeat state must persist");
    assert!(hb.ack_received);
    assert_eq!(hb.latency_ms, Some(50));
}

#[test]
fn invalid_session_unresumable_clears_and_identifies() {
    let mut e = connected_engine();
    e.step(
        Input::Frame(GatewayEvent::Dispatch {
            sequence: 3,
            event_name: "GUILD_CREATE".to_string(),
            payload: vec![],
        }),
        30,
        0,
    );

    // Drop back into the authentication phase via a resumable close.
    e.step(Input::Closed { code: None }, 40, 0);
    e.step(Input::Opened, 50, 0);
    let act = e.step(Input::Frame(GatewayEvent::Hello { interval_ms: 1000 }), 60, 0);
    assert!(matches!(act, Action::SendResume { .. }));

    // The server declares the session invalid and not resumable.
    let act = e.step(
        Input::Frame(GatewayEvent::InvalidSession { resumable: false }),
        70,
        0,
    );
    assert!(matches!(act, Action::SendIdentify));
    assert!(matches!(e.stage, ConnectionStage::Identifying));
    assert_eq!(e.session.session_id, None);
    assert_eq!(e.session.resume_url, None);
    assert_eq!(e.session.sequence, None);
    assert!(!e.session.resumable);
}

#[test]
fn invalid_session_resumable_retries_resume_after_delay() {
    let mut e = connected_engine();
    e.step(Input::Closed { code: None }, 40, 0);
    e.step(Input::Opened, 50, 0);
    e.step(Input::Frame(GatewayEvent::Hello { interval_ms: 1000 }), 60, 0);
    let act = e.step(
        Input::Frame(GatewayEvent::InvalidSession { resumable: true }),
        70,
        0,
    );
    match act {
        Action::SendResume { delay_ms } => assert!(delay_ms > 0),
        other => panic!("expected a delayed resume, got {other:?}"),
    }
    assert!(matches!(e.stage, ConnectionStage::Resuming));
    assert_eq!(e.session.session_id.as_deref(), Some("abc"));
}

#[test]
fn server_requested_reconnect_keeps_session_resumable() {
    let mut e = connected_engine();
    let act = e.step(Input::Frame(GatewayEvent::Reconnect), 30, 0);
    assert!(matches!(act, Action::CloseAndReconnect { resumable: true }));
    assert!(matches!(e.stage, ConnectionStage::Connecting));
    assert!(e.session.resumable);
    assert_eq!(e.session.session_id.as_deref(), Some("abc"));
}

#[test]
fn authentication_close_code_is_fatal() {
    let mut e = connected_engine();
    let act = e.step(Input::Closed { code: Some(4004) }, 30, 0);
    match act {
        Action::Fatal { error } => assert!(matches!(error, GatewayError::InvalidAuthentication)),
        other => panic!("expected a fatal error, got {other:?}"),
    }
    assert!(matches!(e.stage, ConnectionStage::Disconnected));
    assert!(!e.stage.is_connecting());
}

#[test]
fn non_resumable_close_code_clears_session() {
    let mut e = connected_engine();
    let act = e.step(Input::Closed { code: Some(4010) }, 30, 0);
    assert!(matches!(act, Action::OpenTransport));
    assert!(matches!(e.stage, ConnectionStage::Connecting));
    assert!(!e.session.resumable);
    assert_eq!(e.session.session_id, None);
    assert_eq!(e.session.resume_url, None);
}

#[test]
fn stale_dispatch_does_not_decrease_sequence() {
    let mut e = connected_engine();
    e.step(
        Input::Frame(GatewayEvent::Dispatch {
            sequence: 9,
            event_name: "A".to_string(),
            payload: vec![],
        }),
        30,
        0,
    );
    assert_eq!(e.session.sequence, Some(9));
    e.step(
        Input::Frame(GatewayEvent::Dispatch {
            sequence: 4,
            event_name: "B".to_string(),
            payload: vec![],
        }),
        31,
        0,
    );
    assert_eq!(e.session.sequence, Some(9));
    e.step(
        Input::Frame(GatewayEvent::Dispatch {
            sequence: 10,
            event_name: "C".to_string(),
            payload: vec![],
        }),
        32,
        0,
    );
    assert_eq!(e.session.sequence, Some(10));
}

#[test]
fn dispatch_resets_attempt_counter() {
    let mut e = fresh_engine();
    e.step(Input::ConnectFailed, 0, 0);
    e.step(Input::ConnectFailed, 0, 0);
    assert_eq!(e.attempt, 2);
    e.step(Input::Opened, 10, 0);
    e.step(Input::Frame(GatewayEvent::Hello { interval_ms: 1000 }), 20, 0);
    e.step(
        Input::Frame(GatewayEvent::Ready {
            session_id: "s".to_string(),
            resume_url: "wss://r".to_string(),
        }),
        30,
        0,
    );
    assert_eq!(e.attempt, 2);
    e.step(
        Input::Frame(GatewayEvent::Dispatch {
            sequence: 1,
            event_name: "READY_FOLLOW_UP".to_string(),
            payload: vec![],
        }),
        40,
        0,
    );
    assert_eq!(e.attempt, 0);
}

#[test]
fn retry_ceiling_gives_up_with_reconnect_failure() {
    let mut e = Engine::new(
        0,
        1,
        ReconnectPolicy {
            base_delay_ms: 1000,
            max_delay_ms: 30000,
            jitter_permille: 0,
            max_attempts: 2,
        },
    );
    assert!(matches!(e.step(Input::ConnectFailed, 0, 0), Action::Backoff { .. }));
    assert!(matches!(e.step(Input::ConnectFailed, 0, 0), Action::Backoff { .. }));
    let act = e.step(Input::ConnectFailed, 0, 0);
    match act {
        Action::Fatal { error } => assert!(matches!(error, GatewayError::ReconnectFailure)),
        other => panic!("expected to give up, got {other:?}"),
    }
    assert!(matches!(e.stage, ConnectionStage::Disconnected));
}

#[test]
fn expected_hello_violation_triggers_reconnect() {
    let mut e = fresh_engine();
    e.step(Input::Opened, 0, 0);
    // The first frame is not a Hello: the handshake failed.
    let act = e.step(Input::Frame(GatewayEvent::HeartbeatAck), 10, 0);
    assert!(matches!(act, Action::Backoff { .. }));
    assert!(matches!(e.stage, ConnectionStage::Connecting));
    assert_eq!(e.attempt, 1);
}

#[test]
fn handshake_timeout_triggers_reconnect() {
    let mut e = fresh_engine();
    e.step(Input::Opened, 0, 0);
    let act = e.step(Input::HandshakeTimeout, 10_000, 0);
    assert!(matches!(act, Action::Backoff { .. }));
    assert!(matches!(e.stage, ConnectionStage::Connecting));
}

#[test]
fn shutdown_closes_cleanly_and_never_reconnects() {
    let mut e = connected_engine();
    let act = e.step(Input::Shutdown, 100, 0);
    assert!(matches!(act, Action::CloseClean));
    assert!(matches!(e.stage, ConnectionStage::Disconnected));
    // After shutdown no event restarts the shard.
    let act = e.step(Input::Frame(GatewayEvent::Hello { interval_ms: 1000 }), 110, 0);
    assert!(matches!(act, Action::Continue));
    assert!(matches!(e.stage, ConnectionStage::Disconnected));
    let act = e.step(Input::ConnectFailed, 120, 0);
    assert!(matches!(act, Action::Continue));
    assert!(matches!(e.stage, ConnectionStage::Disconnected));
}

#[test]
fn hello_while_connected_restarts_heartbeat() {
    let mut e = connected_engine();
    let act = e.step(Input::Frame(GatewayEvent::Hello { interval_ms: 2000 }), 500, 0);
    assert!(matches!(act, Action::Continue));
    let hb = e.heartbeat.expect("heartbeat must be running");
    assert_eq!(hb.interval_ms, 2000);
    assert_eq!(hb.last_sent_at, 500);
}

#[test]
fn first_heartbeat_is_jittered_under_one_interval() {
    let mut e = fresh_engine();
    e.step(Input::Opened, 100_000, 0);
    // A non-zero jitter draw pulls the first heartbeat forward by the draw,
    // modulo the interval.
    e.step(
        Input::Frame(GatewayEvent::Hello { interval_ms: 45000 }),
        100_000,
        50_000,
    );
    let hb = e.heartbeat.expect("heartbeat schedule must start on Hello");
    assert_eq!(hb.last_sent_at, 100_000 - (50_000 % 45_000));
    // The first send falls due within one interval of the handshake.
    assert!(hb.last_sent_at + u64::from(hb.interval_ms) <= 100_000 + 45_000);
}

#[test]
fn heartbeat_request_sends_immediately() {
    let mut e = connected_engine();
    e.step(
        Input::Frame(GatewayEvent::Dispatch {
            sequence: 5,
            event_name: "E".to_string(),
            payload: vec![],
        }),
        30,
        0,
    );
    let act = e.step(Input::Frame(GatewayEvent::HeartbeatRequest), 40, 0);
    match act {
        Action::SendHeartbeat { sequence } => assert_eq!(sequence, Some(5)),
        other => panic!("expected an immediate heartbeat, got {other:?}"),
    }
    let hb = e.heartbeat.expect("heartbeat must be running");
    assert!(!hb.ack_received);
    assert_eq!(hb.last_sent_at, 40);
}
