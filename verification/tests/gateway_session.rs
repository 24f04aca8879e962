use dscrd_status::fingerprint::fingerprint_for_profile;
use dscrd_status::gateway::{
    resume_url_from, Connection, ConnectionOutcome, GatewayAction, GatewayEvent, GatewayExit,
    GatewayFrame, SessionMemory, DEFAULT_HEARTBEAT_INTERVAL_MS, FAILURE_RETRY_DELAY_MS,
    GATEWAY_URL,
};
use dscrd_status::payload::Payload;

fn frame(op: Option<u64>) -> GatewayFrame {
    GatewayFrame {
        op,
        seq: None,
        event_name: None,
        heartbeat_interval: None,
        session_id: None,
        resume_gateway_url: None,
        resumable: None,
    }
}

fn connection(existing: Option<&str>) -> Connection {
    Connection::new(
        "tok".to_string(),
        "online".to_string(),
        fingerprint_for_profile(4, 55),
        existing.map(|s| s.to_string()),
    )
}

#[test]
fn hello_starts_heartbeat_and_identifies() {
    let mut c = connection(None);
    let mut f = frame(Some(10));
    f.heartbeat_interval = Some(41250);
    match c.on_event(GatewayEvent::Frame(f)) {
        GatewayAction::StartHeartbeat { interval_ms, payload: Payload::Identify(i) } => {
            assert_eq!(interval_ms, 41250);
            assert_eq!(i.token, "tok");
            assert_eq!(i.status, "online");
            assert_eq!(i.properties.os, "Linux");
            assert_eq!(i.properties.client_build_number, 55);
        }
        other => panic!("unexpected action {:?}", other),
    }
    assert!(c.heartbeat_started);
}

#[test]
fn hello_without_interval_uses_default() {
    let mut c = connection(None);
    match c.on_frame(frame(Some(10))) {
        GatewayAction::StartHeartbeat { interval_ms, .. } => {
            assert_eq!(interval_ms, DEFAULT_HEARTBEAT_INTERVAL_MS);
            assert_eq!(interval_ms, 41250);
        }
        other => panic!("unexpected action {:?}", other),
    }
}

#[test]
fn second_hello_does_not_restart_heartbeat() {
    let mut c = connection(None);
    c.on_frame(frame(Some(10)));
    match c.on_frame(frame(Some(10))) {
        GatewayAction::Send(Payload::Identify(_)) => {}
        other => panic!("unexpected action {:?}", other),
    }
}

#[test]
fn hello_resumes_existing_session_with_sequence() {
    let mut c = connection(Some("abc"));
    let mut f = frame(Some(10));
    f.seq = Some(12);
    match c.on_frame(f) {
        GatewayAction::StartHeartbeat { payload: Payload::Resume { token, session_id, seq }, .. } => {
            assert_eq!(token, "tok");
            assert_eq!(session_id, "abc");
            assert_eq!(seq, Some(12));
        }
        other => panic!("unexpected action {:?}", other),
    }
    let mut c2 = connection(Some("abc"));
    match c2.on_frame(frame(Some(10))) {
        GatewayAction::StartHeartbeat { payload: Payload::Resume { seq, .. }, .. } => {
            assert_eq!(seq, None)
        }
        other => panic!("unexpected action {:?}", other),
    }
}

#[test]
fn heartbeat_ack_marks_acknowledged() {
    let mut c = connection(None);
    c.heartbeat.acked = false;
    assert!(matches!(c.on_frame(frame(Some(11))), GatewayAction::Continue));
    assert!(c.heartbeat.acked);
}

#[test]
fn sequence_recorded_for_any_frame() {
    let mut c = connection(None);
    let mut f = frame(Some(0));
    f.seq = Some(31);
    c.on_frame(f);
    assert_eq!(c.heartbeat.last_seq, 31);
    let mut g = frame(None);
    g.seq = Some(32);
    assert!(matches!(c.on_frame(g), GatewayAction::Continue));
    assert_eq!(c.heartbeat.last_seq, 32);
    c.on_frame(frame(Some(11)));
    assert_eq!(c.heartbeat.last_seq, 32);
}

#[test]
fn ready_records_session_and_resume_url() {
    let mut c = connection(None);
    let mut f = frame(Some(0));
    f.event_name = Some("READY".to_string());
    f.session_id = Some("sess-1".to_string());
    f.resume_gateway_url = Some("wss://gateway-us-east1-b.discord.gg/".to_string());
    assert!(matches!(c.on_frame(f), GatewayAction::Continue));
    assert_eq!(c.session_id.as_deref(), Some("sess-1"));
    assert_eq!(
        c.resume_url.as_deref(),
        Some("wss://gateway-us-east1-b.discord.gg?v=10&encoding=json")
    );
}

#[test]
fn other_dispatch_changes_nothing() {
    let mut c = connection(None);
    let mut f = frame(Some(0));
    f.event_name = Some("MESSAGE_CREATE".to_string());
    f.session_id = Some("x".to_string());
    c.on_frame(f);
    assert_eq!(c.session_id, None);
    let mut g = frame(Some(0));
    g.event_name = None;
    g.session_id = Some("y".to_string());
    c.on_frame(g);
    assert_eq!(c.session_id, None);
}

#[test]
fn ready_without_fields_keeps_previous() {
    let mut c = connection(None);
    c.session_id = Some("old".to_string());
    let mut f = frame(Some(0));
    f.event_name = Some("READY".to_string());
    c.on_frame(f);
    assert_eq!(c.session_id.as_deref(), Some("old"));
    assert_eq!(c.resume_url, None);
}

#[test]
fn server_heartbeat_request_sends_heartbeat() {
    let mut c = connection(None);
    c.heartbeat.last_seq = 4;
    match c.on_frame(frame(Some(1))) {
        GatewayAction::Send(Payload::Heartbeat { seq }) => assert_eq!(seq, Some(4)),
        other => panic!("unexpected action {:?}", other),
    }
}

#[test]
fn reconnect_opcode_exits_with_current_session() {
    let mut c = connection(Some("older"));
    c.session_id = Some("s".to_string());
    c.resume_url = Some("u".to_string());
    match c.on_frame(frame(Some(7))) {
        GatewayAction::Exit(GatewayExit::Reconnect { new_session_id, new_resume_url }) => {
            assert_eq!(new_session_id.as_deref(), Some("s"));
            assert_eq!(new_resume_url.as_deref(), Some("u"));
        }
        other => panic!("unexpected action {:?}", other),
    }
}

#[test]
fn invalid_session_resumable_or_not() {
    let mut c = connection(None);
    let mut f = frame(Some(9));
    f.resumable = Some(true);
    assert!(matches!(c.on_frame(f), GatewayAction::Exit(GatewayExit::Reconnect { .. })));
    let mut g = frame(Some(9));
    g.resumable = Some(false);
    assert!(matches!(c.on_frame(g), GatewayAction::Exit(GatewayExit::InvalidSession)));
    assert!(matches!(c.on_frame(frame(Some(9))), GatewayAction::Exit(GatewayExit::InvalidSession)));
}

#[test]
fn socket_events_map_to_actions() {
    let mut c = connection(None);
    assert!(matches!(c.on_event(GatewayEvent::Close), GatewayAction::Exit(GatewayExit::Reconnect { .. })));
    assert!(matches!(c.on_event(GatewayEvent::StreamEnded), GatewayAction::Exit(GatewayExit::Reconnect { .. })));
    assert!(matches!(c.on_event(GatewayEvent::HeartbeatMissed), GatewayAction::Exit(GatewayExit::Reconnect { .. })));
    assert!(matches!(c.on_event(GatewayEvent::Unparsable), GatewayAction::Continue));
    assert!(matches!(c.on_event(GatewayEvent::Other), GatewayAction::Continue));
    match c.on_event(GatewayEvent::Ping(vec![1, 2, 3])) {
        GatewayAction::Pong(d) => assert_eq!(d, vec![1, 2, 3]),
        other => panic!("unexpected action {:?}", other),
    }
    assert!(matches!(c.on_frame(frame(Some(42))), GatewayAction::Continue));
}

#[test]
fn resume_url_trims_all_trailing_slashes() {
    assert_eq!(resume_url_from("wss://a.gg"), "wss://a.gg?v=10&encoding=json");
    assert_eq!(resume_url_from("wss://a.gg///"), "wss://a.gg?v=10&encoding=json");
    assert_eq!(resume_url_from(""), "?v=10&encoding=json");
    assert_eq!(resume_url_from("/"), "?v=10&encoding=json");
    assert_eq!(resume_url_from("wss://é.gg/"), "wss://é.gg?v=10&encoding=json");
}

#[test]
fn session_memory_reconnect_keeps_old_values() {
    let mut m = SessionMemory::new();
    assert_eq!(m.connection_url(), GATEWAY_URL);
    assert_eq!(m.session_to_resume(), None);
    let pause = m.apply_outcome(
        ConnectionOutcome::Exited(GatewayExit::Reconnect {
            new_session_id: Some("s1".to_string()),
            new_resume_url: Some("wss://r?v=10&encoding=json".to_string()),
        }),
        2500,
    );
    assert_eq!(pause, 2500);
    assert_eq!(m.connection_url(), "wss://r?v=10&encoding=json");
    assert_eq!(m.session_to_resume().as_deref(), Some("s1"));
    m.apply_outcome(
        ConnectionOutcome::Exited(GatewayExit::Reconnect { new_session_id: None, new_resume_url: None }),
        1000,
    );
    assert_eq!(m.session_to_resume().as_deref(), Some("s1"));
    assert_eq!(m.connection_url(), "wss://r?v=10&encoding=json");
}

#[test]
fn session_memory_invalid_session_starts_over() {
    let mut m = SessionMemory::new();
    m.session_id = Some("s".to_string());
    m.resume_url = Some("u".to_string());
    m.apply_outcome(ConnectionOutcome::Exited(GatewayExit::InvalidSession), 3000);
    assert_eq!(m.session_id, None);
    assert_eq!(m.connection_url(), GATEWAY_URL);
    assert_eq!(GATEWAY_URL, "wss://gateway.discord.gg/?v=10&encoding=json");
}

#[test]
fn session_memory_failure_waits_five_seconds() {
    let mut m = SessionMemory::new();
    m.session_id = Some("s".to_string());
    assert_eq!(m.apply_outcome(ConnectionOutcome::Failed, 1234), FAILURE_RETRY_DELAY_MS);
    assert_eq!(m.after_connection(ConnectionOutcome::Failed), 5000);
    assert_eq!(m.session_id.as_deref(), Some("s"));
}

#[test]
fn after_connection_draws_pause_between_one_and_five_seconds() {
    let mut m = SessionMemory::new();
    for _ in 0..100 {
        let p = m.after_connection(ConnectionOutcome::Exited(GatewayExit::InvalidSession));
        assert!((1000..=5000).contains(&p), "pause {}", p);
    }
}

#[test]
fn presence_updates_every_five_minutes() {
    assert_eq!(dscrd_status::gateway::PRESENCE_UPDATE_INTERVAL_SECS, 300);
}
