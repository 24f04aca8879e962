use dscrd_status::fingerprint::{fingerprint_for_profile, select_fingerprint, ua_profile, UA_POOL_LEN};
use dscrd_status::heartbeat::{heartbeat_delay_ms, next_heartbeat_delay_ms, HeartbeatState, HeartbeatTick};
use dscrd_status::payload::{
    build_identify_payload, build_resume_payload, presence_update_payload, wire_seq, Payload,
    IDENTIFY_CAPABILITIES, OP_HEARTBEAT, OP_IDENTIFY, OP_PRESENCE_UPDATE, OP_RESUME,
};

#[test]
fn new_heartbeat_state_has_no_sequence_and_is_acked() {
    let s = HeartbeatState::new();
    assert_eq!(s.last_seq, -1);
    assert!(s.acked);
    let d = HeartbeatState::default();
    assert_eq!(d.last_seq, -1);
    assert!(d.acked);
}

#[test]
fn heartbeat_payload_is_null_before_any_sequence() {
    let s = HeartbeatState::new();
    match s.heartbeat_payload() {
        Payload::Heartbeat { seq } => assert_eq!(seq, None),
        other => panic!("unexpected payload {:?}", other),
    }
}

#[test]
fn heartbeat_payload_carries_last_sequence() {
    let mut s = HeartbeatState::new();
    s.record_sequence(42);
    match s.heartbeat_payload() {
        Payload::Heartbeat { seq } => assert_eq!(seq, Some(42)),
        other => panic!("unexpected payload {:?}", other),
    }
    s.record_sequence(0);
    match s.heartbeat_payload() {
        Payload::Heartbeat { seq } => assert_eq!(seq, Some(0)),
        other => panic!("unexpected payload {:?}", other),
    }
}

#[test]
fn unacknowledged_heartbeat_triggers_reconnect() {
    let mut s = HeartbeatState::new();
    s.record_sequence(7);
    match s.tick() {
        HeartbeatTick::Beat(Payload::Heartbeat { seq }) => assert_eq!(seq, Some(7)),
        _ => panic!("first tick must beat"),
    }
    assert!(!s.acked);
    assert!(matches!(s.tick(), HeartbeatTick::Missed));
}

#[test]
fn acknowledged_heartbeat_keeps_beating() {
    let mut s = HeartbeatState::new();
    assert!(matches!(s.tick(), HeartbeatTick::Beat(_)));
    s.record_ack();
    assert!(s.acked);
    assert!(matches!(s.tick(), HeartbeatTick::Beat(_)));
}

#[test]
fn take_ack_swaps_flag() {
    let mut s = HeartbeatState::new();
    assert!(s.take_ack());
    assert!(!s.take_ack());
}

#[test]
fn heartbeat_delay_formula() {
    assert_eq!(heartbeat_delay_ms(41250, 0), 41250);
    assert_eq!(heartbeat_delay_ms(41250, -500), 40750);
    assert_eq!(heartbeat_delay_ms(41250, 500), 41750);
    assert_eq!(heartbeat_delay_ms(1200, -500), 1000);
    assert_eq!(heartbeat_delay_ms(0, 0), 1000);
    assert_eq!(heartbeat_delay_ms(u64::MAX, 500), 1000);
}

#[test]
fn next_heartbeat_delay_stays_within_jitter() {
    for _ in 0..200 {
        let d = next_heartbeat_delay_ms(41250);
        assert!((40750..=41750).contains(&d), "delay {}", d);
    }
    for _ in 0..50 {
        assert_eq!(next_heartbeat_delay_ms(10), 1000);
    }
}

#[test]
fn wire_seq_maps_negative_to_null() {
    assert_eq!(wire_seq(-1), None);
    assert_eq!(wire_seq(5), Some(5));
}

#[test]
fn presence_update_payload_keeps_status() {
    let p = presence_update_payload("idle");
    assert_eq!(p.opcode(), OP_PRESENCE_UPDATE);
    match p {
        Payload::PresenceUpdate { status } => assert_eq!(status, "idle"),
        other => panic!("unexpected payload {:?}", other),
    }
}

#[test]
fn identify_payload_fields() {
    let fp = fingerprint_for_profile(0, 1234);
    let p = build_identify_payload("tok", "dnd", &fp);
    assert_eq!(p.opcode(), OP_IDENTIFY);
    match p {
        Payload::Identify(i) => {
            assert_eq!(i.token, "tok");
            assert_eq!(i.status, "dnd");
            assert_eq!(i.capabilities, IDENTIFY_CAPABILITIES);
            assert_eq!(i.capabilities, 8189);
            assert_eq!(i.since, 0);
            assert!(!i.afk);
            assert!(!i.compress);
            assert_eq!(i.properties.client_build_number, 1234);
            assert_eq!(i.properties.os, "Windows");
            assert_eq!(i.client_state.highest_last_message_id, "0");
            assert_eq!(i.client_state.read_state_version, 0);
            assert_eq!(i.client_state.user_guild_settings_version, -1);
            assert_eq!(i.client_state.user_settings_version, -1);
        }
        other => panic!("unexpected payload {:?}", other),
    }
}

#[test]
fn resume_payload_fields() {
    let p = build_resume_payload("tok", "sess", -1);
    assert_eq!(p.opcode(), OP_RESUME);
    match p {
        Payload::Resume { token, session_id, seq } => {
            assert_eq!(token, "tok");
            assert_eq!(session_id, "sess");
            assert_eq!(seq, None);
        }
        other => panic!("unexpected payload {:?}", other),
    }
    match build_resume_payload("t", "s", 99) {
        Payload::Resume { seq, .. } => assert_eq!(seq, Some(99)),
        other => panic!("unexpected payload {:?}", other),
    }
    assert_eq!(HeartbeatState::new().heartbeat_payload().opcode(), OP_HEARTBEAT);
}

#[test]
fn profile_pool_contents() {
    assert_eq!(UA_POOL_LEN, 6);
    let p = ua_profile(2);
    assert_eq!(p.os, "Mac OS X");
    assert_eq!(p.os_version, "10.15.7");
    assert_eq!(p.browser_version, "122.0.0.0");
    let l = ua_profile(5);
    assert_eq!(l.os, "Linux");
    assert_eq!(l.os_version, "");
    assert!(l.user_agent.contains("Chrome/123.0.0.0"));
}

#[test]
fn fingerprint_for_profile_fields() {
    let fp = fingerprint_for_profile(3, 308796);
    assert_eq!(fp.os, "Mac OS X");
    assert_eq!(fp.browser, "Chrome");
    assert_eq!(fp.device, "");
    assert_eq!(fp.system_locale, "en-US");
    assert_eq!(fp.browser_version, "123.0.0.0");
    assert_eq!(fp.os_version, "10.15.7");
    assert_eq!(fp.release_channel, "stable");
    assert_eq!(fp.referrer, "");
    assert_eq!(fp.client_build_number, 308796);
    assert_eq!(fp.client_event_source, None);
    assert_eq!(
        fp.browser_user_agent,
        "Mozilla/5.0 (Macintosh; Intel Mac OS X 10_15_7) AppleWebKit/537.36 (KHTML, like Gecko) Chrome/123.0.0.0 Safari/537.36"
    );
}

#[test]
fn select_fingerprint_uses_a_pool_profile() {
    let mut seen_oses = std::collections::BTreeSet::new();
    for _ in 0..300 {
        let fp = select_fingerprint(777);
        assert_eq!(fp.client_build_number, 777);
        assert_eq!(fp.browser, "Chrome");
        let matching = (0..UA_POOL_LEN)
            .map(|i| fingerprint_for_profile(i, 777))
            .any(|p| p.browser_user_agent == fp.browser_user_agent && p.os == fp.os);
        assert!(matching);
        seen_oses.insert(fp.os.clone());
    }
    assert!(seen_oses.len() > 1);
}
