use dscrd_status::config::{normalize_status, resolve_token, ConfigError};

#[test]
fn token_must_be_present_and_non_empty() {
    assert_eq!(resolve_token(Some("abc".to_string())).unwrap(), "abc");
    assert!(matches!(resolve_token(Some(String::new())), Err(ConfigError::MissingToken)));
    assert!(matches!(resolve_token(None), Err(ConfigError::MissingToken)));
}

#[test]
fn status_is_lowercased_and_checked() {
    assert_eq!(normalize_status("online").unwrap(), "online");
    assert_eq!(normalize_status("IDLE").unwrap(), "idle");
    assert_eq!(normalize_status("Dnd").unwrap(), "dnd");
    assert_eq!(normalize_status("invisible").unwrap(), "invisible");
    match normalize_status("AWAY") {
        Err(ConfigError::InvalidStatus { status }) => assert_eq!(status, "away"),
        other => panic!("unexpected result {:?}", other),
    }
    assert!(normalize_status("").is_err());
}
