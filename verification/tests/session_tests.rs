use hackatime_client::errors::ClientError;
use hackatime_client::presence::DiscordActivity;
use hackatime_client::session::{
    is_null_heartbeat_body, Heartbeat, PresenceAction, SessionState, SESSION_RECENCY_SECS,
};

fn hb(id: u64, timestamp: i64) -> Heartbeat {
    Heartbeat {
        id,
        project: Some(String::from("proj")),
        editor: Some(String::from("vim")),
        language: Some(String::from("Rust")),
        entity: Some(String::from("src/main.rs")),
        timestamp,
    }
}

fn assert_inactive(s: &SessionState) {
    assert!(!s.is_active);
    assert!(s.start_time.is_none());
    assert!(s.last_heartbeat_id.is_none());
    assert_eq!(s.heartbeat_count, 0);
    assert!(s.project.is_none());
    assert!(s.editor.is_none());
    assert!(s.language.is_none());
    assert!(s.entity.is_none());
}

#[test]
fn recency_threshold_is_two_minutes() {
    assert_eq!(SESSION_RECENCY_SECS, 120);
}

#[test]
fn repeated_heartbeat_then_staleness_ends_session() {
    // One heartbeat observed over three polls: start, fresh duplicate,
    // stale duplicate.
    let mut s = SessionState::new();

    let a1 = s.apply_poll(true, &Some(hb(1, 0)), 0).unwrap();
    assert!(s.is_active);
    assert_eq!(s.start_time, Some(0));
    assert_eq!(s.heartbeat_count, 1);
    match a1 {
        PresenceAction::Publish(a) => assert_eq!(a.start_time, Some(0)),
        other => panic!("expected publish, got {:?}", other),
    }

    let a2 = s.apply_poll(true, &Some(hb(1, 0)), 30).unwrap();
    assert!(s.is_active);
    assert_eq!(s.heartbeat_count, 1);
    assert!(matches!(a2, PresenceAction::Keep));

    let a3 = s.apply_poll(true, &Some(hb(1, 0)), 200).unwrap();
    assert_inactive(&s);
    assert!(matches!(a3, PresenceAction::Clear));
}

#[test]
fn new_heartbeat_continues_session_and_keeps_start_time() {
    let mut s = SessionState::new();
    s.apply_poll(true, &Some(hb(1, 0)), 10).unwrap();
    assert_eq!(s.start_time, Some(0));

    let mut h2 = hb(2, 40);
    h2.project = Some(String::from("other-proj"));
    h2.language = Some(String::from("Go"));
    let action = s.apply_poll(true, &Some(h2), 50).unwrap();

    assert!(s.is_active);
    assert_eq!(s.start_time, Some(0), "start time is the original");
    assert_eq!(s.heartbeat_count, 2);
    assert_eq!(s.last_heartbeat_id, Some(2));
    assert_eq!(s.project.as_deref(), Some("other-proj"));
    assert_eq!(s.language.as_deref(), Some("Go"));
    match action {
        PresenceAction::Publish(a) => {
            assert_eq!(a.start_time, Some(0), "presence keeps the original start");
            assert_eq!(a.project_name, "other-proj");
        },
        other => panic!("expected publish, got {:?}", other),
    }
}

#[test]
fn absent_heartbeat_ends_active_session() {
    let mut s = SessionState::new();
    s.apply_poll(true, &Some(hb(1, 0)), 0).unwrap();
    let action = s.apply_poll(true, &None, 30).unwrap();
    assert_inactive(&s);
    assert!(matches!(action, PresenceAction::Clear));
}

#[test]
fn absent_heartbeat_on_inactive_session_is_noop() {
    let mut s = SessionState::new();
    let action = s.apply_poll(true, &None, 30).unwrap();
    assert_inactive(&s);
    assert!(matches!(action, PresenceAction::Keep));
}

#[test]
fn stale_heartbeat_never_starts_a_session() {
    let mut s = SessionState::new();
    let action = s.apply_poll(true, &Some(hb(1, 0)), 500).unwrap();
    assert_inactive(&s);
    assert!(matches!(action, PresenceAction::Keep));
}

#[test]
fn age_exactly_at_threshold_counts_as_stale() {
    let mut s = SessionState::new();
    s.apply_poll(true, &Some(hb(1, 0)), 0).unwrap();
    let action = s
        .apply_poll(true, &Some(hb(2, 0)), SESSION_RECENCY_SECS)
        .unwrap();
    assert_inactive(&s);
    assert!(matches!(action, PresenceAction::Clear));
}

#[test]
fn unauthenticated_poll_changes_nothing() {
    let mut s = SessionState::new();
    s.apply_poll(true, &Some(hb(1, 0)), 0).unwrap();
    let before_count = s.heartbeat_count;
    let r = s.apply_poll(false, &Some(hb(2, 5)), 10);
    assert!(matches!(r, Err(ClientError::AuthenticationRequired)));
    assert!(s.is_active);
    assert_eq!(s.heartbeat_count, before_count);
}

#[test]
fn missing_project_publishes_placeholder_name() {
    let mut s = SessionState::new();
    let mut h = hb(1, 0);
    h.project = None;
    let action = s.apply_poll(true, &Some(h), 0).unwrap();
    match action {
        PresenceAction::Publish(DiscordActivity { project_name, .. }) => {
            assert_eq!(project_name, "Unknown Project")
        },
        other => panic!("expected publish, got {:?}", other),
    }
}

#[test]
fn session_duration_counts_from_start() {
    let mut s = SessionState::new();
    assert_eq!(s.session_duration_at(100), 0);
    s.apply_poll(true, &Some(hb(1, 40)), 50).unwrap();
    assert_eq!(s.session_duration_at(100), 60);
    s.apply_poll(true, &None, 120).unwrap();
    assert_eq!(s.session_duration_at(120), 0);
}

#[test]
fn null_heartbeat_bodies_are_recognized() {
    assert!(is_null_heartbeat_body("null"));
    assert!(is_null_heartbeat_body("  null\n"));
    assert!(is_null_heartbeat_body(""));
    assert!(is_null_heartbeat_body("   "));
    assert!(!is_null_heartbeat_body("{\"id\": 1}"));
}
