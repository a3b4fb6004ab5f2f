//! Tests for session filtering and discovery.

use dots_notifier::session::{collect_active_graphical_users, filter_graphical_sessions, SessionRecord};
use dots_notifier::types::TargetUser;

fn listed(entries: &[(&str, bool, &str)]) -> Vec<(String, bool, String)> {
    entries.iter().map(|(t, a, s)| (t.to_string(), *a, s.to_string())).collect()
}

#[test]
fn test_filter_graphical_sessions() {
    let sessions = listed(&[
        ("x11", true, "session-1"),
        ("wayland", true, "session-2"),
        ("tty", true, "session-3"),
        ("x11", false, "session-4"),
        ("wayland", false, "session-5"),
        ("console", true, "session-6"),
    ]);

    let filtered = filter_graphical_sessions(&sessions);
    assert_eq!(filtered.len(), 2);
    assert!(filtered.contains(&"session-1".to_string()));
    assert!(filtered.contains(&"session-2".to_string()));
    assert!(!filtered.contains(&"session-3".to_string()));
    assert!(!filtered.contains(&"session-4".to_string()));
    assert!(!filtered.contains(&"session-5".to_string()));
    assert!(!filtered.contains(&"session-6".to_string()));
}

#[test]
fn test_filter_graphical_sessions_empty() {
    let sessions: Vec<(String, bool, String)> = vec![];
    let filtered = filter_graphical_sessions(&sessions);
    assert!(filtered.is_empty());
}

#[test]
fn test_filter_graphical_sessions_no_active() {
    let sessions = listed(&[("x11", false, "session-1"), ("wayland", false, "session-2")]);

    let filtered = filter_graphical_sessions(&sessions);
    assert!(filtered.is_empty());
}

#[test]
fn test_filter_graphical_sessions_no_graphical() {
    let sessions = listed(&[("tty", true, "session-1"), ("console", true, "session-2")]);

    let filtered = filter_graphical_sessions(&sessions);
    assert!(filtered.is_empty());
}

#[test]
fn test_filter_graphical_sessions_mixed() {
    let sessions = listed(&[
        ("x11", true, "session-1"),
        ("tty", true, "session-2"),
        ("wayland", false, "session-3"),
        ("console", false, "session-4"),
        ("x11", false, "session-5"),
        ("wayland", true, "session-6"),
    ]);

    let filtered = filter_graphical_sessions(&sessions);
    assert_eq!(filtered.len(), 2);
    assert!(filtered.contains(&"session-1".to_string()));
    assert!(filtered.contains(&"session-6".to_string()));
}

fn record(id: &str, uid: u32, username: &str, session_type: &str, active: bool) -> SessionRecord {
    SessionRecord {
        id: id.to_string(),
        uid,
        username: username.to_string(),
        session_type: session_type.to_string(),
        active,
    }
}

#[test]
fn test_discovery_scenario() {
    // alice has two active graphical sessions, bob's is non-graphical and
    // carol's is inactive: only alice is discovered, once.
    let sessions = vec![
        record("s1", 1000, "alice", "x11", true),
        record("s2", 1000, "alice", "wayland", true),
        record("s3", 2000, "bob", "tty", true),
        record("s4", 3000, "carol", "x11", false),
    ];

    let users = collect_active_graphical_users(&sessions);
    assert_eq!(users.len(), 1);
    assert!(users.contains(&TargetUser::new(1000, "alice".to_string())));
    assert!(!users.contains(&TargetUser::new(2000, "bob".to_string())));
    assert!(!users.contains(&TargetUser::new(3000, "carol".to_string())));
}

#[test]
fn test_discovery_distinct_identities() {
    // Five sessions, two distinct active-and-graphical identities.
    let sessions = vec![
        record("s1", 1000, "alice", "x11", true),
        record("s2", 1001, "bob", "wayland", true),
        record("s3", 1000, "alice", "wayland", true),
        record("s4", 1002, "carol", "tty", true),
        record("s5", 1001, "bob", "x11", true),
    ];

    let users = collect_active_graphical_users(&sessions);
    assert_eq!(users.len(), 2);
    assert!(users.contains(&TargetUser::new(1000, "alice".to_string())));
    assert!(users.contains(&TargetUser::new(1001, "bob".to_string())));
}

#[test]
fn test_discovery_order_does_not_matter() {
    let forward = vec![
        record("s1", 1000, "alice", "x11", true),
        record("s2", 1001, "bob", "wayland", true),
        record("s3", 2000, "carol", "tty", true),
    ];
    let mut backward = forward.clone();
    backward.reverse();

    let a = collect_active_graphical_users(&forward);
    let b = collect_active_graphical_users(&backward);
    assert_eq!(a.len(), b.len());
    assert!(a.contains(&TargetUser::new(1000, "alice".to_string())));
    assert!(b.contains(&TargetUser::new(1000, "alice".to_string())));
    assert!(a.contains(&TargetUser::new(1001, "bob".to_string())));
    assert!(b.contains(&TargetUser::new(1001, "bob".to_string())));
}

#[test]
fn test_discovery_empty() {
    let sessions: Vec<SessionRecord> = vec![];
    let users = collect_active_graphical_users(&sessions);
    assert!(users.is_empty());
    assert_eq!(users.len(), 0);
}
