//! Integration tests: the interaction between components and simulated
//! real-world scenarios.

use std::collections::HashSet;

use dots_notifier::dbus::is_graphical_session;
use dots_notifier::notification::{validate_notification_content, NotificationBuilder};
use dots_notifier::session::filter_graphical_sessions;
use dots_notifier::types::TargetUser;
use dots_notifier::NotifierService;

/// Test user collection and filtering.
#[test]
fn test_user_session_filtering() {
    let sessions: Vec<(String, bool, String)> = [
        ("x11", true, "session-1"),
        ("wayland", true, "session-2"),
        ("tty", true, "session-3"),
        ("x11", false, "session-4"),
        ("console", true, "session-5"),
    ]
    .iter()
    .map(|(t, a, s)| (t.to_string(), *a, s.to_string()))
    .collect();

    let graphical_sessions = filter_graphical_sessions(&sessions);

    assert_eq!(graphical_sessions.len(), 2);
    assert!(graphical_sessions.contains(&"session-1".to_string()));
    assert!(graphical_sessions.contains(&"session-2".to_string()));
}

/// Test TargetUser collection behavior.
#[test]
fn test_target_user_collection() {
    let mut users = HashSet::new();

    users.insert(TargetUser::new(1000, "alice".to_string()));
    users.insert(TargetUser::new(1001, "bob".to_string()));
    users.insert(TargetUser::new(1000, "alice".to_string())); // Duplicate

    assert_eq!(users.len(), 2); // Only 2 unique users
    assert!(users.contains(&TargetUser::new(1000, "alice".to_string())));
    assert!(users.contains(&TargetUser::new(1001, "bob".to_string())));
}

/// Test notification validation edge cases.
#[test]
fn test_notification_validation_boundaries() {
    // Exactly at the boundary
    let max_summary = "a".repeat(1000);
    let max_body = "b".repeat(5000);
    assert!(validate_notification_content(&max_summary, &max_body).is_ok());

    // Just over the boundary
    let over_summary = "a".repeat(1001);
    let over_body = "b".repeat(5001);
    assert!(validate_notification_content(&over_summary, "").is_err());
    assert!(validate_notification_content("a", &over_body).is_err());

    // Empty cases
    assert!(validate_notification_content("", "body").is_err());
    assert!(validate_notification_content("summary", "").is_ok());
}

/// Test NotificationBuilder fluent interface.
#[test]
fn test_notification_builder_integration() {
    let builder = NotificationBuilder::new("Test", "Content")
        .app_name("Test App")
        .icon("test-icon")
        .timeout(5000)
        .action("action1", "Action 1")
        .hint("urgency", "critical");

    // The actual sending needs a session bus; the builder itself is enough
    // to check here.
    assert!(format!("{:?}", builder).contains("Test"));
}

/// Test session type detection.
#[test]
fn test_session_type_detection_comprehensive() {
    // Valid graphical sessions
    assert!(is_graphical_session("x11"));
    assert!(is_graphical_session("wayland"));

    // Invalid sessions
    let invalid_sessions = [
        "tty",
        "console",
        "mir",
        "unknown",
        "",
        "x11_modified",
        "wayland_modified",
        " x11",
        "x11 ",
        "X11",
        "WAYLAND",
        "x11\n",
        "wayland\t",
    ];

    for session in &invalid_sessions {
        assert!(!is_graphical_session(session), "Session '{}' should not be graphical", session);
    }
}

/// Test NotifierService creation and basic interface.
#[test]
fn test_notifier_service_interface() {
    let service = NotifierService;

    // It implements Debug
    let debug_str = format!("{:?}", service);
    assert!(!debug_str.is_empty());
}

/// Stress test for user collections with many duplicates.
#[test]
fn test_large_user_collection() {
    let mut users = HashSet::new();

    // Many duplicate users
    for i in 0..1000 {
        users.insert(TargetUser::new(i % 10, format!("user{}", i % 10)));
    }

    // Only 10 unique users
    assert_eq!(users.len(), 10);
}

/// Test with unicode and special characters.
#[test]
fn test_unicode_handling() {
    let user = TargetUser::new(1000, "用户名".to_string());
    assert_eq!(user.username(), "用户名");
    assert_eq!(user.display_string(), "用户名(1000)");

    // Notification content with unicode
    assert!(validate_notification_content("🚀 Title", "Unicode content: 测试").is_ok());
}

/// Test error scenarios.
#[test]
fn test_error_scenarios() {
    // Various invalid inputs that should fail gracefully

    // Invalid notification content
    assert!(validate_notification_content("", "body").is_err());
    let too_long = "x".repeat(10000);
    assert!(validate_notification_content(&too_long, "").is_err());
    assert!(validate_notification_content("title", &too_long).is_err());
}

/// Performance test for session filtering.
#[test]
fn test_session_filtering_performance() {
    let sessions: Vec<(String, bool, String)> = (0..10000)
        .map(|i| {
            let session_type = match i % 4 {
                0 => "x11",
                1 => "wayland",
                2 => "tty",
                _ => "console",
            };
            let is_active = i % 2 == 0;
            let session_id = format!("session-{}", i);
            (session_type.to_string(), is_active, session_id)
        })
        .collect();

    let start = std::time::Instant::now();
    let filtered = filter_graphical_sessions(&sessions);
    let duration = start.elapsed();

    // Should complete quickly (under 10ms for 10k items)
    assert!(duration.as_millis() < 10);

    // Half active, half of those are graphical types
    assert_eq!(filtered.len(), 2500);
}

/// Test some basic properties on concrete values.
#[test]
fn test_basic_properties() {
    let user = TargetUser::new(1000, "test".to_string());
    assert_eq!(user.uid(), 1000);
    assert_eq!(user.username(), "test");
    assert_eq!(user, user.clone());

    // Session type consistency
    assert!(is_graphical_session("x11"));
    assert!(is_graphical_session("wayland"));
    assert!(!is_graphical_session("tty"));

    // Notification validation
    assert!(validate_notification_content("Valid", "Valid").is_ok());
    assert!(validate_notification_content("", "body").is_err());
}
