//! Tests for the helper-side validation of notification arguments and the
//! username check.

use dots_notifier::helper::{validate_notification_argument, validate_username};

#[test]
fn test_helper_binary_exists() {
    // The helper's checks are linked into the library and exercised below;
    // real delivery needs a session bus and is outside unit-test reach.
}

#[test]
fn test_validate_notification_argument() {
    // Valid arguments pass
    assert!(validate_notification_argument("Hello", 100).is_ok());
    assert!(validate_notification_argument("Hello world", 100).is_ok());
    assert!(validate_notification_argument("123", 100).is_ok());
    assert!(validate_notification_argument("Unicode: 你好", 100).is_ok());

    // Empty arguments fail
    assert!(validate_notification_argument("", 100).is_err());

    // Arguments that are too long fail
    assert!(validate_notification_argument("a".repeat(101).as_str(), 100).is_err());

    // Arguments with control characters fail (except \n and \t)
    assert!(validate_notification_argument("hello\x00world", 100).is_err());
    assert!(validate_notification_argument("hello\x1fworld", 100).is_err());

    // Newlines and tabs are allowed
    assert!(validate_notification_argument("hello\nworld", 100).is_ok());
    assert!(validate_notification_argument("hello\tworld", 100).is_ok());
}

#[test]
fn test_validate_notification_argument_messages() {
    assert_eq!(
        validate_notification_argument("", 100).unwrap_err(),
        "Argument cannot be empty"
    );
    assert_eq!(
        validate_notification_argument("a".repeat(101).as_str(), 100).unwrap_err(),
        "Argument too long (max 100 chars): 101"
    );
    assert_eq!(
        validate_notification_argument("hello\x00world", 100).unwrap_err(),
        "Argument contains invalid control characters"
    );
    // The DEL character counts as a control character too.
    assert!(validate_notification_argument("a\x7fb", 100).is_err());
}

#[test]
fn test_validate_username_rules() {
    assert!(validate_username("alice").is_ok());
    assert!(validate_username("test-user_123").is_ok());
    assert!(validate_username("a.b").is_ok());

    assert_eq!(validate_username("").unwrap_err(), "Invalid username length");
    assert_eq!(
        validate_username("a".repeat(33).as_str()).unwrap_err(),
        "Invalid username length"
    );
    assert_eq!(
        validate_username("bad user").unwrap_err(),
        "Username contains invalid characters"
    );
    assert_eq!(
        validate_username("semi;colon").unwrap_err(),
        "Username contains invalid characters"
    );
}
