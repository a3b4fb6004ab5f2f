//! Tests for the bus constants and the session classifier.

use dots_notifier::dbus::{is_graphical_session, DBUS_INTERFACE_NAME, DBUS_PATH};

#[test]
fn test_constants() {
    assert_eq!(DBUS_INTERFACE_NAME, "me.section.Notifier");
    assert_eq!(DBUS_PATH, "/me/section/Notifier");
}

#[test]
fn test_is_graphical_session() {
    // Valid graphical session types
    assert!(is_graphical_session("x11"));
    assert!(is_graphical_session("wayland"));

    // Invalid session types
    assert!(!is_graphical_session("tty"));
    assert!(!is_graphical_session("console"));
    assert!(!is_graphical_session(""));
    assert!(!is_graphical_session("unknown"));
    assert!(!is_graphical_session("mir"));
}

#[test]
fn test_is_graphical_session_case_sensitivity() {
    assert!(!is_graphical_session("X11"));
    assert!(!is_graphical_session("WAYLAND"));
    assert!(!is_graphical_session("Wayland"));
}

#[test]
fn test_graphical_session_edge_cases() {
    assert!(!is_graphical_session("x11_extra"));
    assert!(!is_graphical_session("wayland_extra"));
    assert!(!is_graphical_session("_x11"));
    assert!(!is_graphical_session("_wayland"));
    assert!(!is_graphical_session("x11\n"));
    assert!(!is_graphical_session("wayland\t"));
    assert!(!is_graphical_session(" x11"));
    assert!(!is_graphical_session(" wayland"));
}
