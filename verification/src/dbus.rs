//! Bus-facing constants and the session classifier.
//!
//! The proxy plumbing that talks to the system bus lives outside the
//! library; this module holds the names the service is reachable under and
//! the policy deciding which session types count as graphical.

use vstd::prelude::*;

use crate::text::str_eq;

verus! {

/// Bus name the notifier service is reachable under.
pub const DBUS_INTERFACE_NAME: &'static str = "me.section.Notifier";

/// Object path the notifier service is served at.
pub const DBUS_PATH: &'static str = "/me/section/Notifier";

/// A session type counts as graphical exactly when it is the precise,
/// case-sensitive string `x11` or `wayland`; no trimming or case folding is
/// applied.
pub open spec fn spec_is_graphical(session_type: Seq<char>) -> bool {
    session_type == "x11"@ || session_type == "wayland"@
}

/// Decide whether a session type string names a graphical session.
pub fn is_graphical_session(session_type: &str) -> (r: bool)
    ensures
        r == spec_is_graphical(session_type@),
{
    str_eq(session_type, "x11") || str_eq(session_type, "wayland")
}

} // verus!
