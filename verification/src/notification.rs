//! Building notifications and deriving the per-user session bus address.
//!
//! The connection to a user's session bus and the remote notification call
//! are made outside the library; this module pins down every value that
//! call is made with: the notification's parameters and the bus address
//! derived from the recipient's user id.

use vstd::prelude::*;
use vstd::string::*;

use crate::text::dec_rep;

verus! {

/// The per-user session bus address: a filesystem-path address rooted at
/// the user's runtime directory.
pub open spec fn spec_session_bus_address(uid: int) -> Seq<char> {
    "unix:path=/run/user/"@ + dec_rep(uid) + "/bus"@
}

/// Derive the session bus address of the user with the given id.
pub fn session_bus_address(uid: u32) -> (r: String)
    ensures
        r@ == spec_session_bus_address(uid as int),
{
    let mut out = String::from_str("unix:path=/run/user/");
    crate::text::append_dec(&mut out, uid as u64);
    out.append("/bus");
    proof {
        assert(out@ =~= spec_session_bus_address(uid as int));
    }
    out
}

/// The mapping a sequence of key/value pairs denotes when read left to
/// right, a later binding of a key shadowing an earlier one.
pub open spec fn pairs_to_map(pairs: Seq<(String, String)>) -> Map<Seq<char>, Seq<char>>
    decreases pairs.len(),
{
    if pairs.len() == 0 {
        Map::empty()
    } else {
        pairs_to_map(pairs.drop_last()).insert(pairs.last().0@, pairs.last().1@)
    }
}

/// A notification with every parameter of the remote notification call:
/// built with sensible defaults, then customized field by field.
#[derive(Debug)]
pub struct NotificationBuilder {
    /// Name the notification is attributed to.
    pub app_name: String,
    /// Id of a previous notification to replace, 0 for none.
    pub replaces_id: u32,
    /// Icon name shown beside the notification.
    pub app_icon: String,
    /// The notification title.
    pub summary: String,
    /// The notification body text.
    pub body: String,
    /// Action keys and labels, alternating.
    pub actions: Vec<String>,
    /// Hint keys and values; a later binding of a key shadows an earlier
    /// one.
    pub hints: Vec<(String, String)>,
    /// Expiry timeout in milliseconds, -1 for the renderer's default.
    pub expire_timeout: i32,
}

impl NotificationBuilder {
    /// The mapping the hint pairs denote.
    pub open spec fn hints_map(&self) -> Map<Seq<char>, Seq<char>> {
        pairs_to_map(self.hints@)
    }

    /// Create a builder for a notification with the given title and body,
    /// the default application name and icon, no actions, no hints, and no
    /// expiry.
    pub fn new(summary: &str, body: &str) -> (r: Self)
        ensures
            r.app_name@ == "System Notifier"@,
            r.replaces_id == 0,
            r.app_icon@ == "dialog-information-symbolic"@,
            r.summary@ == summary@,
            r.body@ == body@,
            r.actions@ == Seq::<String>::empty(),
            r.hints@ == Seq::<(String, String)>::empty(),
            r.hints_map() == Map::<Seq<char>, Seq<char>>::empty(),
            r.expire_timeout == -1i32,
    {
        NotificationBuilder {
            app_name: String::from_str("System Notifier"),
            replaces_id: 0,
            app_icon: String::from_str("dialog-information-symbolic"),
            summary: String::from_str(summary),
            body: String::from_str(body),
            actions: Vec::new(),
            hints: Vec::new(),
            expire_timeout: -1,
        }
    }

    /// Replace the application name.
    pub fn app_name(self, app_name: &str) -> (r: Self)
        ensures
            r == (Self { app_name: r.app_name, ..self }),
            r.app_name@ == app_name@,
    {
        Self { app_name: String::from_str(app_name), ..self }
    }

    /// Replace the icon name.
    pub fn icon(self, icon: &str) -> (r: Self)
        ensures
            r == (Self { app_icon: r.app_icon, ..self }),
            r.app_icon@ == icon@,
    {
        Self { app_icon: String::from_str(icon), ..self }
    }

    /// Replace the expiry timeout.
    pub fn timeout(self, timeout: i32) -> (r: Self)
        ensures
            r == (Self { expire_timeout: timeout, ..self }),
    {
        Self { expire_timeout: timeout, ..self }
    }

    /// Append one action as its key and its label.
    pub fn action(self, key: &str, label: &str) -> (r: Self)
        ensures
            r == (Self { actions: r.actions, ..self }),
            r.actions@.len() == self.actions@.len() + 2,
            r.actions.deep_view() == self.actions.deep_view() + seq![key@, label@],
    {
        let mut actions = self.actions;
        actions.push(String::from_str(key));
        actions.push(String::from_str(label));
        let r = Self { actions, ..self };
        proof {
            assert(r.actions.deep_view() =~= self.actions.deep_view() + seq![key@, label@]);
        }
        r
    }

    /// Add one hint; a hint under the same key given earlier is shadowed.
    pub fn hint(self, key: &str, value: &str) -> (r: Self)
        ensures
            r == (Self { hints: r.hints, ..self }),
            r.hints_map() == self.hints_map().insert(key@, value@),
    {
        let mut hints = self.hints;
        hints.push((String::from_str(key), String::from_str(value)));
        let r = Self { hints, ..self };
        proof {
            assert(r.hints@.drop_last() =~= self.hints@);
        }
        r
    }

    /// Look up the value the hints bind a key to; the last binding wins.
    pub fn hint_value(&self, key: &str) -> (r: Option<&String>)
        ensures
            match r {
                Some(v) => self.hints_map().contains_key(key@) && self.hints_map()[key@] == v@,
                None => !self.hints_map().contains_key(key@),
            },
    {
        let ghost all = self.hints@;
        let mut i: usize = self.hints.len();
        proof {
            assert(all.take(all.len() as int) =~= all);
        }
        while i > 0
            invariant
                all == self.hints@,
                i <= all.len(),
                pairs_to_map(all).contains_key(key@) == pairs_to_map(all.take(i as int)).contains_key(key@),
                pairs_to_map(all).contains_key(key@) ==> pairs_to_map(all)[key@] == pairs_to_map(
                    all.take(i as int),
                )[key@],
            decreases i,
        {
            let ghost longer = all.take(i as int);
            let ghost shorter = all.take(i as int - 1);
            proof {
                assert(longer.drop_last() =~= shorter);
                assert(longer.last() == all[i as int - 1]);
            }
            if crate::text::str_eq(self.hints[i - 1].0.as_str(), key) {
                return Some(&self.hints[i - 1].1);
            }
            i = i - 1;
        }
        proof {
            assert(all.take(0) =~= Seq::<(String, String)>::empty());
        }
        None
    }
}

/// Notification content is acceptable when the summary is non-empty and at
/// most 1000 characters and the body is at most 5000 characters.
pub open spec fn acceptable_content(summary: Seq<char>, body: Seq<char>) -> bool {
    &&& summary.len() > 0
    &&& summary.len() <= 1000
    &&& body.len() <= 5000
}

/// The diagnostic reported for unacceptable notification content.
pub open spec fn content_error(summary: Seq<char>, body: Seq<char>) -> Seq<char> {
    if summary.len() == 0 {
        "Notification summary cannot be empty"@
    } else if summary.len() > 1000 {
        "Notification summary too long (max 1000 characters)"@
    } else {
        "Notification body too long (max 5000 characters)"@
    }
}

/// Check notification content against the renderer-friendly size limits.
pub fn validate_notification_content(summary: &str, body: &str) -> (r: Result<(), String>)
    ensures
        r is Ok <==> acceptable_content(summary@, body@),
        r is Err ==> r->Err_0@ == content_error(summary@, body@),
{
    let summary_len = summary.unicode_len();
    if summary_len == 0 {
        return Err(String::from_str("Notification summary cannot be empty"));
    }
    if summary_len > 1000 {
        return Err(String::from_str("Notification summary too long (max 1000 characters)"));
    }
    if body.unicode_len() > 5000 {
        return Err(String::from_str("Notification body too long (max 5000 characters)"));
    }
    Ok(())
}

} // verus!
