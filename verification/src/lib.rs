//! Broadcast desktop notifications to every active graphical login session.
//!
//! The library holds the decision core of a system-level notification
//! broadcaster: classifying login sessions, collapsing them into a
//! deduplicated set of recipients, validating externally influenced strings
//! before they become process arguments, building the exact argument lists
//! and bus addresses used for delivery, and aggregating the outcome of a
//! best-effort fan-out. All remote calls (message bus, process launch) are
//! made by a thin unverified shell around this crate.

pub mod cli;
pub mod dbus;
pub mod helper;
pub mod notification;
pub mod session;
pub mod text;
pub mod types;

use vstd::prelude::*;
use vstd::string::*;

use crate::helper::{acceptable_argument, argument_error, validate_notification_argument};
use crate::text::dec_rep;
use crate::types::{TargetUser, UserSet};

verus! {

/// A shell metacharacter that could change the meaning of a process
/// argument: rejected wholesale rather than escaped.
pub open spec fn is_forbidden_char(c: char) -> bool {
    ||| c == '&'
    ||| c == '|'
    ||| c == ';'
    ||| c == '`'
    ||| c == '$'
    ||| c == '('
    ||| c == ')'
    ||| c == '{'
    ||| c == '}'
    ||| c == '['
    ||| c == ']'
    ||| c == '<'
    ||| c == '>'
    ||| c == '\\'
    ||| c == '\n'
    ||| c == '\r'
    ||| c == '\t'
}

/// Decide whether one character is a forbidden shell metacharacter.
pub fn char_is_forbidden(c: char) -> (r: bool)
    ensures
        r == is_forbidden_char(c),
{
    c == '&' || c == '|' || c == ';' || c == '`' || c == '$' || c == '(' || c == ')' || c == '{'
        || c == '}' || c == '[' || c == ']' || c == '<' || c == '>' || c == '\\' || c == '\n'
        || c == '\r' || c == '\t'
}

/// A string is safe to pass as a process argument when it is non-empty,
/// holds no forbidden character and does not begin with a dash.
pub open spec fn safe_argument(s: Seq<char>) -> bool {
    &&& s.len() > 0
    &&& forall|i: int| 0 <= i < s.len() ==> !is_forbidden_char(s[i])
    &&& s[0] != '-'
}

/// The diagnostic reported for an unsafe process argument.
pub open spec fn safe_argument_error(s: Seq<char>) -> Seq<char> {
    if exists|i: int| 0 <= i < s.len() && is_forbidden_char(s[i]) {
        "Argument contains dangerous characters: "@ + s
    } else if s.len() > 0 && s[0] == '-' {
        "Argument cannot start with dash: "@ + s
    } else {
        "Argument cannot be empty"@
    }
}

/// Check that a string is safe to use as a process argument, guarding
/// against command injection: no shell metacharacters, no leading dash
/// that a launched program could read as a flag, and nothing empty.
pub fn validate_safe_argument(arg: &str) -> (r: Result<(), String>)
    ensures
        r is Ok <==> safe_argument(arg@),
        r is Err ==> r->Err_0@ == safe_argument_error(arg@),
{
    let n = arg.unicode_len();
    let mut i: usize = 0;
    while i < n
        invariant
            n == arg@.len(),
            i <= n,
            forall|j: int| 0 <= j < i ==> !is_forbidden_char(arg@[j]),
        decreases n - i,
    {
        if char_is_forbidden(arg.get_char(i)) {
            let mut m = String::from_str("Argument contains dangerous characters: ");
            m.append(arg);
            return Err(m);
        }
        i = i + 1;
    }
    if n > 0 && arg.get_char(0) == '-' {
        let mut m = String::from_str("Argument cannot start with dash: ");
        m.append(arg);
        return Err(m);
    }
    if n == 0 {
        return Err(String::from_str("Argument cannot be empty"));
    }
    Ok(())
}

/// The argument lists for delivering one notification through the helper
/// executable in the recipient's own security context: a primary launcher
/// invocation and a fallback used only when the primary cannot start.
#[derive(Debug)]
pub struct HelperInvocation {
    /// The primary launcher command line, program name first.
    pub primary: Vec<String>,
    /// The fallback launcher command line, program name first.
    pub fallback: Vec<String>,
}

/// The primary launcher command line: run the helper as the recipient via
/// the service manager, with the user id doubling as the group id and the
/// account name placed in the environment.
pub open spec fn primary_argv(
    uid: int,
    username: Seq<char>,
    title: Seq<char>,
    body: Seq<char>,
) -> Seq<Seq<char>> {
    seq![
        "systemd-run"@,
        "--user"@,
        "--uid"@,
        dec_rep(uid),
        "--gid"@,
        dec_rep(uid),
        "--setenv=USER"@,
        username,
        "--setenv=USERNAME"@,
        username,
        "dots-notifier-helper"@,
        title,
        body,
    ]
}

/// The fallback launcher command line: run the helper as the recipient via
/// a superuser user-switch.
pub open spec fn fallback_argv(username: Seq<char>, title: Seq<char>, body: Seq<char>) -> Seq<
    Seq<char>,
> {
    seq!["sudo"@, "-u"@, username, "dots-notifier-helper"@, title, body]
}

/// Build the helper invocation for one recipient, after passing every
/// externally influenced string through the injection guard; the title and
/// body must also be non-empty and within their caps of 100 and 1000
/// characters. Rejection aborts delivery for this recipient before any
/// process is touched; nothing is truncated or escaped.
pub fn build_helper_invocation(user: &TargetUser, title: &str, body: &str) -> (r: Result<
    HelperInvocation,
    String,
>)
    ensures
        r is Ok <==> safe_argument(title@) && safe_argument(body@) && safe_argument(
            user.username@,
        ) && acceptable_argument(title@, 100) && acceptable_argument(body@, 1000),
        r is Ok ==> r->Ok_0.primary.deep_view() == primary_argv(
            user.uid as int,
            user.username@,
            title@,
            body@,
        ),
        r is Ok ==> r->Ok_0.fallback.deep_view() == fallback_argv(user.username@, title@, body@),
        r is Err ==> r->Err_0@ == if !safe_argument(title@) {
            safe_argument_error(title@)
        } else if !acceptable_argument(title@, 100) {
            argument_error(title@, 100)
        } else if !safe_argument(body@) {
            safe_argument_error(body@)
        } else if !acceptable_argument(body@, 1000) {
            argument_error(body@, 1000)
        } else {
            safe_argument_error(user.username@)
        },
{
    if let Err(e) = validate_safe_argument(title) {
        return Err(e);
    }
    if let Err(e) = validate_notification_argument(title, 100) {
        return Err(e);
    }
    if let Err(e) = validate_safe_argument(body) {
        return Err(e);
    }
    if let Err(e) = validate_notification_argument(body, 1000) {
        return Err(e);
    }
    if let Err(e) = validate_safe_argument(user.username.as_str()) {
        return Err(e);
    }
    let uid_digits = text::u64_to_dec(user.uid as u64);
    let mut primary: Vec<String> = Vec::new();
    primary.push(String::from_str("systemd-run"));
    primary.push(String::from_str("--user"));
    primary.push(String::from_str("--uid"));
    primary.push(uid_digits.clone());
    primary.push(String::from_str("--gid"));
    primary.push(uid_digits);
    primary.push(String::from_str("--setenv=USER"));
    primary.push(user.username.clone());
    primary.push(String::from_str("--setenv=USERNAME"));
    primary.push(user.username.clone());
    primary.push(String::from_str("dots-notifier-helper"));
    primary.push(String::from_str(title));
    primary.push(String::from_str(body));
    let mut fallback: Vec<String> = Vec::new();
    fallback.push(String::from_str("sudo"));
    fallback.push(String::from_str("-u"));
    fallback.push(user.username.clone());
    fallback.push(String::from_str("dots-notifier-helper"));
    fallback.push(String::from_str(title));
    fallback.push(String::from_str(body));
    proof {
        assert(primary.deep_view() =~= primary_argv(
            user.uid as int,
            user.username@,
            title@,
            body@,
        ));
        assert(fallback.deep_view() =~= fallback_argv(user.username@, title@, body@));
    }
    Ok(HelperInvocation { primary, fallback })
}

/// Interpret the exit of a helper process: success passes through, and a
/// non-success exit becomes a delivery error carrying the helper's
/// diagnostic output.
pub fn interpret_helper_status(success: bool, stderr: &str) -> (r: Result<(), String>)
    ensures
        r is Ok <==> success,
        r is Err ==> r->Err_0@ == "Helper process failed: "@ + stderr@,
{
    if success {
        Ok(())
    } else {
        let mut m = String::from_str("Helper process failed: ");
        m.append(stderr);
        Err(m)
    }
}

/// The notifier service: the externally reachable operation is a broadcast
/// of one notification to every active graphical user.
#[derive(Debug, Default)]
pub struct NotifierService;

/// What the service does next after session discovery: report the discovery
/// failure to the caller, report success for an empty recipient set, or
/// dispatch one delivery per recipient.
pub enum BroadcastStep {
    /// Discovery failed; the broadcast fails with this reason.
    Fail(String),
    /// No recipient has an active graphical session; the broadcast succeeds
    /// without a single delivery attempt.
    ReportEmpty,
    /// Start one delivery per member of the set.
    Dispatch(UserSet),
}

/// Decide the service's next step from the discovery outcome. Discovery
/// failure fails the whole broadcast; an empty recipient set is success
/// with nothing to do; otherwise every member is to be notified.
pub fn plan_broadcast(discovery: Result<UserSet, String>) -> (r: BroadcastStep)
    requires
        discovery is Ok ==> discovery->Ok_0.wf(),
    ensures
        match r {
            BroadcastStep::Fail(m) => discovery is Err && m == discovery->Err_0,
            BroadcastStep::ReportEmpty => discovery is Ok && discovery->Ok_0@.is_empty(),
            BroadcastStep::Dispatch(users) => discovery is Ok && users == discovery->Ok_0
                && !users@.is_empty(),
        },
{
    match discovery {
        Err(e) => BroadcastStep::Fail(e),
        Ok(users) => {
            if users.is_empty() {
                BroadcastStep::ReportEmpty
            } else {
                BroadcastStep::Dispatch(users)
            }
        },
    }
}

/// The number of failed outcomes among the per-recipient delivery results.
pub open spec fn failure_count(outcomes: Seq<Result<(), String>>) -> int
    decreases outcomes.len(),
{
    if outcomes.len() == 0 {
        0
    } else {
        failure_count(outcomes.drop_last()) + if outcomes.last() is Err {
            1int
        } else {
            0int
        }
    }
}

/// What one fan-out did: how many deliveries were attempted and how they
/// ended.
#[derive(Debug, Clone, Copy, PartialEq, Eq, Structural)]
pub struct DispatchReport {
    /// One per recipient of the dispatched set.
    pub attempted: usize,
    /// Deliveries that reported success.
    pub delivered: usize,
    /// Deliveries that reported an error; never more than `attempted`.
    pub failed: usize,
}

/// Summarize the per-recipient outcomes of one fan-out. Every outcome is
/// counted: a failed delivery never cancels or hides a sibling's attempt.
pub fn summarize_dispatch(outcomes: &Vec<Result<(), String>>) -> (r: DispatchReport)
    ensures
        r.attempted == outcomes@.len(),
        r.failed == failure_count(outcomes@),
        r.delivered + r.failed == r.attempted,
{
    let ghost all = outcomes@;
    let mut failed: usize = 0;
    let mut i: usize = 0;
    proof {
        assert(all.take(0) =~= Seq::<Result<(), String>>::empty());
    }
    while i < outcomes.len()
        invariant
            all == outcomes@,
            i <= all.len(),
            failed == failure_count(all.take(i as int)),
            failed <= i,
        decreases all.len() - i,
    {
        proof {
            assert(all.take(i as int + 1).drop_last() =~= all.take(i as int));
            assert(all.take(i as int + 1).last() == all[i as int]);
        }
        if outcomes[i].is_err() {
            failed = failed + 1;
        }
        i = i + 1;
    }
    proof {
        assert(all.take(all.len() as int) =~= all);
    }
    DispatchReport { attempted: outcomes.len(), delivered: outcomes.len() - failed, failed }
}

/// The aggregate outcome the service reports once a fan-out has run: the
/// broadcast is best-effort, so it succeeds whatever the per-recipient
/// outcomes were; individual failures are visible only in the report.
pub fn conclude_broadcast(report: &DispatchReport) -> (r: Result<(), String>)
    ensures
        r is Ok,
{
    Ok(())
}

} // verus!
