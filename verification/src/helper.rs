//! Validation performed by the per-user delivery helper before it touches
//! the session bus: notification arguments must be non-empty, within their
//! length cap and free of control characters, and the account name taken
//! from the process environment must look like a real username.
//!
//! Reading the process arguments and environment happens outside the
//! library; the checks on what was read live here.

use vstd::prelude::*;
use vstd::string::*;

use crate::text::dec_rep;

verus! {

/// A control character that may not appear in a notification argument:
/// every character of the Unicode control-code class except newline and
/// horizontal tab.
pub open spec fn is_disallowed_control(c: char) -> bool {
    ((c as u32) < 32 && c != '\n' && c != '\t') || (127 <= (c as u32) && (c as u32) <= 159)
}

/// Decide whether one character is a disallowed control character.
pub fn char_is_disallowed_control(c: char) -> (r: bool)
    ensures
        r == is_disallowed_control(c),
{
    let v = c as u32;
    (v < 32 && c != '\n' && c != '\t') || (127 <= v && v <= 159)
}

/// A notification argument is acceptable when it is non-empty, at most
/// `max_len` characters long and free of disallowed control characters.
pub open spec fn acceptable_argument(s: Seq<char>, max_len: int) -> bool {
    &&& s.len() > 0
    &&& s.len() <= max_len
    &&& forall|i: int| 0 <= i < s.len() ==> !is_disallowed_control(s[i])
}

/// The diagnostic reported for an unacceptable notification argument.
pub open spec fn argument_error(s: Seq<char>, max_len: int) -> Seq<char> {
    if s.len() == 0 {
        "Argument cannot be empty"@
    } else if s.len() > max_len {
        "Argument too long (max "@ + dec_rep(max_len) + " chars): "@ + dec_rep(s.len() as int)
    } else {
        "Argument contains invalid control characters"@
    }
}

/// Check that a notification argument is safe and reasonable: non-empty,
/// within the length cap, and free of control characters other than newline
/// and tab.
pub fn validate_notification_argument(arg: &str, max_length: usize) -> (r: Result<(), String>)
    ensures
        r is Ok <==> acceptable_argument(arg@, max_length as int),
        r is Err ==> r->Err_0@ == argument_error(arg@, max_length as int),
{
    let n = arg.unicode_len();
    if n == 0 {
        return Err(String::from_str("Argument cannot be empty"));
    }
    if n > max_length {
        let mut m = String::from_str("Argument too long (max ");
        crate::text::append_dec(&mut m, max_length as u64);
        m.append(" chars): ");
        crate::text::append_dec(&mut m, n as u64);
        return Err(m);
    }
    let mut i: usize = 0;
    while i < n
        invariant
            n == arg@.len(),
            0 < n <= max_length,
            i <= n,
            forall|j: int| 0 <= j < i ==> !is_disallowed_control(arg@[j]),
        decreases n - i,
    {
        if char_is_disallowed_control(arg.get_char(i)) {
            return Err(String::from_str("Argument contains invalid control characters"));
        }
        i = i + 1;
    }
    Ok(())
}

/// Whether the character is alphanumeric in the Unicode sense; the result
/// depends on the character alone.
pub uninterp spec fn is_unicode_alphanumeric(c: char) -> bool;

/// Relies on char::is_alphanumeric: true exactly for characters in the
/// Unicode Alphabetic class or with a numeric general category.
#[verifier::external_body]
fn char_is_alphanumeric(c: char) -> (r: bool)
    ensures
        r == is_unicode_alphanumeric(c),
{
    c.is_alphanumeric()
}

/// A character a username may consist of.
pub open spec fn allowed_username_char(c: char) -> bool {
    is_unicode_alphanumeric(c) || c == '_' || c == '-' || c == '.'
}

/// A username is acceptable when it is non-empty, at most 32 characters
/// long and made only of alphanumeric characters, underscores, dashes and
/// dots.
pub open spec fn acceptable_username(s: Seq<char>) -> bool {
    &&& s.len() > 0
    &&& s.len() <= 32
    &&& forall|i: int| 0 <= i < s.len() ==> allowed_username_char(s[i])
}

/// The diagnostic reported for an unacceptable username.
pub open spec fn username_error(s: Seq<char>) -> Seq<char> {
    if s.len() == 0 || s.len() > 32 {
        "Invalid username length"@
    } else {
        "Username contains invalid characters"@
    }
}

/// Check a username read from the process environment.
pub fn validate_username(username: &str) -> (r: Result<(), String>)
    ensures
        r is Ok <==> acceptable_username(username@),
        r is Err ==> r->Err_0@ == username_error(username@),
{
    let n = username.unicode_len();
    if n == 0 || n > 32 {
        return Err(String::from_str("Invalid username length"));
    }
    let mut i: usize = 0;
    while i < n
        invariant
            n == username@.len(),
            0 < n <= 32,
            i <= n,
            forall|j: int| 0 <= j < i ==> allowed_username_char(username@[j]),
        decreases n - i,
    {
        let c = username.get_char(i);
        if !(char_is_alphanumeric(c) || c == '_' || c == '-' || c == '.') {
            return Err(String::from_str("Username contains invalid characters"));
        }
        i = i + 1;
    }
    Ok(())
}

} // verus!
