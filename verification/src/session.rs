//! Session discovery: classifying login sessions and collapsing them into
//! the deduplicated set of notification recipients.
//!
//! The remote calls that enumerate sessions and fetch their live properties
//! are made outside the library; the records they yield are handed to the
//! functions here as plain values.

use vstd::prelude::*;

use crate::dbus::spec_is_graphical;
use crate::types::{TargetUser, UserSet};

verus! {

/// One login session as reported by the session manager, together with the
/// live properties fetched for it.
#[derive(Debug, Clone)]
pub struct SessionRecord {
    /// The session identifier.
    pub id: String,
    /// The numeric id of the owning user.
    pub uid: u32,
    /// The account name of the owning user.
    pub username: String,
    /// The session type string, e.g. `x11`, `wayland` or `tty`.
    pub session_type: String,
    /// Whether the session is currently active.
    pub active: bool,
}

/// A session qualifies for notification exactly when it is active and its
/// type is graphical.
pub open spec fn session_qualifies(s: SessionRecord) -> bool {
    s.active && spec_is_graphical(s.session_type@)
}

/// The identity of the user owning a session.
pub open spec fn session_identity(s: SessionRecord) -> (u32, Seq<char>) {
    (s.uid, s.username@)
}

/// The set of identities owning at least one qualifying session.
pub open spec fn discovered_identities(sessions: Seq<SessionRecord>) -> Set<(u32, Seq<char>)> {
    Set::new(
        |k: (u32, Seq<char>)|
            exists|i: int|
                0 <= i < sessions.len() && session_qualifies(#[trigger] sessions[i])
                    && session_identity(sessions[i]) == k,
    )
}

/// Collapse a list of sessions into the deduplicated set of users owning at
/// least one active graphical session.
pub fn collect_active_graphical_users(sessions: &Vec<SessionRecord>) -> (r: UserSet)
    ensures
        r.wf(),
        r@ == discovered_identities(sessions@),
{
    let mut users = UserSet::new();
    let ghost all = sessions@;
    let mut i: usize = 0;
    proof {
        assert(users@ =~= discovered_identities(all.take(0)));
    }
    while i < sessions.len()
        invariant
            users.wf(),
            all == sessions@,
            i <= all.len(),
            users@ == discovered_identities(all.take(i as int)),
        decreases all.len() - i,
    {
        let s = &sessions[i];
        let ghost prefix = all.take(i as int);
        let ghost longer = all.take(i as int + 1);
        proof {
            assert(longer.drop_last() =~= prefix);
            assert(longer.last() == all[i as int]);
        }
        if s.active && crate::dbus::is_graphical_session(s.session_type.as_str()) {
            let user = TargetUser::new(s.uid, s.username.clone());
            proof {
                assert(user@ == session_identity(all[i as int]));
            }
            users.insert(user);
            proof {
                lemma_discovered_extend(all, i as int);
                assert(users@ =~= discovered_identities(longer));
            }
        } else {
            proof {
                lemma_discovered_extend(all, i as int);
                assert(users@ =~= discovered_identities(longer));
            }
        }
        i = i + 1;
    }
    proof {
        assert(all.take(all.len() as int) =~= all);
    }
    users
}

/// The session identifiers of the active graphical sessions, in the order
/// they were listed. Each listed entry is the triple of session type,
/// activity flag and session identifier.
pub open spec fn graphical_session_ids(sessions: Seq<(String, bool, String)>) -> Seq<Seq<char>>
    decreases sessions.len(),
{
    if sessions.len() == 0 {
        Seq::empty()
    } else {
        let rest = graphical_session_ids(sessions.drop_last());
        let last = sessions.last();
        if last.1 && spec_is_graphical(last.0@) {
            rest.push(last.2@)
        } else {
            rest
        }
    }
}

/// Keep only the identifiers of sessions that are active and graphical.
pub fn filter_graphical_sessions(sessions: &Vec<(String, bool, String)>) -> (r: Vec<String>)
    ensures
        r.deep_view() == graphical_session_ids(sessions@),
{
    let mut out: Vec<String> = Vec::new();
    let ghost all = sessions@;
    let mut i: usize = 0;
    proof {
        assert(all.take(0) =~= Seq::<(String, bool, String)>::empty());
        assert(out.deep_view() =~= graphical_session_ids(all.take(0)));
    }
    while i < sessions.len()
        invariant
            all == sessions@,
            i <= all.len(),
            out.deep_view() == graphical_session_ids(all.take(i as int)),
        decreases all.len() - i,
    {
        let ghost prefix = all.take(i as int);
        let ghost longer = all.take(i as int + 1);
        let ghost old_dv = out.deep_view();
        proof {
            assert(longer.drop_last() =~= prefix);
            assert(longer.last() == all[i as int]);
        }
        let entry = &sessions[i];
        if entry.1 && crate::dbus::is_graphical_session(entry.0.as_str()) {
            out.push(entry.2.clone());
            proof {
                assert(out.deep_view() =~= old_dv.push(all[i as int].2@));
            }
        }
        proof {
            assert(out.deep_view() =~= graphical_session_ids(longer));
        }
        i = i + 1;
    }
    proof {
        assert(all.take(all.len() as int) =~= all);
    }
    out
}

/// The discovered identities of a permutation are a subset of those of the
/// original listing.
proof fn lemma_discovered_subset_of_permutation(s1: Seq<SessionRecord>, s2: Seq<SessionRecord>)
    requires
        s1.to_multiset() == s2.to_multiset(),
    ensures
        forall|k: (u32, Seq<char>)|
            discovered_identities(s1).contains(k) ==> discovered_identities(s2).contains(k),
{
    broadcast use vstd::seq_lib::group_to_multiset_ensures;

    assert forall|k: (u32, Seq<char>)|
        discovered_identities(s1).contains(k) implies discovered_identities(s2).contains(k) by {
        let i = choose|i: int|
            0 <= i < s1.len() && session_qualifies(#[trigger] s1[i]) && session_identity(s1[i])
                == k;
        assert(s1.contains(s1[i]));
        assert(s1.to_multiset().count(s1[i]) > 0);
        assert(s2.contains(s1[i]));
        let j = choose|j: int| 0 <= j < s2.len() && s2[j] == s1[i];
        assert(session_qualifies(s2[j]) && session_identity(s2[j]) == k);
    }
}

/// Discovery does not depend on the order the session manager lists sessions
/// in: any permutation of the same sessions yields the same identity set.
pub proof fn lemma_discovery_order_irrelevant(s1: Seq<SessionRecord>, s2: Seq<SessionRecord>)
    requires
        s1.to_multiset() == s2.to_multiset(),
    ensures
        discovered_identities(s1) == discovered_identities(s2),
{
    lemma_discovered_subset_of_permutation(s1, s2);
    lemma_discovered_subset_of_permutation(s2, s1);
    assert(discovered_identities(s1) =~= discovered_identities(s2));
}

/// Extending the examined prefix by one session adds that session's identity
/// when it qualifies and changes nothing otherwise.
proof fn lemma_discovered_extend(sessions: Seq<SessionRecord>, i: int)
    requires
        0 <= i < sessions.len(),
    ensures
        discovered_identities(sessions.take(i + 1)) == if session_qualifies(sessions[i]) {
            discovered_identities(sessions.take(i)).insert(session_identity(sessions[i]))
        } else {
            discovered_identities(sessions.take(i))
        },
{
    let prefix = sessions.take(i);
    let longer = sessions.take(i + 1);
    assert(longer.len() == i + 1);
    assert(forall|j: int| 0 <= j < longer.len() ==> longer[j] == sessions[j]);
    assert(forall|j: int| 0 <= j < prefix.len() ==> prefix[j] == sessions[j]);
    if session_qualifies(sessions[i]) {
        let with_new = discovered_identities(prefix).insert(session_identity(sessions[i]));
        assert forall|k: (u32, Seq<char>)|
            discovered_identities(longer).contains(k) implies with_new.contains(k) by {
            let j = choose|j: int|
                0 <= j < longer.len() && session_qualifies(longer[j]) && session_identity(
                    longer[j],
                ) == k;
            if j < i {
                assert(session_qualifies(prefix[j]));
            }
        }
        assert forall|k: (u32, Seq<char>)|
            with_new.contains(k) implies discovered_identities(longer).contains(k) by {
            if k == session_identity(sessions[i]) {
                assert(session_qualifies(longer[i]) && session_identity(longer[i]) == k);
            } else {
                let j = choose|j: int|
                    0 <= j < prefix.len() && session_qualifies(prefix[j]) && session_identity(
                        prefix[j],
                    ) == k;
                assert(session_qualifies(longer[j]) && session_identity(longer[j]) == k);
            }
        }
        assert(discovered_identities(longer) =~= with_new);
    } else {
        assert forall|k: (u32, Seq<char>)|
            discovered_identities(longer).contains(k) implies discovered_identities(
            prefix,
        ).contains(k) by {
            let j = choose|j: int|
                0 <= j < longer.len() && session_qualifies(longer[j]) && session_identity(
                    longer[j],
                ) == k;
            assert(j != i);
            assert(session_qualifies(prefix[j]));
        }
        assert forall|k: (u32, Seq<char>)|
            discovered_identities(prefix).contains(k) implies discovered_identities(
            longer,
        ).contains(k) by {
            let j = choose|j: int|
                0 <= j < prefix.len() && session_qualifies(prefix[j]) && session_identity(
                    prefix[j],
                ) == k;
            assert(session_qualifies(longer[j]) && session_identity(longer[j]) == k);
        }
        assert(discovered_identities(longer) =~= discovered_identities(prefix));
    }
}

} // verus!
