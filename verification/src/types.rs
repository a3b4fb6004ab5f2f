//! Core identity types: the notification recipient and the deduplicating
//! recipient set.

use vstd::prelude::*;
use vstd::seq_lib::*;
use vstd::string::*;

use crate::text::dec_rep;

verus! {

/// A notification recipient: one logged-in user, identified by the pair of
/// numeric user id and account name. Two recipients are equal exactly when
/// both components agree.
#[derive(Debug, Clone, Eq, Hash)]
pub struct TargetUser {
    pub uid: u32,
    pub username: String,
}

impl View for TargetUser {
    type V = (u32, Seq<char>);

    open spec fn view(&self) -> (u32, Seq<char>) {
        (self.uid, self.username@)
    }
}

impl PartialEq for TargetUser {
    fn eq(&self, other: &Self) -> (r: bool) {
        self.uid == other.uid && self.username == other.username
    }
}

impl vstd::std_specs::cmp::PartialEqSpecImpl for TargetUser {
    open spec fn obeys_eq_spec() -> bool {
        true
    }

    open spec fn eq_spec(&self, other: &Self) -> bool {
        self@ == other@
    }
}

impl TargetUser {
    /// Create a new recipient from its two identity components.
    pub fn new(uid: u32, username: String) -> (r: Self)
        ensures
            r.uid == uid,
            r.username == username,
    {
        TargetUser { uid, username }
    }

    /// The numeric user id.
    pub fn uid(&self) -> (r: u32)
        ensures
            r == self.uid,
    {
        self.uid
    }

    /// The account name.
    pub fn username(&self) -> (r: &str)
        ensures
            r@ == self.username@,
    {
        self.username.as_str()
    }

    /// The identity rendered as text: the account name followed by the user
    /// id in parentheses.
    pub fn display_string(&self) -> (r: String)
        ensures
            r@ == self.username@ + "("@ + dec_rep(self.uid as int) + ")"@,
    {
        let mut out = self.username.clone();
        out.append("(");
        crate::text::append_dec(&mut out, self.uid as u64);
        out.append(")");
        proof {
            assert(out@ =~= self.username@ + "("@ + dec_rep(self.uid as int) + ")"@);
        }
        out
    }
}

/// Two recipients are the same identity exactly when both the user id and
/// the account name agree; differing in either component makes them
/// distinct.
pub proof fn lemma_recipient_identity(a: TargetUser, b: TargetUser)
    ensures
        (a@ == b@) <==> (a.uid == b.uid && a.username@ == b.username@),
{
}

/// A deduplicating, unordered collection of recipients, built fresh for each
/// broadcast. Its view is the set of identities it holds; inserting an
/// identity twice leaves a single member.
pub struct UserSet {
    users: Vec<TargetUser>,
}

impl View for UserSet {
    type V = Set<(u32, Seq<char>)>;

    closed spec fn view(&self) -> Set<(u32, Seq<char>)> {
        self.users@.map_values(|u: TargetUser| u@).to_set()
    }
}

impl UserSet {
    /// The members, one entry per identity.
    pub closed spec fn members(&self) -> Seq<TargetUser> {
        self.users@
    }

    /// Well-formedness: the member list holds each identity at most once.
    /// `new` establishes it and `insert` preserves it.
    pub closed spec fn wf(&self) -> bool {
        forall|i: int, j: int|
            0 <= i < j < self.users@.len() ==> self.users@[i]@ != self.users@[j]@
    }

    /// The empty recipient set.
    pub fn new() -> (r: Self)
        ensures
            r.wf(),
            r@ == Set::<(u32, Seq<char>)>::empty(),
            r.members() == Seq::<TargetUser>::empty(),
    {
        let r = UserSet { users: Vec::new() };
        proof {
            assert(r@ =~= Set::<(u32, Seq<char>)>::empty());
        }
        r
    }

    /// Membership test for an identity.
    pub fn contains(&self, user: &TargetUser) -> (r: bool)
        ensures
            r == self@.contains(user@),
    {
        let ghost mapped = self.users@.map_values(|u: TargetUser| u@);
        let mut i: usize = 0;
        while i < self.users.len()
            invariant
                mapped == self.users@.map_values(|u: TargetUser| u@),
                i <= self.users@.len(),
                forall|j: int| 0 <= j < i ==> mapped[j] != user@,
            decreases self.users@.len() - i,
        {
            if &self.users[i] == user {
                proof {
                    assert(mapped[i as int] == user@);
                    assert(mapped.contains(user@));
                }
                return true;
            }
            i = i + 1;
        }
        proof {
            assert(!mapped.contains(user@));
        }
        false
    }

    /// Insert an identity; a duplicate of a present member changes nothing.
    pub fn insert(&mut self, user: TargetUser)
        requires
            old(self).wf(),
        ensures
            final(self).wf(),
            final(self)@ == old(self)@.insert(user@),
            final(self)@.len() == if old(self)@.contains(user@) {
                old(self)@.len()
            } else {
                old(self)@.len() + 1
            },
    {
        let ghost old_mapped = self.users@.map_values(|u: TargetUser| u@);
        let present = self.contains(&user);
        if present {
            proof {
                assert(self@.insert(user@) =~= self@);
            }
        } else {
            proof {
                assert(!old_mapped.contains(user@));
            }
            self.users.push(user);
            proof {
                let old_seq = old(self).users@;
                let new_seq = self.users@;
                let mapped = new_seq.map_values(|u: TargetUser| u@);
                assert(mapped =~= old_mapped.push(user@));
                assert forall|i: int, j: int|
                    0 <= i < j < new_seq.len() implies new_seq[i]@ != new_seq[j]@ by {
                    if j < old_seq.len() {
                        assert(old_seq[i]@ != old_seq[j]@);
                    } else {
                        assert(new_seq[j]@ == user@);
                        if new_seq[i]@ == user@ {
                            assert(old_mapped[i] == user@);
                            assert(old_mapped.contains(user@));
                        }
                    }
                }
                assert(self.wf());
                assert forall|k: (u32, Seq<char>)|
                    mapped.to_set().contains(k) implies old_mapped.to_set().insert(
                    user@,
                ).contains(k) by {
                    let idx = choose|idx: int| 0 <= idx < mapped.len() && mapped[idx] == k;
                    if idx < old_mapped.len() {
                        assert(old_mapped[idx] == k);
                        assert(old_mapped.contains(k));
                    } else {
                        assert(k == user@);
                    }
                }
                assert forall|k: (u32, Seq<char>)|
                    old_mapped.to_set().insert(user@).contains(k) implies mapped.to_set().contains(
                    k,
                ) by {
                    if k == user@ {
                        assert(mapped[mapped.len() - 1] == k);
                        assert(mapped.contains(k));
                    } else {
                        let idx = choose|idx: int| 0 <= idx < old_mapped.len() && old_mapped[idx]
                            == k;
                        assert(mapped[idx] == k);
                        assert(mapped.contains(k));
                    }
                }
                assert(mapped.to_set() =~= old_mapped.to_set().insert(user@));
            }
        }
        proof {
            self.lemma_card();
            old(self).lemma_card();
        }
    }

    /// The number of distinct identities held.
    pub fn len(&self) -> (r: usize)
        requires
            self.wf(),
        ensures
            r == self@.len(),
    {
        proof {
            self.lemma_card();
        }
        self.users.len()
    }

    /// Whether the set holds no identity at all.
    pub fn is_empty(&self) -> (r: bool)
        requires
            self.wf(),
        ensures
            r == self@.is_empty(),
    {
        proof {
            self.lemma_card();
            if self.users@.len() == 0 {
                assert(self@ =~= Set::<(u32, Seq<char>)>::empty());
            } else {
                assert(self@.contains(self.users@.map_values(|u: TargetUser| u@)[0]));
            }
        }
        self.users.len() == 0
    }

    /// Borrow one member by position; every identity of the view appears at
    /// exactly one position.
    pub fn member_at(&self, i: usize) -> (r: &TargetUser)
        requires
            i < self.members().len(),
        ensures
            r == self.members()[i as int],
            self@.contains(r@),
    {
        proof {
            let mapped = self.users@.map_values(|u: TargetUser| u@);
            assert(mapped[i as int] == self.users@[i as int]@);
            assert(mapped.contains(mapped[i as int]));
        }
        &self.users[i]
    }

    /// The member list is an exact, duplicate-free enumeration of the view.
    pub proof fn lemma_members(&self)
        requires
            self.wf(),
        ensures
            self.members().len() == self@.len(),
            forall|i: int|
                0 <= i < self.members().len() ==> self@.contains(#[trigger] self.members()[i]@),
            forall|k: (u32, Seq<char>)|
                self@.contains(k) ==> exists|i: int|
                    0 <= i < self.members().len() && #[trigger] self.members()[i]@ == k,
            self@.finite(),
    {
        self.lemma_card();
        let mapped = self.users@.map_values(|u: TargetUser| u@);
        assert forall|i: int|
            0 <= i < self.members().len() implies self@.contains(#[trigger] self.members()[i]@) by {
            assert(mapped[i] == self.users@[i]@);
            assert(mapped.contains(mapped[i]));
        }
        assert forall|k: (u32, Seq<char>)| self@.contains(k) implies exists|i: int|
            0 <= i < self.members().len() && #[trigger] self.members()[i]@ == k by {
            let i = choose|i: int| 0 <= i < mapped.len() && mapped[i] == k;
            assert(self.members()[i]@ == k);
        }
    }

    /// Links the length of the member list to the cardinality of the view.
    proof fn lemma_card(&self)
        requires
            self.wf(),
        ensures
            self@.len() == self.users@.len(),
            self@.finite(),
    {
        let mapped = self.users@.map_values(|u: TargetUser| u@);
        assert(mapped.no_duplicates());
        mapped.unique_seq_to_set();
    }
}

} // verus!
