//! Identity provisioning.
//!
//! A verified token's subject maps to a durable user record, created
//! lazily on first sight and never mutated after. Creation is idempotent
//! under concurrency: the store's uniqueness constraint on the subject id
//! is the serialization point, and an insert that loses the race observes
//! a conflict, which is treated as success. The decisions are verified
//! here; the relational round trips happen outside the library and hand
//! back plain outcomes. [`IdentityStore`] is the verified model of the
//! store's contract, against which the idempotence laws are proved.

use vstd::prelude::*;
use crate::token::AuthError;

verus! {

/// A subject identifier asserted by a verified token.
pub struct UserId(pub String);

/// The local representation of a remote identity; immutable once created.
pub struct User {
    pub id: UserId,
}

impl Clone for UserId {
    fn clone(&self) -> (r: Self)
        ensures
            r == *self,
    {
        UserId(self.0.clone())
    }
}

impl Clone for User {
    fn clone(&self) -> (r: Self)
        ensures
            r == *self,
    {
        User { id: self.id.clone() }
    }
}

/// What the store answered to `insert user with id, resolve on conflict`.
pub enum InsertOutcome {
    /// The row was created by this request.
    Inserted,
    /// A concurrent request created the row first; it exists now.
    Conflict,
    /// The store could not be reached.
    Unavailable,
}

/// What to do after looking the subject up.
pub enum ProvisionStep {
    /// The identity exists; no write is performed.
    Done(User),
    /// The identity is new; attempt the conflict-tolerant insert.
    Insert,
}

/// Decide on the lookup outcome: an existing row is returned unchanged, a
/// missing one leads to the insert attempt. No write happens on a hit.
pub fn provision_after_find(found: Option<User>) -> (r: ProvisionStep)
    ensures
        match found {
            Some(u) => r == ProvisionStep::Done(u),
            None => r == ProvisionStep::Insert,
        },
{
    match found {
        Some(u) => ProvisionStep::Done(u),
        None => ProvisionStep::Insert,
    }
}

/// Decide on the insert outcome: winning the race and losing it to a
/// concurrent creator both succeed with the same identity — a uniqueness
/// conflict means the row exists — while an unreachable store fails the
/// request.
pub fn provision_after_insert(sub: &String, outcome: InsertOutcome) -> (r: Result<User, AuthError>)
    ensures
        match outcome {
            InsertOutcome::Inserted => r matches Ok(u) && u.id.0@ == sub@,
            InsertOutcome::Conflict => r matches Ok(u) && u.id.0@ == sub@,
            InsertOutcome::Unavailable => r == Err::<User, AuthError>(AuthError::StoreUnavailable),
        },
{
    match outcome {
        InsertOutcome::Inserted => Ok(User { id: UserId(sub.clone()) }),
        InsertOutcome::Conflict => Ok(User { id: UserId(sub.clone()) }),
        InsertOutcome::Unavailable => Err(AuthError::StoreUnavailable),
    }
}

/// Whether some row holds the subject.
pub open spec fn has_subject(subjects: Seq<String>, sub: Seq<char>) -> bool {
    exists|i: int| 0 <= i < subjects.len() && subjects[i]@ == sub
}

/// The store contents after one provision of `sub`: unchanged where the
/// subject exists, one new row where it does not.
pub open spec fn after_provision(subjects: Seq<Seq<char>>, sub: Seq<char>) -> Seq<Seq<char>> {
    if subjects.contains(sub) {
        subjects
    } else {
        subjects.push(sub)
    }
}

/// The verified model of the identity store: rows keyed by subject id,
/// one row per subject.
pub struct IdentityStore {
    pub subjects: Vec<String>,
}

impl IdentityStore {
    /// The rows as plain subject ids.
    pub open spec fn view_ids(self) -> Seq<Seq<char>> {
        self.subjects@.map_values(|s: String| s@)
    }

    /// One row per subject.
    pub open spec fn wf(self) -> bool {
        forall|i: int, j: int|
            0 <= i < j < self.subjects@.len() ==> self.subjects@[i]@ != self.subjects@[j]@
    }

    pub fn new() -> (r: IdentityStore)
        ensures
            r.wf(),
            r.subjects@.len() == 0,
    {
        IdentityStore { subjects: Vec::new() }
    }

    /// `find user by id`.
    pub fn find_user(&self, sub: &String) -> (r: Option<User>)
        ensures
            r is Some <==> self.view_ids().contains(sub@),
            r matches Some(u) ==> u.id.0@ == sub@,
    {
        let n = self.subjects.len();
        let mut i: usize = 0;
        while i < n
            invariant
                n == self.subjects@.len(),
                0 <= i <= n,
                forall|j: int| 0 <= j < i ==> self.subjects@[j]@ != sub@,
            decreases n - i,
        {
            if self.subjects[i] == *sub {
                assert(self.view_ids()[i as int] == sub@);
                return Some(User { id: UserId(sub.clone()) });
            }
            i = i + 1;
        }
        assert(forall|j: int| 0 <= j < self.view_ids().len() ==> self.view_ids()[j] != sub@);
        None
    }

    /// `insert user with id, resolve on conflict`: at most one insert per
    /// subject ever lands; a loser observes the conflict.
    pub fn insert_user(&mut self, sub: &String) -> (r: InsertOutcome)
        requires
            old(self).wf(),
        ensures
            final(self).wf(),
            final(self).view_ids() == after_provision(old(self).view_ids(), sub@),
            old(self).view_ids().contains(sub@) ==> r == InsertOutcome::Conflict && *final(self)
                == *old(self),
            !old(self).view_ids().contains(sub@) ==> r == InsertOutcome::Inserted,
    {
        match self.find_user(sub) {
            Some(_) => {
                assert(self.view_ids().contains(sub@));
                InsertOutcome::Conflict
            },
            None => {
                let ghost pre = self.view_ids();
                let ghost pre_raw = self.subjects@;
                self.subjects.push(sub.clone());
                proof {
                    assert(self.view_ids() =~= pre.push(sub@));
                    assert forall|i: int, j: int|
                        0 <= i < j < self.subjects@.len() implies self.subjects@[i]@
                        != self.subjects@[j]@ by {
                        if j < pre_raw.len() {
                            assert(self.subjects@[i] == pre_raw[i]);
                            assert(self.subjects@[j] == pre_raw[j]);
                        } else {
                            assert(self.subjects@[j]@ == sub@);
                            assert(!pre.contains(sub@));
                            assert(pre[i] == self.subjects@[i]@);
                        }
                    }
                }
                InsertOutcome::Inserted
            },
        }
    }

    /// Find-or-create: returns the identity for `sub`, creating its row
    /// only on first sight, and writing nothing on re-authentication.
    pub fn provision(&mut self, sub: &String) -> (r: User)
        requires
            old(self).wf(),
        ensures
            final(self).wf(),
            r.id.0@ == sub@,
            final(self).view_ids() == after_provision(old(self).view_ids(), sub@),
            old(self).view_ids().contains(sub@) ==> *final(self) == *old(self),
    {
        match self.find_user(sub) {
            Some(u) => u,
            None => {
                let outcome = self.insert_user(sub);
                match outcome {
                    InsertOutcome::Conflict => User { id: UserId(sub.clone()) },
                    _ => User { id: UserId(sub.clone()) },
                }
            },
        }
    }
}

/// Idempotence under concurrent first sight: when two requests race to
/// provision one new subject, the store gains exactly one row, and the
/// second provision — whichever it is — changes nothing further; both
/// requests reference that same row.
pub proof fn lemma_concurrent_first_sight(subjects: Seq<Seq<char>>, sub: Seq<char>)
    requires
        !subjects.contains(sub),
    ensures
        after_provision(subjects, sub).len() == subjects.len() + 1,
        after_provision(subjects, sub).contains(sub),
        after_provision(after_provision(subjects, sub), sub) == after_provision(subjects, sub),
{
    let s1 = after_provision(subjects, sub);
    assert(s1 == subjects.push(sub));
    assert(s1[subjects.len() as int] == sub);
    assert(s1.contains(sub));
}

/// Re-authentication writes nothing: provisioning a subject that already
/// has a row leaves the store exactly as it was.
pub proof fn lemma_reauthentication_zero_writes(subjects: Seq<Seq<char>>, sub: Seq<char>)
    requires
        subjects.contains(sub),
    ensures
        after_provision(subjects, sub) == subjects,
{
}

} // verus!
