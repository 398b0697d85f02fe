//! The user-store side of the saga: an in-memory document store double,
//! keyed by `user_id`, with the existence check and the insert-if-absent
//! write the saga relies on.  Its contents are modelled as a map from
//! identity to record; when `available` is false every call fails with
//! `Unavailable`, which models a store connectivity fault.

use vstd::prelude::*;

use crate::models::User;

verus! {

/// How a store call fails: the identity is already taken (reported only by
/// the insert, and distinct from a fault), or the store cannot be reached.
#[derive(Clone, Copy, PartialEq, Eq, Structural, Debug)]
pub enum StoreError {
    AlreadyExists,
    Unavailable,
}

/// The contents a sequence of records stands for: each record keyed by its
/// identity, later records shadowing earlier ones (well-formed stores have
/// no duplicate to shadow).
pub closed spec fn map_of(s: Seq<User>) -> Map<Seq<char>, User>
    decreases s.len(),
{
    if s.len() == 0 {
        Map::empty()
    } else {
        map_of(s.drop_last()).insert(s.last().user_id@, s.last())
    }
}

/// A key is in the contents exactly when some record carries it.
proof fn lemma_map_of_contains(s: Seq<User>, k: Seq<char>)
    ensures
        map_of(s).contains_key(k) <==> exists|i: int|
            0 <= i < s.len() && (#[trigger] s[i].user_id@) == k,
    decreases s.len(),
{
    if s.len() > 0 {
        let d = s.drop_last();
        lemma_map_of_contains(d, k);
        if s.last().user_id@ == k {
            assert(s[s.len() - 1].user_id@ == k);
        } else if map_of(d).contains_key(k) {
            let i = choose|i: int| 0 <= i < d.len() && d[i].user_id@ == k;
            assert(s[i].user_id@ == k);
        } else {
            assert forall|i: int| 0 <= i < s.len() implies s[i].user_id@ != k by {
                if i < s.len() - 1 {
                    assert(d[i] == s[i]);
                }
            }
        }
    }
}

/// What an insert-if-absent against contents `m` does: with the identity
/// already present it reports the conflict and leaves the contents alone;
/// otherwise it adds the record under its identity.
pub open spec fn insert_result(m: Map<Seq<char>, User>, u: User) -> (Map<Seq<char>, User>, Result<
    (),
    StoreError,
>) {
    if m.contains_key(u.user_id@) {
        (m, Err(StoreError::AlreadyExists))
    } else {
        (m.insert(u.user_id@, u), Ok(()))
    }
}

/// An in-memory user store: the double for the document store.  At most one
/// record per identity, enforced by the insert.
#[derive(Debug)]
pub struct InMemoryUserStore {
    users: Vec<User>,
    pub available: bool,
}

impl View for InMemoryUserStore {
    type V = Map<Seq<char>, User>;

    closed spec fn view(&self) -> Map<Seq<char>, User> {
        map_of(self.users@)
    }
}

impl InMemoryUserStore {
    /// Whether the store can be reached: the test double's switch for a
    /// connectivity fault.
    pub closed spec fn is_available(&self) -> bool {
        self.available
    }

    /// No two records carry the same identity.
    pub closed spec fn wf(&self) -> bool {
        forall|i: int, j: int|
            0 <= i < j < self.users@.len() ==> self.users@[i].user_id@ != self.users@[j].user_id@
    }

    /// How many records the store holds.
    pub closed spec fn record_count(&self) -> nat {
        self.users@.len()
    }

    /// A fresh store: empty and reachable.
    pub fn new() -> (s: Self)
        ensures
            s.wf(),
            s@ == Map::<Seq<char>, User>::empty(),
            s.record_count() == 0,
            s.is_available(),
    {
        InMemoryUserStore { users: Vec::new(), available: true }
    }

    /// Whether some record carries the identity `user_id`.
    fn contains_id(&self, user_id: &String) -> (b: bool)
        ensures
            b == self@.contains_key(user_id@),
    {
        proof {
            lemma_map_of_contains(self.users@, user_id@);
        }
        let n = self.users.len();
        let mut idx: usize = 0;
        while idx < n
            invariant
                n == self.users@.len(),
                idx <= n,
                forall|j: int| 0 <= j < idx ==> self.users@[j].user_id@ != user_id@,
            decreases n - idx,
        {
            if self.users[idx].user_id == *user_id {
                proof {
                    assert(exists|i: int|
                        0 <= i < self.users@.len() && (#[trigger] self.users@[i].user_id@)
                            == user_id@) by {
                        assert(0 <= (idx as int) < self.users@.len()
                            && self.users@[idx as int].user_id@ == user_id@);
                    }
                    lemma_map_of_contains(self.users@, user_id@);
                }
                return true;
            }
            idx = idx + 1;
        }
        false
    }

    /// The existence check: true exactly when a record with this identity is
    /// present, an `Unavailable` fault when the store cannot be reached.
    /// "Not found" is `Ok(false)`, never an error.  Side-effect-free.
    pub fn user_exists(&self, user_id: &String) -> (r: Result<bool, StoreError>)
        ensures
            self.is_available() ==> r == Ok::<bool, StoreError>(self@.contains_key(user_id@)),
            !self.is_available() ==> r == Err::<bool, StoreError>(StoreError::Unavailable),
    {
        if !self.available {
            return Err(StoreError::Unavailable);
        }
        Ok(self.contains_id(user_id))
    }

    /// The insert-if-absent write: adds a record for a new identity, reports
    /// `AlreadyExists` for a taken one (the store's own uniqueness
    /// enforcement), and `Unavailable` when the store cannot be reached.
    /// The contents change only on success.
    pub fn insert_if_absent(&mut self, user: &User) -> (r: Result<(), StoreError>)
        requires
            old(self).wf(),
        ensures
            final(self).wf(),
            final(self).is_available() == old(self).is_available(),
            !old(self).is_available() ==> r == Err::<(), StoreError>(StoreError::Unavailable)
                && final(self)@ == old(self)@
                && final(self).record_count() == old(self).record_count(),
            old(self).is_available() ==> (final(self)@, r) == insert_result(old(self)@, *user),
            old(self).is_available() && old(self)@.contains_key(user.user_id@) ==> final(self).record_count()
                == old(self).record_count(),
            old(self).is_available() && !old(self)@.contains_key(user.user_id@)
                ==> final(self).record_count() == old(self).record_count() + 1,
    {
        if !self.available {
            return Err(StoreError::Unavailable);
        }
        if self.contains_id(&user.user_id) {
            return Err(StoreError::AlreadyExists);
        }
        proof {
            lemma_map_of_contains(self.users@, user.user_id@);
        }
        let copied = user.clone();
        self.users.push(copied);
        proof {
            assert(self.users@.drop_last() =~= old(self).users@);
            assert(self@ == old(self)@.insert(user.user_id@, *user));
        }
        Ok(())
    }

    /// How many records the store holds, as an observable count.
    pub fn user_count(&self) -> (n: usize)
        ensures
            n == self.record_count(),
    {
        self.users.len()
    }
}

/// The existence check as the saga calls it: a query against the store for
/// one identity.
pub fn does_user_exist(store: &InMemoryUserStore, user_id: &String) -> (r: Result<
    bool,
    StoreError,
>)
    ensures
        store.is_available() ==> r == Ok::<bool, StoreError>(store@.contains_key(user_id@)),
        !store.is_available() ==> r == Err::<bool, StoreError>(StoreError::Unavailable),
{
    store.user_exists(user_id)
}

} // verus!
