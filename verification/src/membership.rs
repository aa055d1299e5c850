use vstd::prelude::*;

use crate::errors::DaoError;
use crate::types::AccountId;

verus! {

/// The set of authorized voters. Every mutating governance operation is
/// gated on membership in this registry.
///
/// Removal is O(1) amortized: the removed entry is swapped with the last
/// entry and the backing store shrinks by one, so member order is not
/// preserved and callers must not rely on it.
pub struct MembershipRegistry {
    voters: Vec<AccountId>,
}

impl MembershipRegistry {
    /// The registered handles, in backing-store order.
    pub closed spec fn members(self) -> Seq<AccountId> {
        self.voters@
    }

    /// Uniqueness invariant: a handle is present at most once.
    pub open spec fn well_formed(self) -> bool {
        self.members().no_duplicates()
    }

    pub open spec fn is_member(self, voter: AccountId) -> bool {
        self.members().contains(voter)
    }

    /// The backing sequence after the order-breaking O(1) removal at `i`:
    /// the last entry moves into slot `i`, then the store shrinks by one.
    pub open spec fn swap_removed(s: Seq<AccountId>, i: int) -> Seq<AccountId> {
        s.update(i, s.last()).drop_last()
    }

    pub fn new() -> (r: MembershipRegistry)
        ensures
            r.members() == Seq::<AccountId>::empty(),
            r.well_formed(),
    {
        MembershipRegistry { voters: Vec::new() }
    }

    /// The slot of the unique entry equal to `voter`, if any.
    fn position_of(&self, voter: AccountId) -> (r: Option<usize>)
        ensures
            match r {
                Some(i) => i < self.members().len()
                    && self.members()[i as int] == voter,
                None => !self.is_member(voter),
            },
    {
        let n = self.voters.len();
        let mut i: usize = 0;
        while i < n
            invariant
                i <= n,
                n == self.members().len(),
                forall|j: int| 0 <= j < i ==> self.members()[j] != voter,
            decreases n - i,
        {
            if self.voters[i] == voter {
                return Some(i);
            }
            i = i + 1;
        }
        None
    }

    /// Pure query: is `voter` registered? Never fails.
    pub fn contains(&self, voter: AccountId) -> (b: bool)
        ensures
            b == self.is_member(voter),
    {
        self.position_of(voter).is_some()
    }

    /// Inserts `voter` if absent; an already-registered handle is refused
    /// and the registry is left unchanged.
    pub fn register(&mut self, voter: AccountId) -> (r: Result<(), DaoError>)
        requires
            old(self).well_formed(),
        ensures
            final(self).well_formed(),
            old(self).is_member(voter) ==> r == Err::<(), DaoError>(DaoError::VoterAlreadyRegistered)
                && final(self).members() == old(self).members(),
            !old(self).is_member(voter) ==> r == Ok::<(), DaoError>(())
                && final(self).members() == old(self).members().push(voter),
    {
        if self.contains(voter) {
            return Err(DaoError::VoterAlreadyRegistered);
        }
        self.voters.push(voter);
        proof {
            Self::lemma_push_keeps_no_duplicates(old(self).members(), voter);
        }
        Ok(())
    }

    /// Removes `voter` if present, by swapping its slot with the last entry
    /// and shrinking the store; a handle that is absent is refused and the
    /// registry is left unchanged.
    pub fn deregister(&mut self, voter: AccountId) -> (r: Result<(), DaoError>)
        requires
            old(self).well_formed(),
        ensures
            final(self).well_formed(),
            !old(self).is_member(voter) ==> r == Err::<(), DaoError>(DaoError::VoterNotRegistered)
                && final(self).members() == old(self).members(),
            old(self).is_member(voter) ==> {
                &&& r == Ok::<(), DaoError>(())
                &&& final(self).members()
                    == Self::swap_removed(old(self).members(), old(self).members().index_of(voter))
                &&& !final(self).is_member(voter)
                &&& forall|w: AccountId| w != voter
                    ==> (final(self).is_member(w) <==> old(self).is_member(w))
                &&& forall|w: AccountId| w != voter
                    ==> (#[trigger] final(self).members().contains(w) <==> old(
                    self,
                ).members().contains(w))
                &&& final(self).members().len() == old(self).members().len() - 1
            },
    {
        match self.position_of(voter) {
            None => Err(DaoError::VoterNotRegistered),
            Some(i) => {
                self.voters.swap_remove(i);
                proof {
                    let s = old(self).members();
                    Self::lemma_swap_removed(s, i as int);
                }
                Ok(())
            },
        }
    }

    /// Appending a handle that is not yet present keeps the store free of
    /// duplicates.
    proof fn lemma_push_keeps_no_duplicates(s: Seq<AccountId>, v: AccountId)
        requires
            s.no_duplicates(),
            !s.contains(v),
        ensures
            s.push(v).no_duplicates(),
    {
        assert forall|i: int, j: int|
            0 <= i < s.push(v).len() && 0 <= j < s.push(v).len() && i != j
            implies s.push(v)[i] != s.push(v)[j] by {
            if i < s.len() && j < s.len() {
                assert(s[i] != s[j]);
            } else if i == s.len() {
                assert(s[j] != v);
            } else if j == s.len() {
                assert(s[i] != v);
            }
        }
    }

    /// Deregistering a handle and then registering it again restores its
    /// membership in a fresh slot at the end of the backing store, with no
    /// effect on any other handle's membership and no change of size.
    pub proof fn lemma_deregister_then_register(s: Seq<AccountId>, v: AccountId)
        requires
            s.no_duplicates(),
            s.contains(v),
        ensures
            ({
                let t = Self::swap_removed(s, s.index_of(v));
                let u = t.push(v);
                &&& u.contains(v)
                &&& u.last() == v
                &&& u.len() == s.len()
                &&& u.no_duplicates()
                &&& forall|w: AccountId| w != v
                    ==> (#[trigger] u.contains(w) <==> s.contains(w))
            }),
    {
        let i = s.index_of(v);
        assert(exists|j: int| 0 <= j < s.len() && s[j] == v);
        assert(0 <= i < s.len() && s[i] == v);
        Self::lemma_swap_removed(s, i);
        let t = Self::swap_removed(s, i);
        let u = t.push(v);
        Self::lemma_push_keeps_no_duplicates(t, v);
        assert(u.last() == v);
        assert forall|w: AccountId| w != v implies (#[trigger] u.contains(w) <==> s.contains(
            w,
        )) by {
            assert(u.contains(w) <==> t.contains(w) || w == v) by {
                if u.contains(w) {
                    let j = choose|j: int| 0 <= j < u.len() && u[j] == w;
                    if j < t.len() {
                        assert(t[j] == w);
                    }
                }
                if t.contains(w) {
                    let j = choose|j: int| 0 <= j < t.len() && t[j] == w;
                    assert(u[j] == w);
                }
            }
        }
    }

    /// What the order-breaking removal at slot `i` does to a duplicate-free
    /// sequence: exactly the entry at `i` disappears, everything else stays.
    proof fn lemma_swap_removed(s: Seq<AccountId>, i: int)
        requires
            s.no_duplicates(),
            0 <= i < s.len(),
        ensures
            Self::swap_removed(s, i).no_duplicates(),
            !Self::swap_removed(s, i).contains(s[i]),
            forall|w: AccountId| w != s[i]
                ==> (#[trigger] Self::swap_removed(s, i).contains(w) <==> s.contains(w)),
            Self::swap_removed(s, i).len() == s.len() - 1,
            s.index_of(s[i]) == i,
    {
        let t = Self::swap_removed(s, i);
        assert forall|w: AccountId| w != s[i] && s.contains(w)
            implies #[trigger] t.contains(w) by {
            let j = choose|j: int| 0 <= j < s.len() && s[j] == w;
            if j == s.len() - 1 {
                // the last entry was moved into slot i (which is not the last
                // slot here, else w would equal s[i])
                assert(t[i] == w);
            } else {
                assert(t[j] == w);
            }
        }
        assert forall|k: int| 0 <= k < t.len() implies t[k] != s[i] by {
            if k == i {
                assert(t[k] == s[s.len() - 1]);
            } else {
                assert(t[k] == s[k]);
            }
        }
        assert forall|k1: int, k2: int|
            0 <= k1 < t.len() && 0 <= k2 < t.len() && k1 != k2
            implies t[k1] != t[k2] by {
            let a1 = if k1 == i { s.len() - 1 } else { k1 };
            let a2 = if k2 == i { s.len() - 1 } else { k2 };
            assert(t[k1] == s[a1] && t[k2] == s[a2]);
        }
        assert(s.index_of(s[i]) == i) by {
            assert(exists|j: int| 0 <= j < s.len() && s[j] == s[i]);
            let j = s.index_of(s[i]);
            assert(0 <= j < s.len() && s[j] == s[i]);
        }
    }
}

} // verus!
