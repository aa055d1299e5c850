use std::collections::HashMap;
use vstd::prelude::*;

use crate::errors::DaoError;
use crate::membership::MembershipRegistry;
use crate::types::AccountId;

verus! {

/// A proposal of the single-phase variant: a bare unweighted tally.
#[derive(Clone, Copy, Debug, PartialEq, Eq, Structural)]
pub struct BasicProposal {
    pub vote_count: u32,
}

/// The mathematical state of a [`Dao`]. Every contract of this module is a
/// statement about values of this type.
#[verifier::ext_equal]
pub struct DaoState {
    pub name: Seq<char>,
    /// Registered voters, in backing-store order, free of duplicates.
    pub members: Seq<AccountId>,
    /// Slot `i` holds proposal id `i` forever; `None` marks a removed
    /// proposal. Ids are assigned in creation order and never reused.
    pub proposals: Seq<Option<u32>>,
    /// How many votes each voter has cast, over all proposals.
    pub vote_counts: Map<AccountId, u32>,
    /// Which (voter, proposal id) pairs have already voted.
    pub cast: Set<(AccountId, u32)>,
}

/// A counter increment that stops at the top of the numeric domain instead
/// of overflowing.
pub open spec fn sat_inc(c: u32) -> u32 {
    if c == u32::MAX {
        c
    } else {
        (c + 1) as u32
    }
}

impl DaoState {
    /// Duplicate-free membership is the only invariant the state needs.
    pub open spec fn wf(self) -> bool {
        self.members.no_duplicates()
    }

    /// The id the next successful creation will take: one past every id
    /// ever assigned, including removed ones.
    pub open spec fn next_id(self) -> int {
        self.proposals.len() as int
    }

    /// Does a proposal with this id exist and remain visible?
    pub open spec fn live(self, id: u32) -> bool {
        id < self.proposals.len() && self.proposals[id as int] is Some
    }

    /// The stored tally of a live proposal.
    pub open spec fn tally_of(self, id: u32) -> u32
        recommends
            self.live(id),
    {
        self.proposals[id as int]->Some_0
    }

    /// How many votes `voter` has cast so far, over all proposals.
    pub open spec fn vote_count_of(self, voter: AccountId) -> u32 {
        if self.vote_counts.contains_key(voter) {
            self.vote_counts[voter]
        } else {
            0
        }
    }

    pub open spec fn register_result(self, caller: AccountId) -> Result<(), DaoError> {
        if self.members.contains(caller) {
            Err(DaoError::VoterAlreadyRegistered)
        } else {
            Ok(())
        }
    }

    pub open spec fn register_step(self, caller: AccountId) -> DaoState {
        if self.members.contains(caller) {
            self
        } else {
            DaoState { members: self.members.push(caller), ..self }
        }
    }

    pub open spec fn deregister_result(self, caller: AccountId) -> Result<(), DaoError> {
        if self.members.contains(caller) {
            Ok(())
        } else {
            Err(DaoError::VoterNotRegistered)
        }
    }

    pub open spec fn deregister_step(self, caller: AccountId) -> DaoState {
        if self.members.contains(caller) {
            DaoState {
                members: MembershipRegistry::swap_removed(
                    self.members,
                    self.members.index_of(caller),
                ),
                ..self
            }
        } else {
            self
        }
    }

    pub open spec fn create_result(self, caller: AccountId) -> Result<(), DaoError> {
        if self.members.contains(caller) {
            Ok(())
        } else {
            Err(DaoError::VoterNotRegistered)
        }
    }

    pub open spec fn create_step(self, caller: AccountId) -> DaoState {
        if self.members.contains(caller) {
            DaoState { proposals: self.proposals.push(Some(0)), ..self }
        } else {
            self
        }
    }

    pub open spec fn remove_result(self, caller: AccountId, id: u32) -> Result<(), DaoError> {
        if !self.members.contains(caller) {
            Err(DaoError::VoterNotRegistered)
        } else if !self.live(id) {
            Err(DaoError::ProposalDoesNotExist)
        } else {
            Ok(())
        }
    }

    pub open spec fn remove_step(self, caller: AccountId, id: u32) -> DaoState {
        if self.remove_result(caller, id) is Ok {
            DaoState { proposals: self.proposals.update(id as int, None), ..self }
        } else {
            self
        }
    }

    /// What an external reader sees of a proposal: removed ids are
    /// indistinguishable from ids never assigned.
    pub open spec fn get_spec(self, id: u32) -> Option<u32> {
        if self.live(id) {
            Some(self.tally_of(id))
        } else {
            None
        }
    }

    pub open spec fn vote_result(self, caller: AccountId, id: u32) -> Result<(), DaoError> {
        if !self.members.contains(caller) {
            Err(DaoError::VoterNotRegistered)
        } else if !self.live(id) {
            Err(DaoError::ProposalDoesNotExist)
        } else if self.cast.contains((caller, id)) {
            Err(DaoError::AlreadyVoted)
        } else {
            Ok(())
        }
    }

    pub open spec fn vote_step(self, caller: AccountId, id: u32) -> DaoState {
        if self.vote_result(caller, id) is Ok {
            DaoState {
                proposals: self.proposals.update(id as int, Some(sat_inc(self.tally_of(id)))),
                vote_counts: self.vote_counts.insert(caller, sat_inc(self.vote_count_of(caller))),
                cast: self.cast.insert((caller, id)),
                ..self
            }
        } else {
            self
        }
    }
}

/// One mutating operation of the single-phase engine, for stating laws that
/// hold over whole operation histories.
pub enum DaoOp {
    Register { caller: AccountId },
    Deregister { caller: AccountId },
    Create { caller: AccountId },
    Remove { caller: AccountId, id: u32 },
    Vote { caller: AccountId, id: u32 },
}

impl DaoState {
    /// The state after one operation (successful or refused).
    pub open spec fn apply(self, op: DaoOp) -> DaoState {
        match op {
            DaoOp::Register { caller } => self.register_step(caller),
            DaoOp::Deregister { caller } => self.deregister_step(caller),
            DaoOp::Create { caller } => self.create_step(caller),
            DaoOp::Remove { caller, id } => self.remove_step(caller, id),
            DaoOp::Vote { caller, id } => self.vote_step(caller, id),
        }
    }

    /// The state after a whole history of operations, first to last.
    pub open spec fn apply_all(self, ops: Seq<DaoOp>) -> DaoState
        decreases ops.len(),
    {
        if ops.len() == 0 {
            self
        } else {
            self.apply(ops[0]).apply_all(ops.drop_first())
        }
    }
}

/// Registering an already-registered handle always fails with
/// `VoterAlreadyRegistered` and changes nothing, in particular not the
/// membership set's size.
pub proof fn lemma_register_idempotent(d: DaoState, v: AccountId)
    requires
        d.members.contains(v),
    ensures
        d.register_result(v) == Err::<(), DaoError>(DaoError::VoterAlreadyRegistered),
        d.register_step(v) == d,
        d.register_step(v).members.len() == d.members.len(),
{
}

/// No double voting: once a vote by `v` on `p` has succeeded, a second vote
/// by `v` on `p` is refused with `AlreadyVoted` and changes nothing, so the
/// two calls together raise `p`'s stored tally by exactly one.
pub proof fn lemma_no_double_vote(d: DaoState, v: AccountId, p: u32)
    requires
        d.vote_result(v, p) is Ok,
        d.tally_of(p) < u32::MAX,
    ensures
        ({
            let d1 = d.vote_step(v, p);
            &&& d1.vote_result(v, p) == Err::<(), DaoError>(DaoError::AlreadyVoted)
            &&& d1.vote_step(v, p) == d1
            &&& d1.tally_of(p) == d.tally_of(p) + 1
        }),
{
    let d1 = d.vote_step(v, p);
    assert(d1.cast.contains((v, p)));
    assert(d1.live(p));
}

/// No operation ever lowers the next id to be assigned.
proof fn lemma_next_id_never_decreases(d: DaoState, ops: Seq<DaoOp>)
    ensures
        d.apply_all(ops).next_id() >= d.next_id(),
    decreases ops.len(),
{
    if ops.len() > 0 {
        assert(d.apply(ops[0]).next_id() >= d.next_id());
        lemma_next_id_never_decreases(d.apply(ops[0]), ops.drop_first());
    }
}

/// A removed slot stays removed under every later operation, and the store
/// never shrinks.
proof fn lemma_removed_slot_stays_removed(d: DaoState, id: u32, ops: Seq<DaoOp>)
    requires
        id < d.proposals.len(),
        d.proposals[id as int] is None,
    ensures
        d.apply_all(ops).proposals.len() >= d.proposals.len(),
        d.apply_all(ops).proposals[id as int] is None,
    decreases ops.len(),
{
    if ops.len() > 0 {
        let d1 = d.apply(ops[0]);
        assert(d1.proposals.len() >= d.proposals.len() && d1.proposals[id as int] is None);
        lemma_removed_slot_stays_removed(d1, id, ops.drop_first());
    }
}

/// Removed proposals are invisible and their ids are never reissued: after
/// a successful removal the id reads as absent under every later history,
/// and every id assigned by a later creation is strictly larger.
pub proof fn lemma_removed_proposal_invisible(
    d: DaoState,
    caller: AccountId,
    id: u32,
    ops: Seq<DaoOp>,
)
    requires
        d.remove_result(caller, id) is Ok,
    ensures
        d.remove_step(caller, id).get_spec(id) is None,
        d.remove_step(caller, id).apply_all(ops).get_spec(id) is None,
        d.remove_step(caller, id).apply_all(ops).next_id() > id as int,
{
    let d1 = d.remove_step(caller, id);
    lemma_removed_slot_stays_removed(d1, id, ops);
    lemma_next_id_never_decreases(d1, ops);
}

/// Id monotonicity: the id a creation assigns is `next_id`, and a later
/// creation assigns a strictly larger id, whatever operations (removals
/// included) happen in between.
pub proof fn lemma_ids_strictly_increase(d: DaoState, c1: AccountId, ops: Seq<DaoOp>)
    requires
        d.create_result(c1) is Ok,
    ensures
        d.create_step(c1).apply_all(ops).next_id() > d.next_id(),
{
    lemma_next_id_never_decreases(d.create_step(c1), ops);
}

/// The single-phase governance engine: a named organization whose registered
/// voters open local proposals, vote on each at most once, and may remove
/// them. The calling account is an explicit parameter of every gated
/// operation.
pub struct Dao {
    name: String,
    registry: MembershipRegistry,
    proposals: Vec<Option<BasicProposal>>,
    vote_counts: HashMap<AccountId, u32>,
    cast_records: Vec<(AccountId, u32)>,
}

impl View for Dao {
    type V = DaoState;

    closed spec fn view(&self) -> DaoState {
        DaoState {
            name: self.name@,
            members: self.registry.members(),
            proposals: Seq::new(
                self.proposals@.len(),
                |i: int|
                    match self.proposals@[i] {
                        Some(p) => Some(p.vote_count),
                        None => None,
                    },
            ),
            vote_counts: self.vote_counts@,
            cast: self.cast_records@.to_set(),
        }
    }
}

impl Dao {
    pub open spec fn well_formed(self) -> bool {
        self@.wf()
    }

    /// A fresh organization with no members and no proposals.
    pub fn new(name: String) -> (r: Dao)
        ensures
            r@ == (DaoState {
                name: name@,
                members: Seq::<AccountId>::empty(),
                proposals: Seq::<Option<u32>>::empty(),
                vote_counts: Map::<AccountId, u32>::empty(),
                cast: Set::<(AccountId, u32)>::empty(),
            }),
            r.well_formed(),
    {
        let dao = Dao {
            name,
            registry: MembershipRegistry::new(),
            proposals: Vec::new(),
            vote_counts: HashMap::new(),
            cast_records: Vec::new(),
        };
        proof {
            assert(dao.cast_records@.to_set() =~= Set::<(AccountId, u32)>::empty());
            assert(dao@.proposals =~= Seq::<Option<u32>>::empty());
        }
        dao
    }

    /// A fresh organization under the default name.
    pub fn default() -> (r: Dao)
        ensures
            r@.name == "Default DAO"@,
            r@.members == Seq::<AccountId>::empty(),
            r@.proposals == Seq::<Option<u32>>::empty(),
            r.well_formed(),
    {
        Dao::new("Default DAO".to_owned())
    }

    pub fn get_name(&self) -> (r: String)
        ensures
            r@ == self@.name,
    {
        self.name.clone()
    }

    /// Adds `caller` to the membership set; registering a handle that is
    /// already present always fails and leaves the set unchanged.
    pub fn register_voter(&mut self, caller: AccountId) -> (r: Result<(), DaoError>)
        requires
            old(self).well_formed(),
        ensures
            final(self).well_formed(),
            final(self)@ == old(self)@.register_step(caller),
            r == old(self)@.register_result(caller),
    {
        let r = self.registry.register(caller);
        proof {
            assert(self@ =~= old(self)@.register_step(caller));
        }
        r
    }

    /// Removes `caller` from the membership set by swapping its slot with
    /// the last entry; a handle that is absent is refused.
    pub fn deregister_voter(&mut self, caller: AccountId) -> (r: Result<(), DaoError>)
        requires
            old(self).well_formed(),
        ensures
            final(self).well_formed(),
            final(self)@ == old(self)@.deregister_step(caller),
            r == old(self)@.deregister_result(caller),
    {
        let r = self.registry.deregister(caller);
        proof {
            assert(self@ =~= old(self)@.deregister_step(caller));
        }
        r
    }

    /// Pure membership query; never fails.
    pub fn has_voter(&self, voter: AccountId) -> (b: bool)
        ensures
            b == self@.members.contains(voter),
    {
        self.registry.contains(voter)
    }

    /// Opens a new proposal with a zeroed tally under the next id, which is
    /// never one that an earlier proposal held. Only members may create.
    pub fn create_proposal(&mut self, caller: AccountId) -> (r: Result<(), DaoError>)
        requires
            old(self).well_formed(),
            old(self)@.next_id() < u32::MAX,
        ensures
            final(self).well_formed(),
            final(self)@ == old(self)@.create_step(caller),
            r == old(self)@.create_result(caller),
    {
        if !self.registry.contains(caller) {
            return Err(DaoError::VoterNotRegistered);
        }
        self.proposals.push(Some(BasicProposal { vote_count: 0 }));
        proof {
            assert(self@ =~= old(self)@.create_step(caller));
        }
        Ok(())
    }

    /// Marks a live proposal removed: later reads report it absent and its
    /// id is never assigned again. Only members may remove.
    pub fn remove_proposal(&mut self, caller: AccountId, proposal_id: u32) -> (r: Result<
        (),
        DaoError,
    >)
        requires
            old(self).well_formed(),
        ensures
            final(self).well_formed(),
            final(self)@ == old(self)@.remove_step(caller, proposal_id),
            r == old(self)@.remove_result(caller, proposal_id),
    {
        if !self.registry.contains(caller) {
            return Err(DaoError::VoterNotRegistered);
        }
        let idx = proposal_id as usize;
        if idx >= self.proposals.len() {
            return Err(DaoError::ProposalDoesNotExist);
        }
        if self.proposals[idx].is_none() {
            return Err(DaoError::ProposalDoesNotExist);
        }
        self.proposals.set(idx, None);
        proof {
            assert(self@ =~= old(self)@.remove_step(caller, proposal_id));
        }
        Ok(())
    }

    /// A value-copy snapshot of a live proposal; removed ids read as absent.
    pub fn get_proposal(&self, proposal_id: u32) -> (r: Option<BasicProposal>)
        ensures
            match r {
                Some(p) => self@.get_spec(proposal_id) == Some(p.vote_count),
                None => self@.get_spec(proposal_id) is None,
            },
    {
        let idx = proposal_id as usize;
        if idx >= self.proposals.len() {
            return None;
        }
        self.proposals[idx]
    }

    /// Records one vote by `caller` on a live proposal: the proposal's tally
    /// and the caller's total rise by one (stopping at the top of `u32`),
    /// and the pair (caller, proposal) is marked so a second vote is
    /// refused with `AlreadyVoted`.
    pub fn vote(&mut self, caller: AccountId, proposal_id: u32) -> (r: Result<(), DaoError>)
        requires
            old(self).well_formed(),
        ensures
            final(self).well_formed(),
            final(self)@ == old(self)@.vote_step(caller, proposal_id),
            r == old(self)@.vote_result(caller, proposal_id),
    {
        if !self.registry.contains(caller) {
            return Err(DaoError::VoterNotRegistered);
        }
        let idx = proposal_id as usize;
        if idx >= self.proposals.len() {
            return Err(DaoError::ProposalDoesNotExist);
        }
        let slot = self.proposals[idx];
        match slot {
            None => Err(DaoError::ProposalDoesNotExist),
            Some(p) => {
                if self.has_cast(caller, proposal_id) {
                    return Err(DaoError::AlreadyVoted);
                }
                let new_tally = if p.vote_count == u32::MAX {
                    p.vote_count
                } else {
                    p.vote_count + 1
                };
                self.proposals.set(idx, Some(BasicProposal { vote_count: new_tally }));
                self.cast_records.push((caller, proposal_id));
                let current = match self.vote_counts.get(&caller) {
                    Some(c) => *c,
                    None => 0,
                };
                let new_total = if current == u32::MAX {
                    current
                } else {
                    current + 1
                };
                self.vote_counts.insert(caller, new_total);
                proof {
                    let olds = old(self).cast_records@;
                    let news = self.cast_records@;
                    let pair = (caller, proposal_id);
                    assert forall|x: (AccountId, u32)| #[trigger] news.contains(x)
                        implies olds.contains(x) || x == pair by {
                        let j = choose|j: int| 0 <= j < news.len() && news[j] == x;
                        if j < olds.len() {
                            assert(olds[j] == x);
                        }
                    }
                    assert forall|x: (AccountId, u32)| olds.contains(x) || x == pair
                        implies #[trigger] news.contains(x) by {
                        if olds.contains(x) {
                            let j = choose|j: int| 0 <= j < olds.len() && olds[j] == x;
                            assert(news[j] == x);
                        } else {
                            assert(news[olds.len() as int] == x);
                        }
                    }
                    assert(news.to_set() =~= olds.to_set().insert(pair));
                    assert(self@ =~= old(self)@.vote_step(caller, proposal_id));
                }
                Ok(())
            },
        }
    }

    /// How many votes `voter` has cast over all proposals.
    pub fn vote_count(&self, voter: AccountId) -> (r: u32)
        ensures
            r == self@.vote_count_of(voter),
    {
        match self.vote_counts.get(&voter) {
            Some(c) => *c,
            None => 0,
        }
    }

    /// Whether (voter, proposal) already voted.
    fn has_cast(&self, voter: AccountId, proposal_id: u32) -> (b: bool)
        ensures
            b == self@.cast.contains((voter, proposal_id)),
    {
        let n = self.cast_records.len();
        let mut i: usize = 0;
        while i < n
            invariant
                i <= n,
                n == self.cast_records@.len(),
                forall|j: int| 0 <= j < i ==> self.cast_records@[j] != (voter, proposal_id),
            decreases n - i,
        {
            let rec = self.cast_records[i];
            if rec.0 == voter && rec.1 == proposal_id {
                return true;
            }
            i = i + 1;
        }
        false
    }
}

} // verus!
