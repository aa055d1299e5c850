use vstd::prelude::*;

use crate::calls::{copy_bytes, copy_call, Call, CallView, ChainCall, ChainCallView, ContractCall};
use crate::errors::DaoError;
use crate::membership::MembershipRegistry;
use crate::types::{AccountId, ProposalStatus, Vote};
use crate::upstream::{SuperDaoClient, UpstreamEvent};

verus! {

/// The local record of a proposal: the action it carries (a contract call
/// or an opaque cross-chain message, stored byte-for-byte as supplied) and
/// the local vote counters.
#[derive(Debug)]
pub struct Proposal {
    pub action: Call,
    pub status: ProposalStatus,
    pub votes_yes: u32,
    pub votes_no: u32,
}

/// Mathematical image of a [`Proposal`].
#[verifier::ext_equal]
pub struct ProposalView {
    pub action: CallView,
    pub status: ProposalStatus,
    pub votes_yes: u32,
    pub votes_no: u32,
}

impl View for Proposal {
    type V = ProposalView;

    open spec fn view(&self) -> ProposalView {
        ProposalView {
            action: self.action@,
            status: self.status,
            votes_yes: self.votes_yes,
            votes_no: self.votes_no,
        }
    }
}

/// Mathematical state of a mirroring [`Dao`].
#[verifier::ext_equal]
pub struct DaoState {
    pub name: Seq<char>,
    pub members: Seq<AccountId>,
    /// Slot `i` mirrors the proposal with local id `i`; ids are assigned in
    /// creation order and never reused.
    pub proposals: Seq<ProposalView>,
    /// Which (voter, proposal id) pairs have already voted.
    pub cast: Set<(AccountId, u32)>,
}

/// A fresh record with zeroed counters for a newly stored action.
pub open spec fn new_record(action: CallView) -> ProposalView {
    ProposalView { action, status: ProposalStatus::Active, votes_yes: 0, votes_no: 0 }
}

/// A counter increment that stops at the top of the numeric domain instead
/// of overflowing.
pub open spec fn sat_inc(c: u32) -> u32 {
    if c == u32::MAX {
        c
    } else {
        (c + 1) as u32
    }
}

/// Round trip at the store level: reading the slot that a creation just
/// filled yields the stored action exactly — selector, input and message
/// bytes identical to what the caller supplied, for every store state and
/// every byte sequence.
pub proof fn lemma_stored_action_round_trips(proposals: Seq<ProposalView>, action: CallView)
    ensures
        proposals.push(new_record(action))[proposals.len() as int].action == action,
{
}

/// A member organization that mirrors every proposal locally — contract
/// calls are stored outright; cross-chain proposals are also submitted
/// upstream — and keeps per-proposal vote counters beside a per-voter cast
/// record, so nobody votes twice on the same proposal. The calling account
/// and the upstream capability are explicit parameters.
pub struct Dao {
    name: String,
    registry: MembershipRegistry,
    proposals: Vec<Proposal>,
    cast_records: Vec<(AccountId, u32)>,
}

impl View for Dao {
    type V = DaoState;

    closed spec fn view(&self) -> DaoState {
        DaoState {
            name: self.name@,
            members: self.registry.members(),
            proposals: Seq::new(self.proposals@.len(), |i: int| self.proposals@[i]@),
            cast: self.cast_records@.to_set(),
        }
    }
}

impl Dao {
    pub open spec fn well_formed(self) -> bool {
        self@.members.no_duplicates()
    }

    /// The local id the next accepted creation will take.
    pub open spec fn next_id(self) -> int {
        self@.proposals.len() as int
    }

    /// Builds the organization and registers it as a member of the parent
    /// governance system; a parent refusal is surfaced unchanged and no
    /// organization is built.
    pub fn new<C: SuperDaoClient>(name: String, client: &mut C) -> (r: Result<Dao, DaoError>)
        ensures
            match r {
                Ok(dao) => {
                    &&& final(client).events() == old(client).events().push(
                        UpstreamEvent::Registered,
                    )
                    &&& dao@.name == name@
                    &&& dao@.members == Seq::<AccountId>::empty()
                    &&& dao@.proposals == Seq::<ProposalView>::empty()
                    &&& dao@.cast == Set::<(AccountId, u32)>::empty()
                    &&& dao.well_formed()
                },
                Err(_) => final(client).events() == old(client).events(),
            },
    {
        match client.register_dao() {
            Ok(()) => {
                let dao = Dao {
                    name,
                    registry: MembershipRegistry::new(),
                    proposals: Vec::new(),
                    cast_records: Vec::new(),
                };
                proof {
                    assert(dao@.proposals =~= Seq::<ProposalView>::empty());
                    assert(dao@.cast =~= Set::<(AccountId, u32)>::empty());
                }
                Ok(dao)
            },
            Err(e) => Err(e),
        }
    }

    pub fn get_name(&self) -> (r: String)
        ensures
            r@ == self@.name,
    {
        self.name.clone()
    }

    /// Adds `caller` to the membership set; a handle already present is
    /// refused and nothing changes.
    pub fn register_voter(&mut self, caller: AccountId) -> (r: Result<(), DaoError>)
        requires
            old(self).well_formed(),
        ensures
            final(self).well_formed(),
            final(self)@.name == old(self)@.name,
            final(self)@.proposals == old(self)@.proposals,
            final(self)@.cast == old(self)@.cast,
            old(self)@.members.contains(caller) ==> r == Err::<(), DaoError>(
                DaoError::VoterAlreadyRegistered,
            ) && final(self)@.members == old(self)@.members,
            !old(self)@.members.contains(caller) ==> r == Ok::<(), DaoError>(())
                && final(self)@.members == old(self)@.members.push(caller),
    {
        self.registry.register(caller)
    }

    /// Removes `caller` from the membership set by swap-removal; a handle
    /// that is absent is refused.
    pub fn deregister_voter(&mut self, caller: AccountId) -> (r: Result<(), DaoError>)
        requires
            old(self).well_formed(),
        ensures
            final(self).well_formed(),
            final(self)@.name == old(self)@.name,
            final(self)@.proposals == old(self)@.proposals,
            final(self)@.cast == old(self)@.cast,
            !old(self)@.members.contains(caller) ==> r == Err::<(), DaoError>(
                DaoError::VoterNotRegistered,
            ) && final(self)@.members == old(self)@.members,
            old(self)@.members.contains(caller) ==> {
                &&& r == Ok::<(), DaoError>(())
                &&& final(self)@.members == MembershipRegistry::swap_removed(
                    old(self)@.members,
                    old(self)@.members.index_of(caller),
                )
                &&& !final(self)@.members.contains(caller)
                &&& forall|w: AccountId| w != caller
                    ==> (final(self)@.members.contains(w) <==> old(self)@.members.contains(w))
            },
    {
        self.registry.deregister(caller)
    }

    /// Pure membership query; never fails.
    pub fn has_voter(&self, voter: AccountId) -> (b: bool)
        ensures
            b == self@.members.contains(voter),
    {
        self.registry.contains(voter)
    }

    /// Stores a contract-call proposal for a registered member under the
    /// next local id, with zeroed counters and `Active` status. The
    /// caller-supplied selector and input bytes are stored unmodified and
    /// never truncated: a later read returns them identically.
    pub fn create_contract_call_proposal(&mut self, caller: AccountId, call: ContractCall) -> (r:
        Result<u32, DaoError>)
        requires
            old(self).well_formed(),
            old(self).next_id() < u32::MAX,
        ensures
            final(self).well_formed(),
            final(self)@.name == old(self)@.name,
            final(self)@.members == old(self)@.members,
            final(self)@.cast == old(self)@.cast,
            !old(self)@.members.contains(caller) ==> r == Err::<u32, DaoError>(
                DaoError::VoterNotRegistered,
            ) && final(self)@ == old(self)@,
            old(self)@.members.contains(caller) ==> ({
                &&& r == Ok::<u32, DaoError>(old(self).next_id() as u32)
                &&& final(self)@.proposals == old(self)@.proposals.push(
                    new_record(CallView::Contract(call@)),
                )
            }),
    {
        if !self.registry.contains(caller) {
            return Err(DaoError::VoterNotRegistered);
        }
        let local_id = self.proposals.len() as u32;
        self.proposals.push(
            Proposal {
                action: Call::Contract(call),
                status: ProposalStatus::Active,
                votes_yes: 0,
                votes_no: 0,
            },
        );
        proof {
            assert(self@.proposals =~= old(self)@.proposals.push(
                new_record(CallView::Contract(call@)),
            ));
        }
        Ok(local_id)
    }

    /// Submits a cross-chain proposal upstream on behalf of a registered
    /// member, and on acceptance mirrors it locally under the next local id
    /// with zeroed counters and `Active` status. The message bytes are
    /// stored and forwarded unmodified. A parent refusal is surfaced
    /// unchanged and leaves the mirror exactly as it was.
    pub fn create_superdao_cross_chain_proposal<C: SuperDaoClient>(
        &mut self,
        caller: AccountId,
        client: &mut C,
        target_chain_id: u32,
        call_data: Vec<u8>,
    ) -> (r: Result<u32, DaoError>)
        requires
            old(self).well_formed(),
            old(self).next_id() < u32::MAX,
        ensures
            final(self).well_formed(),
            final(self)@.name == old(self)@.name,
            final(self)@.members == old(self)@.members,
            final(self)@.cast == old(self)@.cast,
            !old(self)@.members.contains(caller) ==> r == Err::<u32, DaoError>(
                DaoError::VoterNotRegistered,
            ) && final(self)@ == old(self)@ && final(client).events() == old(client).events(),
            old(self)@.members.contains(caller) ==> match r {
                Ok(id) => {
                    &&& id == old(self).next_id()
                    &&& exists|uid: u32|
                        final(client).events() == old(client).events().push(
                            UpstreamEvent::Proposed {
                                call: CallView::Chain(
                                    ChainCallView {
                                        chain_id: target_chain_id,
                                        message: call_data@,
                                    },
                                ),
                                id: uid,
                            },
                        )
                    &&& final(self)@.proposals == old(self)@.proposals.push(
                        new_record(
                            CallView::Chain(
                                ChainCallView { chain_id: target_chain_id, message: call_data@ },
                            ),
                        ),
                    )
                },
                Err(_) => final(self)@ == old(self)@ && final(client).events() == old(
                    client,
                ).events(),
            },
    {
        if !self.registry.contains(caller) {
            return Err(DaoError::VoterNotRegistered);
        }
        let local_id = self.proposals.len() as u32;
        let ghost data = call_data@;
        let message_copy = copy_bytes(&call_data);
        match client.create_proposal(Call::chain(target_chain_id, call_data)) {
            Ok(_) => {
                self.proposals.push(
                    Proposal {
                        action: Call::Chain(
                            ChainCall { chain_id: target_chain_id, message: message_copy },
                        ),
                        status: ProposalStatus::Active,
                        votes_yes: 0,
                        votes_no: 0,
                    },
                );
                proof {
                    assert(self@.proposals =~= old(self)@.proposals.push(
                        new_record(
                            CallView::Chain(
                                ChainCallView { chain_id: target_chain_id, message: data },
                            ),
                        ),
                    ));
                }
                Ok(local_id)
            },
            Err(e) => Err(e),
        }
    }

    /// Records a registered member's vote in the local mirror and casts the
    /// same vote upstream, at most once per (voter, proposal): a pair that
    /// has already voted is refused with `AlreadyVoted`, with no local
    /// change and no upstream call. Otherwise the upstream call decides: a
    /// refusal is surfaced unchanged and leaves the mirror untouched; on
    /// acceptance the matching counter rises by one (stopping at the top of
    /// `u32`) and the pair is marked as having voted.
    pub fn vote_proposal<C: SuperDaoClient>(
        &mut self,
        caller: AccountId,
        client: &mut C,
        proposal_id: u32,
        vote: bool,
    ) -> (r: Result<(), DaoError>)
        requires
            old(self).well_formed(),
        ensures
            final(self).well_formed(),
            final(self)@.name == old(self)@.name,
            final(self)@.members == old(self)@.members,
            !old(self)@.members.contains(caller) ==> r == Err::<(), DaoError>(
                DaoError::VoterNotRegistered,
            ) && final(self)@ == old(self)@ && final(client).events() == old(client).events(),
            old(self)@.members.contains(caller) && proposal_id >= old(self).next_id() ==> r
                == Err::<(), DaoError>(DaoError::ProposalNotFound) && final(self)@ == old(self)@
                && final(client).events() == old(client).events(),
            old(self)@.members.contains(caller) && proposal_id < old(self).next_id() && old(
                self,
            )@.cast.contains((caller, proposal_id)) ==> r == Err::<(), DaoError>(
                DaoError::AlreadyVoted,
            ) && final(self)@ == old(self)@ && final(client).events() == old(client).events(),
            old(self)@.members.contains(caller) && proposal_id < old(self).next_id() && !old(
                self,
            )@.cast.contains((caller, proposal_id)) ==> match r {
                Ok(()) => {
                    &&& final(client).events() == old(client).events().push(
                        UpstreamEvent::Voted {
                            id: proposal_id,
                            vote: if vote {
                                Vote::Aye
                            } else {
                                Vote::Nay
                            },
                        },
                    )
                    &&& final(self)@.proposals == old(self)@.proposals.update(
                        proposal_id as int,
                        ProposalView {
                            votes_yes: if vote {
                                sat_inc(old(self)@.proposals[proposal_id as int].votes_yes)
                            } else {
                                old(self)@.proposals[proposal_id as int].votes_yes
                            },
                            votes_no: if vote {
                                old(self)@.proposals[proposal_id as int].votes_no
                            } else {
                                sat_inc(old(self)@.proposals[proposal_id as int].votes_no)
                            },
                            ..old(self)@.proposals[proposal_id as int]
                        },
                    )
                    &&& final(self)@.cast == old(self)@.cast.insert((caller, proposal_id))
                },
                Err(_) => final(self)@ == old(self)@ && final(client).events() == old(
                    client,
                ).events(),
            },
    {
        if !self.registry.contains(caller) {
            return Err(DaoError::VoterNotRegistered);
        }
        let idx = proposal_id as usize;
        if idx >= self.proposals.len() {
            return Err(DaoError::ProposalNotFound);
        }
        if self.has_cast(caller, proposal_id) {
            return Err(DaoError::AlreadyVoted);
        }
        let vote_kind = if vote {
            Vote::Aye
        } else {
            Vote::Nay
        };
        match client.vote(proposal_id, vote_kind) {
            Ok(()) => {
                let mut p = self.proposals.remove(idx);
                if vote {
                    p.votes_yes = if p.votes_yes == u32::MAX {
                        p.votes_yes
                    } else {
                        p.votes_yes + 1
                    };
                } else {
                    p.votes_no = if p.votes_no == u32::MAX {
                        p.votes_no
                    } else {
                        p.votes_no + 1
                    };
                }
                self.proposals.insert(idx, p);
                self.cast_records.push((caller, proposal_id));
                proof {
                    let before = old(self)@.proposals;
                    let target = ProposalView {
                        votes_yes: if vote {
                            sat_inc(before[proposal_id as int].votes_yes)
                        } else {
                            before[proposal_id as int].votes_yes
                        },
                        votes_no: if vote {
                            before[proposal_id as int].votes_no
                        } else {
                            sat_inc(before[proposal_id as int].votes_no)
                        },
                        ..before[proposal_id as int]
                    };
                    assert(self@.proposals =~= before.update(proposal_id as int, target));
                    let olds = old(self).cast_records@;
                    let news = self.cast_records@;
                    let pair = (caller, proposal_id);
                    assert forall|x: (AccountId, u32)| #[trigger] news.contains(x)
                        implies olds.contains(x) || x == pair by {
                        let j = choose|j: int| 0 <= j < news.len() && news[j] == x;
                        if j < olds.len() {
                            assert(olds[j] == x);
                        }
                    }
                    assert forall|x: (AccountId, u32)| olds.contains(x) || x == pair
                        implies #[trigger] news.contains(x) by {
                        if olds.contains(x) {
                            let j = choose|j: int| 0 <= j < olds.len() && olds[j] == x;
                            assert(news[j] == x);
                        } else {
                            assert(news[olds.len() as int] == x);
                        }
                    }
                    assert(news.to_set() =~= olds.to_set().insert(pair));
                }
                Ok(())
            },
            Err(e) => Err(e),
        }
    }

    /// A value-copy snapshot of the local record of a proposal, its stored
    /// action byte-for-byte identical to what was supplied at creation; an
    /// id never assigned is refused.
    pub fn get_proposal(&self, proposal_id: u32) -> (r: Result<Proposal, DaoError>)
        ensures
            proposal_id >= self.next_id() ==> (r matches Err(e)
                && e == DaoError::ProposalNotFound),
            proposal_id < self.next_id() ==> (r matches Ok(p)
                && p@ == self@.proposals[proposal_id as int]),
    {
        let idx = proposal_id as usize;
        if idx >= self.proposals.len() {
            return Err(DaoError::ProposalNotFound);
        }
        let p = &self.proposals[idx];
        Ok(
            Proposal {
                action: copy_call(&p.action),
                status: p.status,
                votes_yes: p.votes_yes,
                votes_no: p.votes_no,
            },
        )
    }

    /// Whether (voter, proposal) already voted.
    fn has_cast(&self, voter: AccountId, proposal_id: u32) -> (b: bool)
        ensures
            b == self@.cast.contains((voter, proposal_id)),
    {
        let n = self.cast_records.len();
        let mut i: usize = 0;
        while i < n
            invariant
                i <= n,
                n == self.cast_records@.len(),
                forall|j: int| 0 <= j < i ==> self.cast_records@[j] != (voter, proposal_id),
            decreases n - i,
        {
            let rec = self.cast_records[i];
            if rec.0 == voter && rec.1 == proposal_id {
                return true;
            }
            i = i + 1;
        }
        false
    }
}

} // verus!
