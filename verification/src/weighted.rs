use std::collections::HashMap;
use vstd::prelude::*;

use crate::calls::{Call, CallView, ChainCallView, ContractCall};
use crate::errors::DaoError;
use crate::ledger::{balance_in, TokenLedger};
use crate::membership::MembershipRegistry;
use crate::types::{AccountId, Balance, BlockNumber, Vote};
use crate::upstream::{SuperDaoClient, UpstreamEvent};

verus! {

/// How many time-counter ticks a prevote window stays open.
pub const VOTING_PERIOD: u32 = 100;

/// Tokens minted to each newly registered voter.
pub const MINT_AMOUNT: u128 = 100;

/// A per-proposal weighted prevote window: a deadline and the recorded
/// (voter, weight) pairs on each side, append-only until finalization.
/// Weights are captured at submission time; a later balance change does not
/// alter an already-recorded prevote.
pub struct Prevote {
    pub deadline: BlockNumber,
    pub aye_votes: Vec<(AccountId, Balance)>,
    pub nay_votes: Vec<(AccountId, Balance)>,
}

/// Mathematical image of a [`Prevote`].
#[verifier::ext_equal]
pub struct PrevoteView {
    pub deadline: BlockNumber,
    pub ayes: Seq<(AccountId, Balance)>,
    pub nays: Seq<(AccountId, Balance)>,
}

impl View for Prevote {
    type V = PrevoteView;

    open spec fn view(&self) -> PrevoteView {
        PrevoteView { deadline: self.deadline, ayes: self.aye_votes@, nays: self.nay_votes@ }
    }
}

/// Addition on the weight domain that stops at the top instead of
/// overflowing.
pub open spec fn sat_add(a: Balance, b: Balance) -> Balance {
    if a + b > u128::MAX {
        u128::MAX
    } else {
        (a + b) as u128
    }
}

/// Addition on the time domain that stops at the top instead of
/// overflowing.
pub open spec fn sat_add_time(a: BlockNumber, b: BlockNumber) -> BlockNumber {
    if a + b > u32::MAX {
        u32::MAX
    } else {
        (a + b) as u32
    }
}

/// The total weight recorded on one side, summed with saturation.
pub open spec fn weight_sum(votes: Seq<(AccountId, Balance)>) -> Balance
    decreases votes.len(),
{
    if votes.len() == 0 {
        0
    } else {
        sat_add(weight_sum(votes.drop_last()), votes.last().1)
    }
}

/// The mathematical (unbounded) total weight of one side.
pub open spec fn exact_weight_sum(votes: Seq<(AccountId, Balance)>) -> int
    decreases votes.len(),
{
    if votes.len() == 0 {
        0
    } else {
        exact_weight_sum(votes.drop_last()) + votes.last().1
    }
}

/// The saturating total agrees with the mathematical total whenever the
/// latter fits the weight domain — saturation only ever comes in where the
/// true total would overflow.
pub proof fn lemma_weight_sum_exact_when_it_fits(votes: Seq<(AccountId, Balance)>)
    requires
        exact_weight_sum(votes) <= u128::MAX,
    ensures
        weight_sum(votes) == exact_weight_sum(votes),
    decreases votes.len(),
{
    if votes.len() > 0 {
        lemma_weight_sum_nonnegative(votes.drop_last());
        lemma_weight_sum_exact_when_it_fits(votes.drop_last());
    }
}

/// Every side's mathematical total is nonnegative.
proof fn lemma_weight_sum_nonnegative(votes: Seq<(AccountId, Balance)>)
    ensures
        exact_weight_sum(votes) >= 0,
    decreases votes.len(),
{
    if votes.len() > 0 {
        lemma_weight_sum_nonnegative(votes.drop_last());
    }
}

/// The decision rule: the ayes win only with strictly greater total weight;
/// a tie or a nay majority does not pass.
pub open spec fn passes(p: PrevoteView) -> bool {
    weight_sum(p.ayes) > weight_sum(p.nays)
}

/// Sums the weights of one side, saturating instead of overflowing.
fn total_weight(votes: &Vec<(AccountId, Balance)>) -> (r: Balance)
    ensures
        r == weight_sum(votes@),
{
    let mut total: u128 = 0;
    let n = votes.len();
    let mut i: usize = 0;
    while i < n
        invariant
            i <= n,
            n == votes@.len(),
            total == weight_sum(votes@.take(i as int)),
        decreases n - i,
    {
        let w = votes[i].1;
        proof {
            assert(votes@.take(i as int + 1).drop_last() =~= votes@.take(i as int));
            assert(votes@.take(i as int + 1).last() == votes@[i as int]);
        }
        total = if w > u128::MAX - total {
            u128::MAX
        } else {
            total + w
        };
        i = i + 1;
    }
    proof {
        assert(votes@.take(n as int) =~= votes@);
    }
    total
}

/// Mathematical state of the weighted [`Dao`].
#[verifier::ext_equal]
pub struct DaoState {
    pub name: Seq<char>,
    pub members: Seq<AccountId>,
    /// One prevote window per upstream proposal id.
    pub prevotes: Map<u32, PrevoteView>,
}

/// The two-phase weighted governance engine: registered voters (each minted
/// a fixed stake on entry) cast token-weighted prevotes on upstream
/// proposals; once a window's deadline has passed, the tally is decided and
/// a single consolidated `Aye` is cast upstream exactly when the ayes carry
/// strictly more weight. The caller, the time counter, the token ledger and
/// the upstream capability are explicit parameters.
pub struct Dao {
    name: String,
    registry: MembershipRegistry,
    prevotes: HashMap<u32, Prevote>,
}

impl View for Dao {
    type V = DaoState;

    closed spec fn view(&self) -> DaoState {
        DaoState {
            name: self.name@,
            members: self.registry.members(),
            prevotes: Map::new(
                |k: u32| self.prevotes@.contains_key(k),
                |k: u32| self.prevotes@[k]@,
            ),
        }
    }
}

impl Dao {
    pub open spec fn well_formed(self) -> bool {
        self@.members.no_duplicates()
    }

    pub fn new(name: String) -> (r: Dao)
        ensures
            r@.name == name@,
            r@.members == Seq::<AccountId>::empty(),
            r@.prevotes == Map::<u32, PrevoteView>::empty(),
            r.well_formed(),
    {
        let dao = Dao {
            name,
            registry: MembershipRegistry::new(),
            prevotes: HashMap::new(),
        };
        proof {
            assert(dao@.prevotes =~= Map::<u32, PrevoteView>::empty());
        }
        dao
    }

    pub fn name(&self) -> (r: String)
        ensures
            r@ == self@.name,
    {
        self.name.clone()
    }

    /// Registers `caller` and mints the fixed stake to them. A handle
    /// already present is refused; a refused mint fails the registration as
    /// a whole, leaving no membership without tokens.
    pub fn register_voter<L: TokenLedger>(&mut self, caller: AccountId, ledger: &mut L) -> (r:
        Result<(), DaoError>)
        requires
            old(self).well_formed(),
        ensures
            final(self).well_formed(),
            final(self)@.name == old(self)@.name,
            final(self)@.prevotes == old(self)@.prevotes,
            old(self)@.members.contains(caller) ==> r == Err::<(), DaoError>(
                DaoError::VoterAlreadyRegistered,
            ) && final(self)@.members == old(self)@.members && final(ledger).balances() == old(
                ledger,
            ).balances(),
            !old(self)@.members.contains(caller) ==> match r {
                Ok(()) => {
                    &&& final(self)@.members == old(self)@.members.push(caller)
                    &&& balance_in(final(ledger).balances(), caller) == balance_in(
                        old(ledger).balances(),
                        caller,
                    ) + MINT_AMOUNT
                    &&& forall|h: AccountId| h != caller ==> balance_in(
                        final(ledger).balances(),
                        h,
                    ) == balance_in(old(ledger).balances(), h)
                },
                Err(_) => final(self)@.members == old(self)@.members && final(ledger).balances()
                    == old(ledger).balances(),
            },
    {
        if self.registry.contains(caller) {
            return Err(DaoError::VoterAlreadyRegistered);
        }
        match ledger.mint(caller, MINT_AMOUNT) {
            Ok(()) => {
                let reg = self.registry.register(caller);
                proof {
                    assert(reg is Ok);
                }
                Ok(())
            },
            Err(e) => Err(e),
        }
    }

    /// Removes `caller` from the membership set by swap-removal; recorded
    /// prevotes and minted tokens are untouched.
    pub fn deregister_voter(&mut self, caller: AccountId) -> (r: Result<(), DaoError>)
        requires
            old(self).well_formed(),
        ensures
            final(self).well_formed(),
            final(self)@.name == old(self)@.name,
            final(self)@.prevotes == old(self)@.prevotes,
            !old(self)@.members.contains(caller) ==> r == Err::<(), DaoError>(
                DaoError::VoterNotRegistered,
            ) && final(self)@.members == old(self)@.members,
            old(self)@.members.contains(caller) ==> {
                &&& r == Ok::<(), DaoError>(())
                &&& final(self)@.members == MembershipRegistry::swap_removed(
                    old(self)@.members,
                    old(self)@.members.index_of(caller),
                )
                &&& !final(self)@.members.contains(caller)
                &&& forall|w: AccountId| w != caller
                    ==> (final(self)@.members.contains(w) <==> old(self)@.members.contains(w))
            },
    {
        self.registry.deregister(caller)
    }

    /// Pure membership query; never fails.
    pub fn has_voter(&self, voter: AccountId) -> (b: bool)
        ensures
            b == self@.members.contains(voter),
    {
        self.registry.contains(voter)
    }

    /// Submits a cross-chain proposal upstream for a registered member and,
    /// on acceptance, opens an empty prevote window under the upstream id
    /// with deadline `now + VOTING_PERIOD`. A parent refusal is surfaced
    /// unchanged and opens no window.
    pub fn create_superdao_cross_chain_proposal<C: SuperDaoClient>(
        &mut self,
        caller: AccountId,
        client: &mut C,
        now: BlockNumber,
        chain_id: u32,
        message: Vec<u8>,
    ) -> (r: Result<u32, DaoError>)
        requires
            old(self).well_formed(),
        ensures
            final(self).well_formed(),
            final(self)@.name == old(self)@.name,
            final(self)@.members == old(self)@.members,
            !old(self)@.members.contains(caller) ==> r == Err::<u32, DaoError>(
                DaoError::VoterNotRegistered,
            ) && final(self)@ == old(self)@ && final(client).events() == old(client).events(),
            old(self)@.members.contains(caller) ==> match r {
                Ok(id) => {
                    &&& final(client).events() == old(client).events().push(
                        UpstreamEvent::Proposed {
                            call: CallView::Chain(ChainCallView { chain_id, message: message@ }),
                            id,
                        },
                    )
                    &&& final(self)@.prevotes == old(self)@.prevotes.insert(
                        id,
                        PrevoteView {
                            deadline: sat_add_time(now, VOTING_PERIOD),
                            ayes: Seq::<(AccountId, Balance)>::empty(),
                            nays: Seq::<(AccountId, Balance)>::empty(),
                        },
                    )
                },
                Err(_) => final(self)@ == old(self)@ && final(client).events() == old(
                    client,
                ).events(),
            },
    {
        if !self.registry.contains(caller) {
            return Err(DaoError::VoterNotRegistered);
        }
        match client.create_proposal(Call::chain(chain_id, message)) {
            Ok(id) => {
                self.open_window(id, now);
                Ok(id)
            },
            Err(e) => Err(e),
        }
    }

    /// Submits a contract-call proposal upstream for a registered member
    /// and, on acceptance, opens an empty prevote window under the upstream
    /// id with deadline `now + VOTING_PERIOD`.
    pub fn create_contract_call_proposal<C: SuperDaoClient>(
        &mut self,
        caller: AccountId,
        client: &mut C,
        now: BlockNumber,
        call: ContractCall,
    ) -> (r: Result<u32, DaoError>)
        requires
            old(self).well_formed(),
        ensures
            final(self).well_formed(),
            final(self)@.name == old(self)@.name,
            final(self)@.members == old(self)@.members,
            !old(self)@.members.contains(caller) ==> r == Err::<u32, DaoError>(
                DaoError::VoterNotRegistered,
            ) && final(self)@ == old(self)@ && final(client).events() == old(client).events(),
            old(self)@.members.contains(caller) ==> match r {
                Ok(id) => {
                    &&& final(client).events() == old(client).events().push(
                        UpstreamEvent::Proposed { call: CallView::Contract(call@), id },
                    )
                    &&& final(self)@.prevotes == old(self)@.prevotes.insert(
                        id,
                        PrevoteView {
                            deadline: sat_add_time(now, VOTING_PERIOD),
                            ayes: Seq::<(AccountId, Balance)>::empty(),
                            nays: Seq::<(AccountId, Balance)>::empty(),
                        },
                    )
                },
                Err(_) => final(self)@ == old(self)@ && final(client).events() == old(
                    client,
                ).events(),
            },
    {
        if !self.registry.contains(caller) {
            return Err(DaoError::VoterNotRegistered);
        }
        match client.create_proposal(Call::Contract(call)) {
            Ok(id) => {
                self.open_window(id, now);
                Ok(id)
            },
            Err(e) => Err(e),
        }
    }

    /// Opens an empty prevote window under `id`, closing `VOTING_PERIOD`
    /// ticks after `now`.
    fn open_window(&mut self, id: u32, now: BlockNumber)
        ensures
            final(self)@.name == old(self)@.name,
            final(self)@.members == old(self)@.members,
            final(self)@.prevotes == old(self)@.prevotes.insert(
                id,
                PrevoteView {
                    deadline: sat_add_time(now, VOTING_PERIOD),
                    ayes: Seq::<(AccountId, Balance)>::empty(),
                    nays: Seq::<(AccountId, Balance)>::empty(),
                },
            ),
    {
        let deadline = if VOTING_PERIOD > u32::MAX - now {
            u32::MAX
        } else {
            now + VOTING_PERIOD
        };
        let window = Prevote { deadline, aye_votes: Vec::new(), nay_votes: Vec::new() };
        self.prevotes.insert(id, window);
        proof {
            assert(self@.prevotes =~= old(self)@.prevotes.insert(
                id,
                PrevoteView {
                    deadline: sat_add_time(now, VOTING_PERIOD),
                    ayes: Seq::<(AccountId, Balance)>::empty(),
                    nays: Seq::<(AccountId, Balance)>::empty(),
                },
            ));
        }
    }

    /// Records a registered member's prevote on an open window, weighted by
    /// the member's token balance as the ledger reports it now. The pair is
    /// appended to the chosen side; nothing blocks a voter from submitting
    /// again, and deduplication is the caller's concern.
    pub fn submit_prevote<L: TokenLedger>(
        &mut self,
        caller: AccountId,
        ledger: &L,
        proposal_id: u32,
        approved: bool,
    ) -> (r: Result<(), DaoError>)
        requires
            old(self).well_formed(),
        ensures
            final(self).well_formed(),
            final(self)@.name == old(self)@.name,
            final(self)@.members == old(self)@.members,
            !old(self)@.members.contains(caller) ==> r == Err::<(), DaoError>(
                DaoError::VoterNotRegistered,
            ) && final(self)@ == old(self)@,
            old(self)@.members.contains(caller) && !old(self)@.prevotes.contains_key(proposal_id)
                ==> r == Err::<(), DaoError>(DaoError::ProposalDoesNotExist) && final(self)@ == old(
                self,
            )@,
            old(self)@.members.contains(caller) && old(self)@.prevotes.contains_key(proposal_id)
                ==> ({
                let w = balance_in(ledger.balances(), caller);
                let p = old(self)@.prevotes[proposal_id];
                r == Ok::<(), DaoError>(()) && final(self)@.prevotes == old(
                    self,
                )@.prevotes.insert(
                    proposal_id,
                    PrevoteView {
                        deadline: p.deadline,
                        ayes: if approved {
                            p.ayes.push((caller, w))
                        } else {
                            p.ayes
                        },
                        nays: if approved {
                            p.nays
                        } else {
                            p.nays.push((caller, w))
                        },
                    },
                )
            }),
    {
        if !self.registry.contains(caller) {
            return Err(DaoError::VoterNotRegistered);
        }
        let weight = ledger.balance_of(caller);
        match self.prevotes.remove(&proposal_id) {
            None => Err(DaoError::ProposalDoesNotExist),
            Some(window) => {
                let mut window = window;
                if approved {
                    window.aye_votes.push((caller, weight));
                } else {
                    window.nay_votes.push((caller, weight));
                }
                self.prevotes.insert(proposal_id, window);
                proof {
                    let p = old(self)@.prevotes[proposal_id];
                    assert(self@.prevotes =~= old(self)@.prevotes.insert(
                        proposal_id,
                        PrevoteView {
                            deadline: p.deadline,
                            ayes: if approved {
                                p.ayes.push((caller, weight))
                            } else {
                                p.ayes
                            },
                            nays: if approved {
                                p.nays
                            } else {
                                p.nays.push((caller, weight))
                            },
                        },
                    ));
                }
                Ok(())
            },
        }
    }

    /// Finalizes a prevote window. Finalization is not membership-gated:
    /// it is refused only while `now` is before the deadline, or when no
    /// window exists for the id. At or after the deadline the window is
    /// read (never changed) and a single consolidated `Aye` goes upstream
    /// exactly when the ayes carry strictly more weight — a tie or a nay
    /// majority casts nothing and still succeeds. A parent refusal is
    /// surfaced unchanged.
    pub fn vote_proposal<C: SuperDaoClient>(
        &self,
        client: &mut C,
        proposal_id: u32,
        now: BlockNumber,
    ) -> (r: Result<(), DaoError>)
        ensures
            !self@.prevotes.contains_key(proposal_id) ==> r == Err::<(), DaoError>(
                DaoError::ProposalDoesNotExist,
            ) && final(client).events() == old(client).events(),
            self@.prevotes.contains_key(proposal_id)
                && now < self@.prevotes[proposal_id].deadline ==> r == Err::<(), DaoError>(
                DaoError::VotingPeriodNotEnded,
            ) && final(client).events() == old(client).events(),
            self@.prevotes.contains_key(proposal_id)
                && now >= self@.prevotes[proposal_id].deadline ==> ({
                let p = self@.prevotes[proposal_id];
                if passes(p) {
                    match r {
                        Ok(()) => final(client).events() == old(client).events().push(
                            UpstreamEvent::Voted { id: proposal_id, vote: Vote::Aye },
                        ),
                        Err(_) => final(client).events() == old(client).events(),
                    }
                } else {
                    r == Ok::<(), DaoError>(()) && final(client).events() == old(client).events()
                }
            }),
    {
        match self.prevotes.get(&proposal_id) {
            None => Err(DaoError::ProposalDoesNotExist),
            Some(window) => {
                if now < window.deadline {
                    return Err(DaoError::VotingPeriodNotEnded);
                }
                let total_aye = total_weight(&window.aye_votes);
                let total_nay = total_weight(&window.nay_votes);
                if total_aye > total_nay {
                    match client.vote(proposal_id, Vote::Aye) {
                        Ok(()) => Ok(()),
                        Err(e) => Err(e),
                    }
                } else {
                    Ok(())
                }
            },
        }
    }
}

} // verus!
