use vstd::prelude::*;

use crate::calls::{Call, CallView, ChainCallView, ContractCall};
use crate::errors::DaoError;
use crate::membership::MembershipRegistry;
use crate::types::{AccountId, Vote};
use crate::upstream::{SuperDaoClient, UpstreamEvent};

verus! {

/// A member organization of the parent governance system that keeps no
/// local proposal store: every proposal and every vote of a registered
/// member is forwarded directly upstream. The calling account and the
/// upstream capability are explicit parameters of each operation.
pub struct Dao {
    name: String,
    registry: MembershipRegistry,
}

impl Dao {
    pub closed spec fn members(self) -> Seq<AccountId> {
        self.registry.members()
    }

    pub closed spec fn well_formed(self) -> bool {
        self.registry.well_formed()
    }

    pub closed spec fn name_spec(self) -> Seq<char> {
        self.name@
    }

    pub fn new(name: String) -> (r: Dao)
        ensures
            r.name_spec() == name@,
            r.members() == Seq::<AccountId>::empty(),
            r.well_formed(),
    {
        Dao { name, registry: MembershipRegistry::new() }
    }

    pub fn get_name(&self) -> (r: String)
        ensures
            r@ == self.name_spec(),
    {
        self.name.clone()
    }

    /// Adds `caller` to the membership set; a handle already present is
    /// refused and nothing changes.
    pub fn register_voter(&mut self, caller: AccountId) -> (r: Result<(), DaoError>)
        requires
            old(self).well_formed(),
        ensures
            final(self).well_formed(),
            final(self).name_spec() == old(self).name_spec(),
            old(self).members().contains(caller) ==> r == Err::<(), DaoError>(
                DaoError::VoterAlreadyRegistered,
            ) && final(self).members() == old(self).members(),
            !old(self).members().contains(caller) ==> r == Ok::<(), DaoError>(())
                && final(self).members() == old(self).members().push(caller),
    {
        self.registry.register(caller)
    }

    /// Removes `caller` from the membership set by swap-removal; a handle
    /// that is absent is refused.
    pub fn deregister_voter(&mut self, caller: AccountId) -> (r: Result<(), DaoError>)
        requires
            old(self).well_formed(),
        ensures
            final(self).well_formed(),
            final(self).name_spec() == old(self).name_spec(),
            !old(self).members().contains(caller) ==> r == Err::<(), DaoError>(
                DaoError::VoterNotRegistered,
            ) && final(self).members() == old(self).members(),
            old(self).members().contains(caller) ==> {
                &&& r == Ok::<(), DaoError>(())
                &&& final(self).members() == MembershipRegistry::swap_removed(
                    old(self).members(),
                    old(self).members().index_of(caller),
                )
                &&& !final(self).members().contains(caller)
                &&& forall|w: AccountId| w != caller
                    ==> (final(self).members().contains(w) <==> old(self).members().contains(w))
            },
    {
        self.registry.deregister(caller)
    }

    /// Pure membership query; never fails.
    pub fn has_voter(&self, voter: AccountId) -> (b: bool)
        ensures
            b == self.members().contains(voter),
    {
        self.registry.contains(voter)
    }

    /// Forwards a contract-call proposal upstream on behalf of a registered
    /// member. The caller-supplied selector and input bytes reach the parent
    /// unmodified; an unregistered caller is refused before the parent is
    /// contacted, and a parent refusal is surfaced unchanged.
    pub fn create_contract_call_proposal<C: SuperDaoClient>(
        &self,
        caller: AccountId,
        client: &mut C,
        call: ContractCall,
    ) -> (r: Result<(), DaoError>)
        ensures
            !self.members().contains(caller) ==> r == Err::<(), DaoError>(
                DaoError::VoterNotRegistered,
            ) && final(client).events() == old(client).events(),
            self.members().contains(caller) ==> match r {
                Ok(()) => exists|id: u32|
                    final(client).events() == old(client).events().push(
                        UpstreamEvent::Proposed { call: CallView::Contract(call@), id },
                    ),
                Err(_) => final(client).events() == old(client).events(),
            },
    {
        if !self.registry.contains(caller) {
            return Err(DaoError::VoterNotRegistered);
        }
        match client.create_proposal(Call::Contract(call)) {
            Ok(_) => Ok(()),
            Err(e) => Err(e),
        }
    }

    /// Forwards a cross-chain proposal upstream on behalf of a registered
    /// member; the opaque message bytes reach the parent unmodified.
    pub fn create_superdao_cross_chain_proposal<C: SuperDaoClient>(
        &self,
        caller: AccountId,
        client: &mut C,
        chain_id: u32,
        message: Vec<u8>,
    ) -> (r: Result<(), DaoError>)
        ensures
            !self.members().contains(caller) ==> r == Err::<(), DaoError>(
                DaoError::VoterNotRegistered,
            ) && final(client).events() == old(client).events(),
            self.members().contains(caller) ==> match r {
                Ok(()) => exists|id: u32|
                    final(client).events() == old(client).events().push(
                        UpstreamEvent::Proposed {
                            call: CallView::Chain(ChainCallView { chain_id, message: message@ }),
                            id,
                        },
                    ),
                Err(_) => final(client).events() == old(client).events(),
            },
    {
        if !self.registry.contains(caller) {
            return Err(DaoError::VoterNotRegistered);
        }
        match client.create_proposal(Call::chain(chain_id, message)) {
            Ok(_) => Ok(()),
            Err(e) => Err(e),
        }
    }

    /// Casts a registered member's vote on an upstream proposal: approval
    /// becomes an upstream `Aye`, rejection an upstream `Nay`.
    pub fn vote_proposal<C: SuperDaoClient>(
        &self,
        caller: AccountId,
        client: &mut C,
        proposal_id: u32,
        approve: bool,
    ) -> (r: Result<(), DaoError>)
        ensures
            !self.members().contains(caller) ==> r == Err::<(), DaoError>(
                DaoError::VoterNotRegistered,
            ) && final(client).events() == old(client).events(),
            self.members().contains(caller) ==> match r {
                Ok(()) => final(client).events() == old(client).events().push(
                    UpstreamEvent::Voted {
                        id: proposal_id,
                        vote: if approve {
                            Vote::Aye
                        } else {
                            Vote::Nay
                        },
                    },
                ),
                Err(_) => final(client).events() == old(client).events(),
            },
    {
        if !self.registry.contains(caller) {
            return Err(DaoError::VoterNotRegistered);
        }
        let vote = if approve {
            Vote::Aye
        } else {
            Vote::Nay
        };
        client.vote(proposal_id, vote)
    }
}

} // verus!
