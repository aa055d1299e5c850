use vstd::prelude::*;

use crate::calls::{Call, CallView};
use crate::errors::DaoError;
use crate::types::Vote;

verus! {

/// One request the parent governance system has accepted.
#[verifier::ext_equal]
pub enum UpstreamEvent {
    /// This organization registered itself as a member of the parent.
    Registered,
    /// A proposal was submitted and accepted under the upstream id.
    Proposed { call: CallView, id: u32 },
    /// A consolidated vote was cast on an upstream proposal.
    Voted { id: u32, vote: Vote },
}

/// The capability to reach the parent governance system; the engine depends
/// only on this interface and an implementation performs the actual calls.
///
/// `events()` abstracts an implementation as the ordered log of requests the
/// parent has accepted so far. Every method either appends exactly its own
/// request to that log and succeeds, or refuses, changes nothing, and
/// surfaces its error to the caller unchanged.
pub trait SuperDaoClient {
    spec fn events(&self) -> Seq<UpstreamEvent>;

    /// Registers this organization as a member of the parent system.
    fn register_dao(&mut self) -> (r: Result<(), DaoError>)
        ensures
            r is Ok ==> final(self).events() == old(self).events().push(
                UpstreamEvent::Registered,
            ),
            r is Err ==> final(self).events() == old(self).events(),
    ;

    /// Submits a proposal; on success the parent returns the upstream id it
    /// assigned to it.
    fn create_proposal(&mut self, call: Call) -> (r: Result<u32, DaoError>)
        ensures
            r matches Ok(id) ==> final(self).events() == old(self).events().push(
                UpstreamEvent::Proposed { call: call@, id },
            ),
            r is Err ==> final(self).events() == old(self).events(),
    ;

    /// Casts a consolidated vote on an upstream proposal.
    fn vote(&mut self, proposal_id: u32, vote: Vote) -> (r: Result<(), DaoError>)
        ensures
            r is Ok ==> final(self).events() == old(self).events().push(
                UpstreamEvent::Voted { id: proposal_id, vote },
            ),
            r is Err ==> final(self).events() == old(self).events(),
    ;
}

/// An accepted request as an in-memory parent keeps it.
pub enum AcceptedRequest {
    Registered,
    Proposed { call: Call, id: u32 },
    Voted { id: u32, vote: Vote },
}

impl View for AcceptedRequest {
    type V = UpstreamEvent;

    open spec fn view(&self) -> UpstreamEvent {
        match self {
            AcceptedRequest::Registered => UpstreamEvent::Registered,
            AcceptedRequest::Proposed { call, id } => UpstreamEvent::Proposed {
                call: call@,
                id: *id,
            },
            AcceptedRequest::Voted { id, vote } => UpstreamEvent::Voted { id: *id, vote: *vote },
        }
    }
}

/// An in-process parent governance system: it accepts every well-formed
/// request, assigns upstream proposal ids sequentially, and keeps the
/// accepted requests readable, so that whole governance flows can run and
/// be inspected without a real parent.
pub struct InMemorySuperDao {
    next_id: u32,
    accepted: Vec<AcceptedRequest>,
}

impl InMemorySuperDao {
    pub fn new() -> (r: InMemorySuperDao)
        ensures
            r.events() == Seq::<UpstreamEvent>::empty(),
    {
        InMemorySuperDao { next_id: 0, accepted: Vec::new() }
    }

    /// How many requests have been accepted.
    pub fn accepted_len(&self) -> (r: usize)
        ensures
            r == self.events().len(),
    {
        self.accepted.len()
    }

    /// The i-th accepted request, oldest first.
    pub fn accepted_at(&self, i: usize) -> (r: &AcceptedRequest)
        requires
            i < self.events().len(),
        ensures
            r@ == self.events()[i as int],
    {
        &self.accepted[i]
    }
}

/// A parent governance system that refuses every request: what an engine
/// does on upstream failure (surface the error, change no local state) can
/// be exercised against it.
pub struct RefusingSuperDao {
    refused: u32,
}

impl RefusingSuperDao {
    /// How many requests have been refused so far (stopping at the top of
    /// `u32`).
    pub closed spec fn refused_count(&self) -> u32 {
        self.refused
    }

    pub fn new() -> (r: RefusingSuperDao)
        ensures
            r.events() == Seq::<UpstreamEvent>::empty(),
            r.refused_count() == 0,
    {
        RefusingSuperDao { refused: 0 }
    }

    /// How many requests have been refused so far.
    pub fn refused_len(&self) -> (r: u32)
        ensures
            r == self.refused_count(),
    {
        self.refused
    }
}

impl SuperDaoClient for RefusingSuperDao {
    closed spec fn events(&self) -> Seq<UpstreamEvent> {
        Seq::empty()
    }

    fn register_dao(&mut self) -> (r: Result<(), DaoError>) {
        self.refused = if self.refused == u32::MAX {
            self.refused
        } else {
            self.refused + 1
        };
        Err(DaoError::UpstreamRefused)
    }

    fn create_proposal(&mut self, call: Call) -> (r: Result<u32, DaoError>) {
        self.refused = if self.refused == u32::MAX {
            self.refused
        } else {
            self.refused + 1
        };
        Err(DaoError::UpstreamRefused)
    }

    fn vote(&mut self, proposal_id: u32, vote: Vote) -> (r: Result<(), DaoError>) {
        self.refused = if self.refused == u32::MAX {
            self.refused
        } else {
            self.refused + 1
        };
        Err(DaoError::UpstreamRefused)
    }
}

impl SuperDaoClient for InMemorySuperDao {
    closed spec fn events(&self) -> Seq<UpstreamEvent> {
        Seq::new(self.accepted@.len(), |i: int| self.accepted@[i]@)
    }

    fn register_dao(&mut self) -> (r: Result<(), DaoError>) {
        self.accepted.push(AcceptedRequest::Registered);
        proof {
            assert(self.events() =~= old(self).events().push(UpstreamEvent::Registered));
        }
        Ok(())
    }

    fn create_proposal(&mut self, call: Call) -> (r: Result<u32, DaoError>) {
        if self.next_id == u32::MAX {
            return Err(DaoError::UpstreamRefused);
        }
        let id = self.next_id;
        self.next_id = self.next_id + 1;
        self.accepted.push(AcceptedRequest::Proposed { call, id });
        proof {
            assert(self.events() =~= old(self).events().push(
                UpstreamEvent::Proposed { call: call@, id },
            ));
        }
        Ok(id)
    }

    fn vote(&mut self, proposal_id: u32, vote: Vote) -> (r: Result<(), DaoError>) {
        self.accepted.push(AcceptedRequest::Voted { id: proposal_id, vote });
        proof {
            assert(self.events() =~= old(self).events().push(
                UpstreamEvent::Voted { id: proposal_id, vote },
            ));
        }
        Ok(())
    }
}

} // verus!
