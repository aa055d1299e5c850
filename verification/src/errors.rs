use vstd::prelude::*;

verus! {

/// Every failure a governance operation can report. All of these are
/// recoverable by the caller; no operation panics.
#[derive(Debug, PartialEq, Eq, Clone, Copy)]
pub enum DaoError {
    /// The caller is already a registered voter.
    VoterAlreadyRegistered,
    /// The caller is not a registered voter.
    VoterNotRegistered,
    /// The voter has already voted on this proposal.
    VoterAlreadyVoted,
    /// No proposal with this id exists (or it was removed).
    ProposalDoesNotExist,
    /// The prevote period of this proposal has not ended yet.
    PrevotePeriodIsNotEnded,
    /// No contract address was available for the call.
    NoContractAddress,
    /// The voter has already voted on this proposal.
    AlreadyVoted,
    /// No proposal with this id exists in the local mirror.
    ProposalNotFound,
    /// The voting period of this proposal has not ended yet.
    VotingPeriodNotEnded,
    /// The upstream governance system or the token ledger refused a call.
    UpstreamRefused,
}

} // verus!
