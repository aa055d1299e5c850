use vstd::prelude::*;

verus! {

/// An opaque, comparable voter handle. Account representation is a
/// collaborator concern; the engine only ever compares handles for equality.
pub type AccountId = u64;

/// An amount of fungible tokens; prevote weights live in this domain.
pub type Balance = u128;

/// A monotonically non-decreasing time counter sampled by the caller at the
/// start of each operation.
pub type BlockNumber = u32;

/// A vote as the parent governance system records it.
#[derive(Debug, PartialEq, Eq, Clone, Copy, Structural)]
pub enum Vote {
    Aye,
    Nay,
}

/// Lifecycle of a stored proposal.
#[derive(Debug, PartialEq, Eq, Clone, Copy, Structural)]
pub enum ProposalStatus {
    Active,
    Decided,
    Removed,
}

} // verus!
