use vstd::prelude::*;

verus! {

/// Every failure the governance core can report. All errors are terminal for
/// the enclosing operation: nothing is caught or retried internally.
#[derive(Clone, Debug, PartialEq, Eq)]
pub enum ContractError {
    /// Configured pass fraction lies outside the 50%..=100% band.
    InvalidThreshold,
    /// Configured quorum is exactly zero.
    ZeroQuorumThreshold,
    /// Configured quorum exceeds 100% and can never be reached.
    UnreachableQuorumThreshold,
    /// Caller-supplied app id does not match the id embedded in the action
    /// payload; checked before any registry query is built.
    DifferentAppID,
    /// A registry validation query answered "not found"; carries the
    /// registry's rejection reason verbatim.
    ProposalError { err: String },
    /// A ballot already exists for this (proposal, voter) pair.
    AlreadyVoted,
}

} // verus!
