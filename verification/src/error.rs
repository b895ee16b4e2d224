//! The error taxonomy shared by every operation of the engine.
//!
//! Every error is detected before any mutation commits: a function that
//! returns one of these leaves all of its `&mut` arguments unchanged.

use vstd::prelude::*;

verus! {

/// Why a governance operation was refused.
#[derive(Clone, Copy, Debug, PartialEq, Eq, Structural)]
pub enum ProthesisError {
    /// The acting principal must be a council member and is not.
    NotCouncilMember,
    /// Checked arithmetic on a counter overflowed or underflowed.
    CountOutOfRange,
    /// A proposal title exceeds the maximum length.
    TitleTooLong,
    /// Proposal content exceeds the maximum length.
    ContentTooLong,
    /// Voting is only allowed on a pending proposal.
    ProposalNotPending,
    /// The request has already been reviewed.
    AlreadyReviewed,
    /// The request cannot be resolved until it has been reviewed.
    CannotResolveBeforeReview,
    /// A vote value must be 1 (upvote) or 0 (downvote).
    InvalidVoteType,
    /// The role-operation discriminator is not one of the recognized kinds.
    InvalidRoleOpKind,
    /// The (principal, request) pair has already voted.
    DuplicateVote,
    /// The treasury balance does not strictly exceed the required amount.
    InsufficientTreasuryBalance,
    /// The treasury account supplied does not match the proposal's treasury.
    MismatchedTreasuryAccount,
    /// No council member was found among the counted signers.
    NoCouncilMemberSigned,
    /// Fewer distinct signers were counted than the configured minimum.
    InsufficientMultisigSigners,
}

} // verus!
