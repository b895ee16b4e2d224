//! The records the engine decides over, as plain values.
//!
//! The host stores each record at a deterministic, collision-free derived
//! address; here a principal and a treasury account are identified by plain
//! `u64` handles, and a record travels through the engine by value.

use vstd::prelude::*;

verus! {

/// Maximum length of a proposal title, in characters.
pub const MAX_TITLE_LENGTH: usize = 64;

/// Maximum length of proposal content, in characters.
pub const MAX_CONTENT_LENGTH: usize = 2048;

/// Basis-point denominator: 10,000 basis points are 100%.
pub const BPS_DENOMINATOR: u16 = 10_000;

/// The lifecycle status shared by proposals and role-change requests.
///
/// The only transitions are `Pending` to one of the three terminal values;
/// no transition ever leaves a terminal state.
#[derive(Clone, Copy, Debug, PartialEq, Eq, Structural)]
pub enum Status {
    /// The request is active and accumulates votes.
    Pending,
    /// The upvote threshold was met at review time.
    Approved,
    /// The downvote threshold was met at review time.
    Dismissed,
    /// The request outlived its configured lifetime without resolution.
    Expired,
}

/// The direction of a single vote.
#[derive(Clone, Copy, Debug, PartialEq, Eq, Structural)]
pub enum VoteType {
    /// A vote in favour.
    Upvote,
    /// A vote against.
    Downvote,
}

/// The kind of role change a request asks for.
#[derive(Clone, Copy, Debug, PartialEq, Eq, Structural)]
pub enum RoleOpType {
    /// Promote the target member to a council role.
    PromoteToCouncil,
    /// Demote the target member from their council role.
    DemoteFromCouncil,
    /// Remove the target member from the organization entirely.
    RemoveMember,
}

/// DAO-wide configuration and running counters; everything else reads it.
#[derive(Clone, Copy, Debug, PartialEq, Eq, Structural)]
pub struct DAOConfig {
    /// Differentiates this DAO instance from others.
    pub id: u64,
    /// Threshold for general-membership votes, in basis points.
    pub vote_pct: u16,
    /// Threshold for council votes, in basis points.
    pub consensus_pct: u16,
    /// Minimum number of counted signers required to release funds (at least 1).
    pub min_multisig_signers: u64,
    /// Lifetime of a request, in seconds.
    pub request_lifetime: i64,
    /// Number of members.
    pub members_count: u64,
    /// Number of council members.
    pub council_count: u64,
}

/// What every operation may assume of a configuration, and what
/// [`crate::membership::initialize_dao`] establishes: percentages are genuine
/// basis points, the signer floor is positive, and the lifetime is a duration.
pub open spec fn config_wf(c: DAOConfig) -> bool {
    &&& c.vote_pct <= BPS_DENOMINATOR
    &&& c.consensus_pct <= BPS_DENOMINATOR
    &&& c.min_multisig_signers >= 1
    &&& c.request_lifetime >= 0
}

/// One enrolled member.
#[derive(Clone, Copy, Debug, PartialEq, Eq, Structural)]
pub struct Member {
    /// The principal that owns this membership.
    pub owner: u64,
    /// Whether the member holds a council role.
    pub is_council: bool,
    /// Timestamp of enrollment.
    pub joined_at: i64,
}

/// A funding/action request.
#[derive(Debug)]
pub struct Proposal {
    /// The principal of the member who submitted the proposal.
    pub author: u64,
    /// Title, at most [`MAX_TITLE_LENGTH`] characters.
    pub title: String,
    /// Content, at most [`MAX_CONTENT_LENGTH`] characters.
    pub content: String,
    /// Destination treasury account for the funds if approved.
    pub treasury: u64,
    /// Exact amount to transfer on approved resolution.
    pub amount_required: u64,
    /// Count of successful upvotes.
    pub upvotes: u64,
    /// Count of successful downvotes.
    pub downvotes: u64,
    /// Timestamp of submission.
    pub created_at: i64,
    /// Current lifecycle status.
    pub status: Status,
}

/// What holds of every proposal that [`crate::proposal::submit_proposal`]
/// creates: the length limits and a non-negative creation time.
pub open spec fn proposal_wf(p: Proposal) -> bool {
    &&& p.title@.len() <= MAX_TITLE_LENGTH
    &&& p.content@.len() <= MAX_CONTENT_LENGTH
    &&& p.created_at >= 0
}

/// A promotion/demotion/removal request; same lifecycle shape as a proposal.
#[derive(Clone, Copy, Debug, PartialEq, Eq, Structural)]
pub struct RoleOp {
    /// The kind of role change requested.
    pub op_type: RoleOpType,
    /// The principal of the member the request targets.
    pub member: u64,
    /// Count of successful upvotes.
    pub upvotes: u64,
    /// Count of successful downvotes.
    pub downvotes: u64,
    /// Timestamp of initiation.
    pub created_at: i64,
    /// Current lifecycle status.
    pub status: Status,
}

/// A single recorded vote.
///
/// The host keys the stored record by a derived address; the ledger model
/// carries the identifying pair explicitly instead.
#[derive(Clone, Copy, Debug, PartialEq, Eq, Structural)]
pub struct Vote {
    /// The principal that cast the vote.
    pub voter: u64,
    /// The request the vote targets.
    pub target: u64,
    /// The direction of the vote.
    pub vote_type: VoteType,
}

/// One record supplied to the treasury guard: a member record together with
/// whether its owning principal authenticated the resolution call.
#[derive(Clone, Copy, Debug, PartialEq, Eq, Structural)]
pub struct SignerRecord {
    /// The member record supplied.
    pub member: Member,
    /// Whether the owning principal signed the call.
    pub signed: bool,
}

} // verus!
