//! The proposal engine: submit, vote, review.
//!
//! A proposal moves `Pending --review--> {Approved | Dismissed | Expired}`;
//! every terminal status is final. Review computes the vote threshold from
//! the configured basis points and the member count, and the expiry check is
//! evaluated last: expiry overrides a vote-based decision reached in the same
//! call.

use vstd::prelude::*;

use crate::error::ProthesisError;
use crate::ledger::{cast_step, has_vote, ledger_wf, VoteLedger};
use crate::state::{
    config_wf, DAOConfig, Member, Proposal, Status, Vote, VoteType, MAX_CONTENT_LENGTH,
    MAX_TITLE_LENGTH,
};

verus! {

/// Whether a raw vote value is recognized: 1 is an upvote, 0 a downvote.
pub open spec fn valid_vote_value(v: u8) -> bool {
    v == 0 || v == 1
}

/// The direction a recognized raw vote value stands for.
pub open spec fn vote_type_of(v: u8) -> VoteType {
    if v == 1 {
        VoteType::Upvote
    } else {
        VoteType::Downvote
    }
}

/// The counter of `p` that a vote of direction `vt` would increment.
pub open spec fn vote_counter(p: Proposal, vt: VoteType) -> u64 {
    if vt == VoteType::Upvote {
        p.upvotes
    } else {
        p.downvotes
    }
}

/// `p` with the counter of direction `vt` incremented by one.
pub open spec fn with_vote(p: Proposal, vt: VoteType) -> Proposal {
    if vt == VoteType::Upvote {
        Proposal { upvotes: (p.upvotes + 1) as u64, ..p }
    } else {
        Proposal { downvotes: (p.downvotes + 1) as u64, ..p }
    }
}

/// The vote count a proposal must reach to be approved or dismissed:
/// `floor(vote_pct * members_count / 10,000)`.
pub open spec fn proposal_threshold(c: DAOConfig) -> int {
    (c.vote_pct as int) * (c.members_count as int) / 10_000
}

/// What one vote call does to a proposal and the ledger, or which error it
/// reports. The checks run in this order: the proposal must still be pending,
/// the vote value must be recognized, the (voter, proposal) pair must be new,
/// and the matching counter must not overflow; an error changes nothing.
pub open spec fn proposal_vote_step(
    p: Proposal,
    l: Seq<Vote>,
    proposal_id: u64,
    voter: u64,
    vote: u8,
) -> Result<(Proposal, Seq<Vote>), ProthesisError> {
    if p.status != Status::Pending {
        Err(ProthesisError::ProposalNotPending)
    } else if !valid_vote_value(vote) {
        Err(ProthesisError::InvalidVoteType)
    } else if has_vote(l, voter, proposal_id) {
        Err(ProthesisError::DuplicateVote)
    } else if vote_counter(p, vote_type_of(vote)) == u64::MAX {
        Err(ProthesisError::CountOutOfRange)
    } else {
        Ok(
            (
                with_vote(p, vote_type_of(vote)),
                l.push(Vote { voter, target: proposal_id, vote_type: vote_type_of(vote) }),
            ),
        )
    }
}

/// The status review gives a pending proposal: approval on enough upvotes,
/// else dismissal on enough downvotes, and in either case expiry — checked
/// last — is the final authority.
pub open spec fn proposal_review_status(p: Proposal, c: DAOConfig, now: i64) -> Status {
    if now - p.created_at >= c.request_lifetime {
        Status::Expired
    } else if p.upvotes >= proposal_threshold(c) {
        Status::Approved
    } else if p.downvotes >= proposal_threshold(c) {
        Status::Dismissed
    } else {
        Status::Pending
    }
}

/// What one review call does to a proposal: a proposal that is no longer
/// pending is refused, anything else keeps every field but the status.
pub open spec fn proposal_review_step(p: Proposal, c: DAOConfig, now: i64) -> Result<
    Proposal,
    ProthesisError,
> {
    if p.status != Status::Pending {
        Err(ProthesisError::AlreadyReviewed)
    } else {
        Ok((Proposal { status: proposal_review_status(p, c, now), ..p }))
    }
}

/// Create a pending proposal with zero vote counts, refusing a title or
/// content over the length limits.
pub fn submit_proposal(
    author: &Member,
    title: String,
    content: String,
    treasury: u64,
    amount_required: u64,
    now: i64,
) -> (r: Result<Proposal, ProthesisError>)
    requires
        now >= 0,
    ensures
        title@.len() > MAX_TITLE_LENGTH ==> r == Err::<Proposal, ProthesisError>(
            ProthesisError::TitleTooLong,
        ),
        title@.len() <= MAX_TITLE_LENGTH && content@.len() > MAX_CONTENT_LENGTH ==> r == Err::<
            Proposal,
            ProthesisError,
        >(ProthesisError::ContentTooLong),
        title@.len() <= MAX_TITLE_LENGTH && content@.len() <= MAX_CONTENT_LENGTH ==> r == Ok::<
            Proposal,
            ProthesisError,
        >(
            (Proposal {
                author: author.owner,
                title,
                content,
                treasury,
                amount_required,
                upvotes: 0,
                downvotes: 0,
                created_at: now,
                status: Status::Pending,
            }),
        ),
{
    if title.as_str().unicode_len() > MAX_TITLE_LENGTH {
        return Err(ProthesisError::TitleTooLong);
    }
    if content.as_str().unicode_len() > MAX_CONTENT_LENGTH {
        return Err(ProthesisError::ContentTooLong);
    }
    Ok(
        Proposal {
            author: author.owner,
            title,
            content,
            treasury,
            amount_required,
            upvotes: 0,
            downvotes: 0,
            created_at: now,
            status: Status::Pending,
        },
    )
}

/// Record one member's vote on a pending proposal and increment the matching
/// counter; an error leaves both the proposal and the ledger unchanged.
pub fn vote_on_proposal(
    proposal: &mut Proposal,
    ledger: &mut VoteLedger,
    proposal_id: u64,
    voter: u64,
    vote: u8,
) -> (r: Result<(), ProthesisError>)
    ensures
        match proposal_vote_step(*old(proposal), old(ledger)@, proposal_id, voter, vote) {
            Ok((p2, l2)) => r == Ok::<(), ProthesisError>(()) && *final(proposal) == p2
                && final(ledger)@ == l2,
            Err(e) => r == Err::<(), ProthesisError>(e) && *final(proposal) == *old(proposal)
                && final(ledger)@ == old(ledger)@,
        },
        ledger_wf(old(ledger)@) ==> ledger_wf(final(ledger)@),
{
    if proposal.status != Status::Pending {
        return Err(ProthesisError::ProposalNotPending);
    }
    let vt = match vote {
        0 => VoteType::Downvote,
        1 => VoteType::Upvote,
        _ => { return Err(ProthesisError::InvalidVoteType) },
    };
    if ledger.contains_vote(voter, proposal_id) {
        return Err(ProthesisError::DuplicateVote);
    }
    let counter: u64 = if vt == VoteType::Upvote {
        proposal.upvotes
    } else {
        proposal.downvotes
    };
    if counter == u64::MAX {
        return Err(ProthesisError::CountOutOfRange);
    }
    let cast_result = ledger.cast(voter, proposal_id, vt);
    assert(cast_result is Ok);
    if vt == VoteType::Upvote {
        proposal.upvotes = proposal.upvotes + 1;
    } else {
        proposal.downvotes = proposal.downvotes + 1;
    }
    Ok(())
}

/// Decide a pending proposal against the membership-wide vote threshold and
/// the expiry clock; once the status is terminal, further reviews fail.
pub fn review_proposal(proposal: &mut Proposal, config: &DAOConfig, now: i64) -> (r: Result<
    (),
    ProthesisError,
>)
    requires
        config_wf(*config),
        0 <= old(proposal).created_at <= now,
    ensures
        match proposal_review_step(*old(proposal), *config, now) {
            Ok(p2) => r == Ok::<(), ProthesisError>(()) && *final(proposal) == p2,
            Err(e) => r == Err::<(), ProthesisError>(e) && *final(proposal) == *old(proposal),
        },
{
    if proposal.status != Status::Pending {
        return Err(ProthesisError::AlreadyReviewed);
    }

    let threshold: u64 = threshold_of(config.vote_pct, config.members_count);
    assert(threshold == proposal_threshold(*config));

    if proposal.upvotes >= threshold {
        proposal.status = Status::Approved;
    } else if proposal.downvotes >= threshold {
        proposal.status = Status::Dismissed;
    }

    let time_elapsed: i64 = now - proposal.created_at;
    if time_elapsed >= config.request_lifetime {
        proposal.status = Status::Expired;
    }

    Ok(())
}

/// `floor(pct * population / 10,000)`, the shared threshold formula.
pub fn threshold_of(pct: u16, population: u64) -> (t: u64)
    requires
        pct <= 10_000,
    ensures
        t == (pct as int) * (population as int) / 10_000,
{
    proof {
        assert((pct as int) * (population as int) <= 10_000 * (u64::MAX as int))
            by (nonlinear_arith)
            requires
                pct <= 10_000,
                population <= u64::MAX,
        ;
    }
    let product: u128 = (pct as u128) * (population as u128);
    let quotient: u128 = product / 10_000;
    proof {
        assert((pct as int) * (population as int) / 10_000 <= population as int)
            by (nonlinear_arith)
            requires
                pct <= 10_000,
        ;
    }
    quotient as u64
}

} // verus!
