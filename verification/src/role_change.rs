//! The role-change engine: initiate, vote, review, resolve.
//!
//! A role-change request has the same lifecycle shape as a proposal but is
//! gated differently: only council members may initiate one or vote on a
//! promotion or demotion, and its review threshold has a floor of one so
//! that a small council can never auto-approve with zero votes.

use vstd::prelude::*;

use crate::error::ProthesisError;
use crate::ledger::{has_vote, ledger_wf, VoteLedger};
use crate::proposal::{threshold_of, valid_vote_value, vote_type_of};
use crate::state::{config_wf, DAOConfig, Member, RoleOp, RoleOpType, Status, Vote, VoteType};

verus! {

/// The free-form discriminator that names a promotion.
pub open spec fn promotion_seed() -> Seq<u8> {
    seq![112u8, 114u8, 111u8, 109u8, 111u8, 116u8, 105u8, 111u8, 110u8]
}

/// The free-form discriminator that names a demotion.
pub open spec fn demotion_seed() -> Seq<u8> {
    seq![100u8, 101u8, 109u8, 111u8, 116u8, 105u8, 111u8, 110u8]
}

/// The free-form discriminator that names a removal.
pub open spec fn removal_seed() -> Seq<u8> {
    seq![114u8, 101u8, 109u8, 111u8, 118u8, 97u8, 108u8]
}

/// The closed kind a free-form discriminator stands for, if any: exactly the
/// three literal tags are recognized.
pub open spec fn seed_kind(seed: Seq<u8>) -> Option<RoleOpType> {
    if seed == promotion_seed() {
        Some(RoleOpType::PromoteToCouncil)
    } else if seed == demotion_seed() {
        Some(RoleOpType::DemoteFromCouncil)
    } else if seed == removal_seed() {
        Some(RoleOpType::RemoveMember)
    } else {
        None
    }
}

/// What initiating a role change produces: a pending request with zero vote
/// counts, or the error named by the first failing gate. The initiator must
/// be council, the discriminator must be recognized, and a demotion target
/// must currently be council.
pub open spec fn initiate_step(
    initiator: Member,
    target: Member,
    seed: Seq<u8>,
    now: i64,
) -> Result<RoleOp, ProthesisError> {
    if !initiator.is_council {
        Err(ProthesisError::NotCouncilMember)
    } else if seed_kind(seed) is None {
        Err(ProthesisError::InvalidRoleOpKind)
    } else if seed_kind(seed) == Some(RoleOpType::DemoteFromCouncil) && !target.is_council {
        Err(ProthesisError::NotCouncilMember)
    } else {
        Ok(
            (RoleOp {
                op_type: seed_kind(seed).unwrap(),
                member: target.owner,
                upvotes: 0,
                downvotes: 0,
                created_at: now,
                status: Status::Pending,
            }),
        )
    }
}

/// The counter of `r` that a vote of direction `vt` would increment.
pub open spec fn role_vote_counter(r: RoleOp, vt: VoteType) -> u64 {
    if vt == VoteType::Upvote {
        r.upvotes
    } else {
        r.downvotes
    }
}

/// `r` with the counter of direction `vt` incremented by one.
pub open spec fn role_with_vote(r: RoleOp, vt: VoteType) -> RoleOp {
    if vt == VoteType::Upvote {
        RoleOp { upvotes: (r.upvotes + 1) as u64, ..r }
    } else {
        RoleOp { downvotes: (r.downvotes + 1) as u64, ..r }
    }
}

/// What one vote call does to a role-change request and the ledger. Only
/// council members may vote on a promotion or demotion; any member may vote
/// on a removal. The remaining checks and effects mirror a proposal vote.
pub open spec fn role_vote_step(
    r: RoleOp,
    l: Seq<Vote>,
    role_op_id: u64,
    voter: Member,
    vote: u8,
) -> Result<(RoleOp, Seq<Vote>), ProthesisError> {
    if r.op_type != RoleOpType::RemoveMember && !voter.is_council {
        Err(ProthesisError::NotCouncilMember)
    } else if !valid_vote_value(vote) {
        Err(ProthesisError::InvalidVoteType)
    } else if has_vote(l, voter.owner, role_op_id) {
        Err(ProthesisError::DuplicateVote)
    } else if role_vote_counter(r, vote_type_of(vote)) == u64::MAX {
        Err(ProthesisError::CountOutOfRange)
    } else {
        Ok(
            (
                role_with_vote(r, vote_type_of(vote)),
                l.push(Vote { voter: voter.owner, target: role_op_id, vote_type: vote_type_of(vote) }),
            ),
        )
    }
}

/// The vote count a role-change request must reach:
/// `max(1, floor(consensus_pct * council_count / 10,000))`. The floor of one
/// prevents a zero-threshold auto-approval when the council is small.
pub open spec fn role_threshold(c: DAOConfig) -> int {
    let t = (c.consensus_pct as int) * (c.council_count as int) / 10_000;
    if t < 1 {
        1
    } else {
        t
    }
}

/// The status review gives a pending role-change request; expiry is checked
/// last and is the final authority.
pub open spec fn role_review_status(r: RoleOp, c: DAOConfig, now: i64) -> Status {
    if now - r.created_at >= c.request_lifetime {
        Status::Expired
    } else if r.upvotes >= role_threshold(c) {
        Status::Approved
    } else if r.downvotes >= role_threshold(c) {
        Status::Dismissed
    } else {
        Status::Pending
    }
}

/// What one review call does to a role-change request: a request that is no
/// longer pending is refused, anything else keeps every field but the status.
pub open spec fn role_review_step(r: RoleOp, c: DAOConfig, now: i64) -> Result<
    RoleOp,
    ProthesisError,
> {
    if r.status != Status::Pending {
        Err(ProthesisError::AlreadyReviewed)
    } else {
        Ok((RoleOp { status: role_review_status(r, c, now), ..r }))
    }
}

/// What resolving a terminal role-change request asks the host to carry out.
#[derive(Clone, Copy, Debug, PartialEq, Eq, Structural)]
pub enum RoleOpEffect {
    /// The target member now holds a council seat.
    Promoted,
    /// The target member no longer holds a council seat.
    Demoted,
    /// The target member's record is to be retired by the host.
    Removed,
    /// A dismissed or expired request: nothing changes.
    NoEffect,
}

/// What resolving a role-change request does to the configuration and the
/// target member, or which error it reports. Only a council member may
/// resolve; a pending request is refused; a dismissed or expired request is
/// a no-op; an approved request mutates the target's council flag and the
/// council counter with checked arithmetic, or directs the host to retire
/// the target's record.
pub open spec fn resolve_role_step(
    r: RoleOp,
    c: DAOConfig,
    target: Member,
    resolver: Member,
) -> Result<(RoleOpEffect, DAOConfig, Member), ProthesisError> {
    if !resolver.is_council {
        Err(ProthesisError::NotCouncilMember)
    } else if r.status == Status::Pending {
        Err(ProthesisError::CannotResolveBeforeReview)
    } else if r.status != Status::Approved {
        Ok((RoleOpEffect::NoEffect, c, target))
    } else if r.op_type == RoleOpType::PromoteToCouncil {
        if c.council_count == u64::MAX {
            Err(ProthesisError::CountOutOfRange)
        } else {
            Ok(
                (
                    RoleOpEffect::Promoted,
                    DAOConfig { council_count: (c.council_count + 1) as u64, ..c },
                    Member { is_council: true, ..target },
                ),
            )
        }
    } else if r.op_type == RoleOpType::DemoteFromCouncil {
        if c.council_count == 0 {
            Err(ProthesisError::CountOutOfRange)
        } else {
            Ok(
                (
                    RoleOpEffect::Demoted,
                    DAOConfig { council_count: (c.council_count - 1) as u64, ..c },
                    Member { is_council: false, ..target },
                ),
            )
        }
    } else {
        Ok((RoleOpEffect::Removed, c, target))
    }
}

/// Map a free-form role-operation discriminator to its closed kind, failing
/// fast on anything but the three recognized literal tags.
pub fn role_op_kind_from_seed(seed: &Vec<u8>) -> (r: Result<RoleOpType, ProthesisError>)
    ensures
        match seed_kind(seed@) {
            Some(kind) => r == Ok::<RoleOpType, ProthesisError>(kind),
            None => r == Err::<RoleOpType, ProthesisError>(ProthesisError::InvalidRoleOpKind),
        },
{
    if seed.len() == 9 && seed[0] == 112 && seed[1] == 114 && seed[2] == 111 && seed[3] == 109
        && seed[4] == 111 && seed[5] == 116 && seed[6] == 105 && seed[7] == 111 && seed[8] == 110 {
        proof {
            assert(seed@ =~= promotion_seed());
        }
        Ok(RoleOpType::PromoteToCouncil)
    } else if seed.len() == 8 && seed[0] == 100 && seed[1] == 101 && seed[2] == 109 && seed[3]
        == 111 && seed[4] == 116 && seed[5] == 105 && seed[6] == 111 && seed[7] == 110 {
        proof {
            assert(seed@ =~= demotion_seed());
        }
        Ok(RoleOpType::DemoteFromCouncil)
    } else if seed.len() == 7 && seed[0] == 114 && seed[1] == 101 && seed[2] == 109 && seed[3]
        == 111 && seed[4] == 118 && seed[5] == 97 && seed[6] == 108 {
        proof {
            assert(seed@ =~= removal_seed());
        }
        Ok(RoleOpType::RemoveMember)
    } else {
        proof {
            if seed@ == promotion_seed() {
                assert(seed@.len() == 9);
                assert(false);
            }
            if seed@ == demotion_seed() {
                assert(seed@.len() == 8);
                assert(false);
            }
            if seed@ == removal_seed() {
                assert(seed@.len() == 7);
                assert(false);
            }
        }
        Err(ProthesisError::InvalidRoleOpKind)
    }
}

/// Open a pending role-change request against `target`, initiated by a
/// council member and named by a free-form discriminator.
pub fn initiate_role_op(initiator: &Member, target: &Member, seed: &Vec<u8>, now: i64) -> (r:
    Result<RoleOp, ProthesisError>)
    requires
        now >= 0,
    ensures
        r == initiate_step(*initiator, *target, seed@, now),
{
    if !initiator.is_council {
        return Err(ProthesisError::NotCouncilMember);
    }
    let kind = match role_op_kind_from_seed(seed) {
        Ok(kind) => kind,
        Err(e) => { return Err(e) },
    };
    if kind == RoleOpType::DemoteFromCouncil && !target.is_council {
        return Err(ProthesisError::NotCouncilMember);
    }
    Ok(
        RoleOp {
            op_type: kind,
            member: target.owner,
            upvotes: 0,
            downvotes: 0,
            created_at: now,
            status: Status::Pending,
        },
    )
}

/// Record one member's vote on a role-change request and increment the
/// matching counter; an error leaves the request and the ledger unchanged.
pub fn vote_on_role_op(
    role_op: &mut RoleOp,
    ledger: &mut VoteLedger,
    role_op_id: u64,
    voter_member: &Member,
    vote: u8,
) -> (r: Result<(), ProthesisError>)
    ensures
        match role_vote_step(*old(role_op), old(ledger)@, role_op_id, *voter_member, vote) {
            Ok((r2, l2)) => r == Ok::<(), ProthesisError>(()) && *final(role_op) == r2
                && final(ledger)@ == l2,
            Err(e) => r == Err::<(), ProthesisError>(e) && *final(role_op) == *old(role_op)
                && final(ledger)@ == old(ledger)@,
        },
        ledger_wf(old(ledger)@) ==> ledger_wf(final(ledger)@),
{
    if role_op.op_type != RoleOpType::RemoveMember && !voter_member.is_council {
        return Err(ProthesisError::NotCouncilMember);
    }
    let vt = match vote {
        0 => VoteType::Downvote,
        1 => VoteType::Upvote,
        _ => { return Err(ProthesisError::InvalidVoteType) },
    };
    if ledger.contains_vote(voter_member.owner, role_op_id) {
        return Err(ProthesisError::DuplicateVote);
    }
    let counter: u64 = if vt == VoteType::Upvote {
        role_op.upvotes
    } else {
        role_op.downvotes
    };
    if counter == u64::MAX {
        return Err(ProthesisError::CountOutOfRange);
    }
    let cast_result = ledger.cast(voter_member.owner, role_op_id, vt);
    assert(cast_result is Ok);
    if vt == VoteType::Upvote {
        role_op.upvotes = role_op.upvotes + 1;
    } else {
        role_op.downvotes = role_op.downvotes + 1;
    }
    Ok(())
}

/// Decide a pending role-change request against the council vote threshold
/// and the expiry clock; once the status is terminal, further reviews fail.
pub fn review_role_op(role_op: &mut RoleOp, config: &DAOConfig, now: i64) -> (r: Result<
    (),
    ProthesisError,
>)
    requires
        config_wf(*config),
        0 <= old(role_op).created_at <= now,
    ensures
        match role_review_step(*old(role_op), *config, now) {
            Ok(r2) => r == Ok::<(), ProthesisError>(()) && *final(role_op) == r2,
            Err(e) => r == Err::<(), ProthesisError>(e) && *final(role_op) == *old(role_op),
        },
{
    if role_op.status != Status::Pending {
        return Err(ProthesisError::AlreadyReviewed);
    }

    let raw: u64 = threshold_of(config.consensus_pct, config.council_count);
    let threshold: u64 = if raw < 1 {
        1
    } else {
        raw
    };
    assert(threshold == role_threshold(*config));

    if role_op.upvotes >= threshold {
        role_op.status = Status::Approved;
    } else if role_op.downvotes >= threshold {
        role_op.status = Status::Dismissed;
    }

    let time_elapsed: i64 = now - role_op.created_at;
    if time_elapsed >= config.request_lifetime {
        role_op.status = Status::Expired;
    }

    Ok(())
}

/// Carry out a reviewed role-change request: mutate the target's council
/// flag and the council counter, or report the effect the host must apply.
/// The host retires the request record in every terminal case, and retires
/// the target member's record when the effect is [`RoleOpEffect::Removed`].
pub fn resolve_role_op(
    role_op: &RoleOp,
    config: &mut DAOConfig,
    target_member: &mut Member,
    resolver: &Member,
) -> (r: Result<RoleOpEffect, ProthesisError>)
    requires
        old(target_member).owner == role_op.member,
    ensures
        match resolve_role_step(*role_op, *old(config), *old(target_member), *resolver) {
            Ok((effect, c2, m2)) => r == Ok::<RoleOpEffect, ProthesisError>(effect)
                && *final(config) == c2 && *final(target_member) == m2,
            Err(e) => r == Err::<RoleOpEffect, ProthesisError>(e) && *final(config) == *old(config)
                && *final(target_member) == *old(target_member),
        },
{
    if !resolver.is_council {
        return Err(ProthesisError::NotCouncilMember);
    }
    match role_op.status {
        Status::Pending => Err(ProthesisError::CannotResolveBeforeReview),
        Status::Dismissed | Status::Expired => Ok(RoleOpEffect::NoEffect),
        Status::Approved => {
            match role_op.op_type {
                RoleOpType::PromoteToCouncil => {
                    if config.council_count == u64::MAX {
                        return Err(ProthesisError::CountOutOfRange);
                    }
                    target_member.is_council = true;
                    config.council_count = config.council_count + 1;
                    Ok(RoleOpEffect::Promoted)
                },
                RoleOpType::DemoteFromCouncil => {
                    if config.council_count == 0 {
                        return Err(ProthesisError::CountOutOfRange);
                    }
                    target_member.is_council = false;
                    config.council_count = config.council_count - 1;
                    Ok(RoleOpEffect::Demoted)
                },
                RoleOpType::RemoveMember => Ok(RoleOpEffect::Removed),
            }
        },
    }
}

} // verus!
