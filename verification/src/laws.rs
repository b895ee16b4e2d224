//! The engine's governing laws, proved once over the transition functions
//! that the executable operations are specified against.

use vstd::prelude::*;

use crate::error::ProthesisError;
use crate::ledger::{count_votes_of, has_vote, ledger_wf};
use crate::membership::exit_dao_step;
use crate::proposal::{
    proposal_review_step, proposal_vote_step, valid_vote_value, vote_type_of,
};
use crate::role_change::{resolve_role_step, role_review_step, role_vote_step};
use crate::state::{DAOConfig, Member, Proposal, RoleOp, RoleOpType, SignerRecord, Status, Vote, VoteType};
use crate::treasury::{release_check, resolve_proposal_step};

verus! {

/// A status only ever stays where it is or leaves `Pending`: no transition
/// leaves a terminal state, and none returns to `Pending` from one.
pub open spec fn status_transition_ok(before: Status, after: Status) -> bool {
    before == after || before == Status::Pending
}

/// Review moves a proposal's status only forward: a pending proposal moves
/// to `Pending`, `Approved`, `Dismissed` or `Expired` with every other field
/// kept, and review of a non-pending proposal always fails `AlreadyReviewed`
/// — so a terminal status is never changed and never reassigned.
pub proof fn lemma_proposal_review_transitions(p: Proposal, c: DAOConfig, now: i64)
    ensures
        (proposal_review_step(p, c, now) is Err) <==> p.status != Status::Pending,
        match proposal_review_step(p, c, now) {
            Ok(p2) => status_transition_ok(p.status, p2.status) && p2 == (Proposal {
                status: p2.status,
                ..p
            }),
            Err(e) => e == ProthesisError::AlreadyReviewed,
        },
{
}

/// Review moves a role-change request's status only forward, exactly as for
/// a proposal.
pub proof fn lemma_role_review_transitions(r: RoleOp, c: DAOConfig, now: i64)
    ensures
        (role_review_step(r, c, now) is Err) <==> r.status != Status::Pending,
        match role_review_step(r, c, now) {
            Ok(r2) => status_transition_ok(r.status, r2.status) && r2 == (RoleOp {
                status: r2.status,
                ..r
            }),
            Err(e) => e == ProthesisError::AlreadyReviewed,
        },
{
}

/// Voting never changes a request's status, so the review laws above cover
/// every status transition the engine can make.
pub proof fn lemma_vote_preserves_status(
    p: Proposal,
    l: Seq<Vote>,
    proposal_id: u64,
    voter: u64,
    vote: u8,
)
    ensures
        match proposal_vote_step(p, l, proposal_id, voter, vote) {
            Ok((p2, _)) => p2.status == p.status,
            Err(_) => true,
        },
{
}

/// One vote call never decreases either counter.
pub proof fn lemma_vote_counters_monotonic(
    p: Proposal,
    l: Seq<Vote>,
    proposal_id: u64,
    voter: u64,
    vote: u8,
)
    ensures
        match proposal_vote_step(p, l, proposal_id, voter, vote) {
            Ok((p2, _)) => p2.upvotes >= p.upvotes && p2.downvotes >= p.downvotes,
            Err(_) => true,
        },
{
}

/// Voting never changes a role-change request's status either.
pub proof fn lemma_role_vote_preserves_status(
    r: RoleOp,
    l: Seq<Vote>,
    role_op_id: u64,
    voter: Member,
    vote: u8,
)
    ensures
        match role_vote_step(r, l, role_op_id, voter, vote) {
            Ok((r2, _)) => r2.status == r.status,
            Err(_) => true,
        },
{
}

/// One vote call never decreases either counter of a role-change request.
pub proof fn lemma_role_vote_counters_monotonic(
    r: RoleOp,
    l: Seq<Vote>,
    role_op_id: u64,
    voter: Member,
    vote: u8,
)
    ensures
        match role_vote_step(r, l, role_op_id, voter, vote) {
            Ok((r2, _)) => r2.upvotes >= r.upvotes && r2.downvotes >= r.downvotes,
            Err(_) => true,
        },
{
}

/// One call in a sequence of proposal vote calls.
#[derive(Clone, Copy, Debug, PartialEq, Eq, Structural)]
pub struct VoteCall {
    /// The principal casting the vote.
    pub voter: u64,
    /// The raw vote value handed in.
    pub value: u8,
}

/// The proposal and ledger after a sequence of vote calls, applied in order;
/// a call that fails changes nothing and the sequence continues.
pub open spec fn run_proposal_votes(
    p: Proposal,
    l: Seq<Vote>,
    proposal_id: u64,
    calls: Seq<VoteCall>,
) -> (Proposal, Seq<Vote>)
    decreases calls.len(),
{
    if calls.len() == 0 {
        (p, l)
    } else {
        let rest = run_proposal_votes(p, l, proposal_id, calls.drop_last());
        match proposal_vote_step(rest.0, rest.1, proposal_id, calls.last().voter, calls.last().value) {
            Ok(next) => next,
            Err(_) => rest,
        }
    }
}

/// Appending one record changes a ledger tally by exactly that record.
proof fn lemma_count_votes_push(l: Seq<Vote>, v: Vote, target: u64, vt: VoteType)
    ensures
        count_votes_of(l.push(v), target, vt) == count_votes_of(l, target, vt) + if v.target
            == target && v.vote_type == vt {
            1int
        } else {
            0int
        },
{
    assert(l.push(v).drop_last() =~= l);
}

/// The vote counters are monotonically non-decreasing under any sequence of
/// vote calls, and each grows by exactly the number of votes of its
/// direction that the calls successfully recorded in the ledger.
pub proof fn lemma_vote_counters_accumulate(
    p: Proposal,
    l: Seq<Vote>,
    proposal_id: u64,
    calls: Seq<VoteCall>,
)
    ensures
        ({
            let (p2, l2) = run_proposal_votes(p, l, proposal_id, calls);
            &&& p2.upvotes - p.upvotes == count_votes_of(l2, proposal_id, VoteType::Upvote)
                - count_votes_of(l, proposal_id, VoteType::Upvote)
            &&& p2.downvotes - p.downvotes == count_votes_of(l2, proposal_id, VoteType::Downvote)
                - count_votes_of(l, proposal_id, VoteType::Downvote)
            &&& p2.upvotes >= p.upvotes
            &&& p2.downvotes >= p.downvotes
        }),
    decreases calls.len(),
{
    if calls.len() > 0 {
        lemma_vote_counters_accumulate(p, l, proposal_id, calls.drop_last());
        let rest = run_proposal_votes(p, l, proposal_id, calls.drop_last());
        match proposal_vote_step(rest.0, rest.1, proposal_id, calls.last().voter, calls.last().value) {
            Ok((p2, l2)) => {
                let vt = vote_type_of(calls.last().value);
                lemma_count_votes_push(
                    rest.1,
                    Vote { voter: calls.last().voter, target: proposal_id, vote_type: vt },
                    proposal_id,
                    VoteType::Upvote,
                );
                lemma_count_votes_push(
                    rest.1,
                    Vote { voter: calls.last().voter, target: proposal_id, vote_type: vt },
                    proposal_id,
                    VoteType::Downvote,
                );
            },
            Err(_) => {},
        }
    }
}

/// A proposal whose counters agree with the ledger tallies keeps that
/// agreement under any sequence of vote calls: the counters equal the count
/// of successfully recorded votes of their direction.
pub proof fn lemma_vote_counters_equal_ledger(
    p: Proposal,
    l: Seq<Vote>,
    proposal_id: u64,
    calls: Seq<VoteCall>,
)
    requires
        p.upvotes == count_votes_of(l, proposal_id, VoteType::Upvote),
        p.downvotes == count_votes_of(l, proposal_id, VoteType::Downvote),
    ensures
        ({
            let (p2, l2) = run_proposal_votes(p, l, proposal_id, calls);
            &&& p2.upvotes == count_votes_of(l2, proposal_id, VoteType::Upvote)
            &&& p2.downvotes == count_votes_of(l2, proposal_id, VoteType::Downvote)
        }),
{
    lemma_vote_counters_accumulate(p, l, proposal_id, calls);
}

/// A member's vote call in a sequence of role-change vote calls.
#[derive(Clone, Copy, Debug, PartialEq, Eq, Structural)]
pub struct RoleVoteCall {
    /// The member casting the vote.
    pub voter: Member,
    /// The raw vote value handed in.
    pub value: u8,
}

/// The role-change request and ledger after a sequence of vote calls,
/// applied in order; a call that fails changes nothing and the sequence
/// continues.
pub open spec fn run_role_votes(
    r: RoleOp,
    l: Seq<Vote>,
    role_op_id: u64,
    calls: Seq<RoleVoteCall>,
) -> (RoleOp, Seq<Vote>)
    decreases calls.len(),
{
    if calls.len() == 0 {
        (r, l)
    } else {
        let rest = run_role_votes(r, l, role_op_id, calls.drop_last());
        match role_vote_step(rest.0, rest.1, role_op_id, calls.last().voter, calls.last().value) {
            Ok(next) => next,
            Err(_) => rest,
        }
    }
}

/// A role-change request's counters are monotonically non-decreasing under
/// any sequence of vote calls, and each grows by exactly the number of
/// votes of its direction that the calls successfully recorded.
pub proof fn lemma_role_vote_counters_accumulate(
    r: RoleOp,
    l: Seq<Vote>,
    role_op_id: u64,
    calls: Seq<RoleVoteCall>,
)
    ensures
        ({
            let (r2, l2) = run_role_votes(r, l, role_op_id, calls);
            &&& r2.upvotes - r.upvotes == count_votes_of(l2, role_op_id, VoteType::Upvote)
                - count_votes_of(l, role_op_id, VoteType::Upvote)
            &&& r2.downvotes - r.downvotes == count_votes_of(l2, role_op_id, VoteType::Downvote)
                - count_votes_of(l, role_op_id, VoteType::Downvote)
            &&& r2.upvotes >= r.upvotes
            &&& r2.downvotes >= r.downvotes
        }),
    decreases calls.len(),
{
    if calls.len() > 0 {
        lemma_role_vote_counters_accumulate(r, l, role_op_id, calls.drop_last());
        let rest = run_role_votes(r, l, role_op_id, calls.drop_last());
        match role_vote_step(rest.0, rest.1, role_op_id, calls.last().voter, calls.last().value) {
            Ok((r2, l2)) => {
                let vt = vote_type_of(calls.last().value);
                let pushed = Vote {
                    voter: calls.last().voter.owner,
                    target: role_op_id,
                    vote_type: vt,
                };
                lemma_count_votes_push(rest.1, pushed, role_op_id, VoteType::Upvote);
                lemma_count_votes_push(rest.1, pushed, role_op_id, VoteType::Downvote);
            },
            Err(_) => {},
        }
    }
}

/// A successful vote call preserves the one-vote-per-pair invariant, and a
/// second recognized vote by the same principal on the same proposal always
/// fails `DuplicateVote`, whatever its direction.
pub proof fn lemma_second_vote_rejected(
    p: Proposal,
    l: Seq<Vote>,
    proposal_id: u64,
    voter: u64,
    first_vote: u8,
    second_vote: u8,
)
    requires
        proposal_vote_step(p, l, proposal_id, voter, first_vote) is Ok,
        valid_vote_value(second_vote),
    ensures
        match proposal_vote_step(p, l, proposal_id, voter, first_vote) {
            Ok((p2, l2)) => {
                &&& proposal_vote_step(p2, l2, proposal_id, voter, second_vote) == Err::<
                    (Proposal, Seq<Vote>),
                    ProthesisError,
                >(ProthesisError::DuplicateVote)
                &&& (ledger_wf(l) ==> ledger_wf(l2))
            },
            Err(_) => true,
        },
{
    let (p2, l2) = proposal_vote_step(p, l, proposal_id, voter, first_vote).unwrap();
    assert(l2.last().voter == voter && l2.last().target == proposal_id);
    assert(has_vote(l2, voter, proposal_id));
}

/// The same double-vote defense for role-change requests: a successful vote
/// preserves the one-vote-per-pair invariant, and a second recognized vote
/// by the same member always fails `DuplicateVote`.
pub proof fn lemma_second_role_vote_rejected(
    r: RoleOp,
    l: Seq<Vote>,
    role_op_id: u64,
    voter: Member,
    first_vote: u8,
    second_vote: u8,
)
    requires
        role_vote_step(r, l, role_op_id, voter, first_vote) is Ok,
        valid_vote_value(second_vote),
    ensures
        match role_vote_step(r, l, role_op_id, voter, first_vote) {
            Ok((r2, l2)) => {
                &&& role_vote_step(r2, l2, role_op_id, voter, second_vote) == Err::<
                    (RoleOp, Seq<Vote>),
                    ProthesisError,
                >(ProthesisError::DuplicateVote)
                &&& (ledger_wf(l) ==> ledger_wf(l2))
            },
            Err(_) => true,
        },
{
    let (r2, l2) = role_vote_step(r, l, role_op_id, voter, first_vote).unwrap();
    assert(l2.last().voter == voter.owner && l2.last().target == role_op_id);
    assert(has_vote(l2, voter.owner, role_op_id));
}

/// An exit that would take a counter below zero fails `CountOutOfRange` and
/// leaves the configuration unchanged — the counters, being unsigned, are
/// never negative, and this is the only way an exit can fail.
pub proof fn lemma_exit_counts_protected(c: DAOConfig, exiting: Member)
    ensures
        (exit_dao_step(c, exiting) is Err) <==> ((exiting.is_council && c.council_count == 0)
            || c.members_count == 0),
        match exit_dao_step(c, exiting) {
            Ok(c2) => c2.members_count == c.members_count - 1 && c2.council_count
                == c.council_count - (if exiting.is_council {
                1int
            } else {
                0int
            }),
            Err(e) => e == ProthesisError::CountOutOfRange,
        },
{
}

/// An approved demotion that would take the council counter below zero
/// fails `CountOutOfRange` and changes neither the configuration nor the
/// target member.
pub proof fn lemma_demotion_count_protected(
    r: RoleOp,
    c: DAOConfig,
    target: Member,
    resolver: Member,
)
    requires
        resolver.is_council,
        r.status == Status::Approved,
        r.op_type == RoleOpType::DemoteFromCouncil,
    ensures
        (resolve_role_step(r, c, target, resolver) is Err) <==> c.council_count == 0,
        match resolve_role_step(r, c, target, resolver) {
            Ok((_, c2, m2)) => c2.council_count == c.council_count - 1 && !m2.is_council,
            Err(e) => e == ProthesisError::CountOutOfRange,
        },
{
}

/// Resolution moves funds exactly when the proposal is approved and the
/// guard's three checks pass; in every other case — a pending proposal, a
/// dismissed or expired one, or any failed check — both balances stay
/// unchanged, and a moved amount is exactly the proposal's required amount.
pub proof fn lemma_release_guarded(
    p: Proposal,
    resolver: Member,
    records: Seq<SignerRecord>,
    min: u64,
    dao_balance: u64,
    target_balance: u64,
    actual_treasury: u64,
)
    requires
        p.status == Status::Approved ==> target_balance + p.amount_required <= u64::MAX,
    ensures
        match resolve_proposal_step(
            p,
            resolver,
            records,
            min,
            dao_balance,
            target_balance,
            actual_treasury,
        ) {
            Ok((moved, d2, t2)) => {
                &&& moved <==> (p.status == Status::Approved && release_check(
                    resolver,
                    records,
                    min,
                    p.amount_required,
                    p.treasury,
                    actual_treasury,
                    dao_balance,
                ) is Ok)
                &&& moved ==> d2 == dao_balance - p.amount_required && t2 == target_balance
                    + p.amount_required
                &&& !moved ==> d2 == dao_balance && t2 == target_balance
            },
            Err(e) => e == ProthesisError::CannotResolveBeforeReview || (p.status
                == Status::Approved && release_check(
                resolver,
                records,
                min,
                p.amount_required,
                p.treasury,
                actual_treasury,
                dao_balance,
            ) == Err::<(), ProthesisError>(e)),
        },
{
}

} // verus!
