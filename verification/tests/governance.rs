use prothesis::error::ProthesisError;
use prothesis::ledger::VoteLedger;
use prothesis::membership::{add_member, exit_dao, initialize_dao};
use prothesis::proposal::{review_proposal, submit_proposal, vote_on_proposal};
use prothesis::role_change::{
    initiate_role_op, resolve_role_op, review_role_op, role_op_kind_from_seed, vote_on_role_op,
    RoleOpEffect,
};
use prothesis::state::{DAOConfig, Member, Proposal, RoleOp, RoleOpType, Status};

fn config(vote_pct: u16, consensus_pct: u16, members: u64, council: u64) -> DAOConfig {
    DAOConfig {
        id: 1,
        vote_pct,
        consensus_pct,
        min_multisig_signers: 1,
        request_lifetime: 604800,
        members_count: members,
        council_count: council,
    }
}

fn member(owner: u64, is_council: bool) -> Member {
    Member {
        owner,
        is_council,
        joined_at: 0,
    }
}

fn pending_proposal(upvotes: u64, downvotes: u64, created_at: i64) -> Proposal {
    Proposal {
        author: 10,
        title: String::from("repave the commons"),
        content: String::from("gravel and labour"),
        treasury: 77,
        amount_required: 500,
        upvotes,
        downvotes,
        created_at,
        status: Status::Pending,
    }
}

fn pending_role_op(op_type: RoleOpType, target: u64, upvotes: u64, downvotes: u64) -> RoleOp {
    RoleOp {
        op_type,
        member: target,
        upvotes,
        downvotes,
        created_at: 0,
        status: Status::Pending,
    }
}

#[test]
fn initialize_dao_creates_config_and_founder() {
    let (config, founder) = initialize_dao(9, 5000, 6700, 3, 604800, 42, 1234);
    assert_eq!(config.id, 9);
    assert_eq!(config.vote_pct, 5000);
    assert_eq!(config.consensus_pct, 6700);
    assert_eq!(config.min_multisig_signers, 3);
    assert_eq!(config.request_lifetime, 604800);
    assert_eq!(config.members_count, 0);
    assert_eq!(config.council_count, 1);
    assert_eq!(
        founder,
        Member {
            owner: 42,
            is_council: true,
            joined_at: 1234,
        }
    );
}

#[test]
fn add_member_requires_council_sponsor() {
    let mut config = config(5000, 6700, 4, 1);
    let sponsor = member(1, false);
    let r = add_member(&mut config, &sponsor, 2, 10);
    assert_eq!(r, Err(ProthesisError::NotCouncilMember));
    assert_eq!(config.members_count, 4);
}

#[test]
fn add_member_increments_count() {
    let mut config = config(5000, 6700, 4, 1);
    let sponsor = member(1, true);
    let r = add_member(&mut config, &sponsor, 2, 10).unwrap();
    assert_eq!(
        r,
        Member {
            owner: 2,
            is_council: false,
            joined_at: 10,
        }
    );
    assert_eq!(config.members_count, 5);
}

#[test]
fn add_member_overflow_fails_count_out_of_range() {
    let mut config = config(5000, 6700, u64::MAX, 1);
    let sponsor = member(1, true);
    let r = add_member(&mut config, &sponsor, 2, 10);
    assert_eq!(r, Err(ProthesisError::CountOutOfRange));
    assert_eq!(config.members_count, u64::MAX);
}

#[test]
fn exit_dao_decrements_counts() {
    let mut config = config(5000, 6700, 4, 2);
    let exiting = member(1, true);
    assert_eq!(exit_dao(&mut config, &exiting), Ok(()));
    assert_eq!(config.members_count, 3);
    assert_eq!(config.council_count, 1);
}

#[test]
fn exit_dao_underflow_fails_and_changes_nothing() {
    let mut no_members = config(5000, 6700, 0, 0);
    let exiting = member(1, false);
    assert_eq!(exit_dao(&mut no_members, &exiting), Err(ProthesisError::CountOutOfRange));
    assert_eq!(no_members.members_count, 0);
    assert_eq!(no_members.council_count, 0);

    let mut no_council = config(5000, 6700, 5, 0);
    let council_exiting = member(1, true);
    assert_eq!(
        exit_dao(&mut no_council, &council_exiting),
        Err(ProthesisError::CountOutOfRange)
    );
    assert_eq!(no_council.members_count, 5);
    assert_eq!(no_council.council_count, 0);
}

#[test]
fn submit_proposal_rejects_long_title() {
    let author = member(10, false);
    let title = "x".repeat(65);
    let r = submit_proposal(&author, title, String::from("ok"), 77, 500, 0);
    assert_eq!(r.unwrap_err(), ProthesisError::TitleTooLong);
}

#[test]
fn submit_proposal_rejects_long_content() {
    let author = member(10, false);
    let content = "y".repeat(2049);
    let r = submit_proposal(&author, String::from("ok"), content, 77, 500, 0);
    assert_eq!(r.unwrap_err(), ProthesisError::ContentTooLong);
}

#[test]
fn submit_proposal_creates_pending_record() {
    let author = member(10, false);
    let title = "x".repeat(64);
    let content = "y".repeat(2048);
    let p = submit_proposal(&author, title.clone(), content.clone(), 77, 500, 99).unwrap();
    assert_eq!(p.author, 10);
    assert_eq!(p.title, title);
    assert_eq!(p.content, content);
    assert_eq!(p.treasury, 77);
    assert_eq!(p.amount_required, 500);
    assert_eq!(p.upvotes, 0);
    assert_eq!(p.downvotes, 0);
    assert_eq!(p.created_at, 99);
    assert_eq!(p.status, Status::Pending);
}

#[test]
fn vote_on_proposal_counts_up_and_down() {
    let mut p = pending_proposal(0, 0, 0);
    let mut ledger = VoteLedger::new();
    assert_eq!(vote_on_proposal(&mut p, &mut ledger, 42, 7, 1), Ok(()));
    assert_eq!(vote_on_proposal(&mut p, &mut ledger, 42, 8, 0), Ok(()));
    assert_eq!(p.upvotes, 1);
    assert_eq!(p.downvotes, 1);
}

#[test]
fn vote_on_proposal_rejects_unrecognized_value() {
    let mut p = pending_proposal(0, 0, 0);
    let mut ledger = VoteLedger::new();
    let r = vote_on_proposal(&mut p, &mut ledger, 42, 7, 2);
    assert_eq!(r, Err(ProthesisError::InvalidVoteType));
    assert_eq!(p.upvotes, 0);
    assert_eq!(p.downvotes, 0);
}

#[test]
fn vote_on_proposal_requires_pending() {
    let mut p = pending_proposal(0, 0, 0);
    p.status = Status::Approved;
    let mut ledger = VoteLedger::new();
    let r = vote_on_proposal(&mut p, &mut ledger, 42, 7, 1);
    assert_eq!(r, Err(ProthesisError::ProposalNotPending));
    assert_eq!(p.upvotes, 0);
}

#[test]
fn scenario_duplicate_vote_counts_only_first() {
    let mut p = pending_proposal(0, 0, 0);
    let mut ledger = VoteLedger::new();
    assert_eq!(vote_on_proposal(&mut p, &mut ledger, 42, 7, 1), Ok(()));
    let second = vote_on_proposal(&mut p, &mut ledger, 42, 7, 1);
    assert_eq!(second, Err(ProthesisError::DuplicateVote));
    let second_down = vote_on_proposal(&mut p, &mut ledger, 42, 7, 0);
    assert_eq!(second_down, Err(ProthesisError::DuplicateVote));
    assert_eq!(p.upvotes, 1);
    assert_eq!(p.downvotes, 0);
}

#[test]
fn same_voter_may_vote_on_two_requests() {
    let mut p1 = pending_proposal(0, 0, 0);
    let mut p2 = pending_proposal(0, 0, 0);
    let mut ledger = VoteLedger::new();
    assert_eq!(vote_on_proposal(&mut p1, &mut ledger, 42, 7, 1), Ok(()));
    assert_eq!(vote_on_proposal(&mut p2, &mut ledger, 43, 7, 1), Ok(()));
    assert_eq!(p1.upvotes, 1);
    assert_eq!(p2.upvotes, 1);
}

#[test]
fn scenario_half_of_four_members_needs_two_votes() {
    // vote_pct 5000 of members_count 4 gives threshold floor(2.0) = 2
    let config = config(5000, 6700, 4, 1);
    let mut p = pending_proposal(2, 0, 0);
    assert_eq!(review_proposal(&mut p, &config, 100), Ok(()));
    assert_eq!(p.status, Status::Approved);
}

#[test]
fn review_below_threshold_stays_pending() {
    let config = config(5000, 6700, 4, 1);
    let mut p = pending_proposal(1, 1, 0);
    assert_eq!(review_proposal(&mut p, &config, 100), Ok(()));
    assert_eq!(p.status, Status::Pending);
}

#[test]
fn review_dismisses_on_downvote_threshold() {
    let config = config(5000, 6700, 4, 1);
    let mut p = pending_proposal(1, 3, 0);
    assert_eq!(review_proposal(&mut p, &config, 100), Ok(()));
    assert_eq!(p.status, Status::Dismissed);
}

#[test]
fn review_prefers_approval_when_both_thresholds_met() {
    let config = config(5000, 6700, 4, 1);
    let mut p = pending_proposal(2, 2, 0);
    assert_eq!(review_proposal(&mut p, &config, 100), Ok(()));
    assert_eq!(p.status, Status::Approved);
}

#[test]
fn scenario_late_review_expires_despite_votes_short() {
    // created at T = 1000, lifetime 604800, reviewed at T + 604801
    let config = config(5000, 6700, 4, 1);
    let mut p = pending_proposal(1, 1, 1000);
    assert_eq!(review_proposal(&mut p, &config, 1000 + 604801), Ok(()));
    assert_eq!(p.status, Status::Expired);
}

#[test]
fn expiry_overrides_vote_decision_in_same_call() {
    let config = config(5000, 6700, 4, 1);
    let mut p = pending_proposal(4, 0, 1000);
    assert_eq!(review_proposal(&mut p, &config, 1000 + 604800), Ok(()));
    assert_eq!(p.status, Status::Expired);
}

#[test]
fn second_review_always_fails_already_reviewed() {
    let config = config(5000, 6700, 4, 1);
    let mut p = pending_proposal(2, 0, 0);
    assert_eq!(review_proposal(&mut p, &config, 100), Ok(()));
    assert_eq!(p.status, Status::Approved);
    let again = review_proposal(&mut p, &config, 200);
    assert_eq!(again, Err(ProthesisError::AlreadyReviewed));
    assert_eq!(p.status, Status::Approved);
    let much_later = review_proposal(&mut p, &config, 10_000_000);
    assert_eq!(much_later, Err(ProthesisError::AlreadyReviewed));
    assert_eq!(p.status, Status::Approved);
}

#[test]
fn role_op_kind_recognizes_the_three_tags() {
    let promotion: Vec<u8> = b"promotion".to_vec();
    let demotion: Vec<u8> = b"demotion".to_vec();
    let removal: Vec<u8> = b"removal".to_vec();
    assert_eq!(role_op_kind_from_seed(&promotion), Ok(RoleOpType::PromoteToCouncil));
    assert_eq!(role_op_kind_from_seed(&demotion), Ok(RoleOpType::DemoteFromCouncil));
    assert_eq!(role_op_kind_from_seed(&removal), Ok(RoleOpType::RemoveMember));
}

#[test]
fn role_op_kind_rejects_anything_else() {
    let unknown: Vec<u8> = b"expulsion".to_vec();
    let empty: Vec<u8> = Vec::new();
    let near_miss: Vec<u8> = b"promotioN".to_vec();
    assert_eq!(role_op_kind_from_seed(&unknown), Err(ProthesisError::InvalidRoleOpKind));
    assert_eq!(role_op_kind_from_seed(&empty), Err(ProthesisError::InvalidRoleOpKind));
    assert_eq!(role_op_kind_from_seed(&near_miss), Err(ProthesisError::InvalidRoleOpKind));
}

#[test]
fn initiate_role_op_requires_council_initiator() {
    let initiator = member(1, false);
    let target = member(2, false);
    let seed: Vec<u8> = b"promotion".to_vec();
    let r = initiate_role_op(&initiator, &target, &seed, 50);
    assert_eq!(r, Err(ProthesisError::NotCouncilMember));
}

#[test]
fn initiate_demotion_requires_council_target() {
    let initiator = member(1, true);
    let target = member(2, false);
    let seed: Vec<u8> = b"demotion".to_vec();
    let r = initiate_role_op(&initiator, &target, &seed, 50);
    assert_eq!(r, Err(ProthesisError::NotCouncilMember));
}

#[test]
fn initiate_role_op_creates_pending_record() {
    let initiator = member(1, true);
    let target = member(2, false);
    let seed: Vec<u8> = b"removal".to_vec();
    let r = initiate_role_op(&initiator, &target, &seed, 50).unwrap();
    let mut expected = pending_role_op(RoleOpType::RemoveMember, 2, 0, 0);
    expected.created_at = 50;
    assert_eq!(r, expected);
}

#[test]
fn promotion_vote_requires_council_voter() {
    let mut op = pending_role_op(RoleOpType::PromoteToCouncil, 2, 0, 0);
    let mut ledger = VoteLedger::new();
    let voter = member(3, false);
    let r = vote_on_role_op(&mut op, &mut ledger, 90, &voter, 1);
    assert_eq!(r, Err(ProthesisError::NotCouncilMember));
    assert_eq!(op.upvotes, 0);
}

#[test]
fn removal_vote_open_to_any_member() {
    let mut op = pending_role_op(RoleOpType::RemoveMember, 2, 0, 0);
    let mut ledger = VoteLedger::new();
    let voter = member(3, false);
    assert_eq!(vote_on_role_op(&mut op, &mut ledger, 90, &voter, 1), Ok(()));
    assert_eq!(op.upvotes, 1);
}

#[test]
fn role_vote_rejects_unrecognized_value() {
    let mut op = pending_role_op(RoleOpType::RemoveMember, 2, 0, 0);
    let mut ledger = VoteLedger::new();
    let voter = member(3, false);
    let r = vote_on_role_op(&mut op, &mut ledger, 90, &voter, 7);
    assert_eq!(r, Err(ProthesisError::InvalidVoteType));
    assert_eq!((op.upvotes, op.downvotes), (0, 0));
}

#[test]
fn role_vote_duplicate_rejected() {
    let mut op = pending_role_op(RoleOpType::RemoveMember, 2, 0, 0);
    let mut ledger = VoteLedger::new();
    let voter = member(3, false);
    assert_eq!(vote_on_role_op(&mut op, &mut ledger, 90, &voter, 0), Ok(()));
    let again = vote_on_role_op(&mut op, &mut ledger, 90, &voter, 0);
    assert_eq!(again, Err(ProthesisError::DuplicateVote));
    assert_eq!(op.downvotes, 1);
}

#[test]
fn scenario_council_consensus_needs_two_of_three() {
    // consensus_pct 6700 of council_count 3 gives max(1, floor(2.01)) = 2
    let config = config(5000, 6700, 10, 3);
    let mut op = pending_role_op(RoleOpType::PromoteToCouncil, 2, 2, 0);
    assert_eq!(review_role_op(&mut op, &config, 100), Ok(()));
    assert_eq!(op.status, Status::Approved);
}

#[test]
fn role_threshold_never_below_one() {
    // consensus_pct 100 of council_count 1 gives floor(0.01), raised to 1
    let config = config(5000, 100, 10, 1);
    let mut zero_votes = pending_role_op(RoleOpType::PromoteToCouncil, 2, 0, 0);
    assert_eq!(review_role_op(&mut zero_votes, &config, 100), Ok(()));
    assert_eq!(zero_votes.status, Status::Pending);

    let mut one_vote = pending_role_op(RoleOpType::PromoteToCouncil, 2, 1, 0);
    assert_eq!(review_role_op(&mut one_vote, &config, 100), Ok(()));
    assert_eq!(one_vote.status, Status::Approved);
}

#[test]
fn role_review_expires_last() {
    let config = config(5000, 6700, 10, 3);
    let mut op = pending_role_op(RoleOpType::PromoteToCouncil, 2, 3, 0);
    assert_eq!(review_role_op(&mut op, &config, 604800), Ok(()));
    assert_eq!(op.status, Status::Expired);
}

#[test]
fn role_review_twice_fails_already_reviewed() {
    let config = config(5000, 6700, 10, 3);
    let mut op = pending_role_op(RoleOpType::PromoteToCouncil, 2, 2, 0);
    assert_eq!(review_role_op(&mut op, &config, 100), Ok(()));
    let again = review_role_op(&mut op, &config, 100);
    assert_eq!(again, Err(ProthesisError::AlreadyReviewed));
    assert_eq!(op.status, Status::Approved);
}

#[test]
fn resolve_role_op_requires_review_first() {
    let mut config = config(5000, 6700, 10, 3);
    let mut target = member(2, false);
    let resolver = member(1, true);
    let op = pending_role_op(RoleOpType::PromoteToCouncil, 2, 0, 0);
    let r = resolve_role_op(&op, &mut config, &mut target, &resolver);
    assert_eq!(r, Err(ProthesisError::CannotResolveBeforeReview));
    assert_eq!(config.council_count, 3);
    assert!(!target.is_council);
}

#[test]
fn resolve_role_op_requires_council_resolver() {
    let mut config = config(5000, 6700, 10, 3);
    let mut target = member(2, false);
    let resolver = member(1, false);
    let mut op = pending_role_op(RoleOpType::PromoteToCouncil, 2, 0, 0);
    op.status = Status::Approved;
    let r = resolve_role_op(&op, &mut config, &mut target, &resolver);
    assert_eq!(r, Err(ProthesisError::NotCouncilMember));
    assert_eq!(config.council_count, 3);
}

#[test]
fn approved_promotion_seats_target() {
    let mut config = config(5000, 6700, 10, 3);
    let mut target = member(2, false);
    let resolver = member(1, true);
    let mut op = pending_role_op(RoleOpType::PromoteToCouncil, 2, 2, 0);
    op.status = Status::Approved;
    let r = resolve_role_op(&op, &mut config, &mut target, &resolver);
    assert_eq!(r, Ok(RoleOpEffect::Promoted));
    assert!(target.is_council);
    assert_eq!(config.council_count, 4);
}

#[test]
fn approved_demotion_unseats_target() {
    let mut config = config(5000, 6700, 10, 3);
    let mut target = member(2, true);
    let resolver = member(1, true);
    let mut op = pending_role_op(RoleOpType::DemoteFromCouncil, 2, 2, 0);
    op.status = Status::Approved;
    let r = resolve_role_op(&op, &mut config, &mut target, &resolver);
    assert_eq!(r, Ok(RoleOpEffect::Demoted));
    assert!(!target.is_council);
    assert_eq!(config.council_count, 2);
}

#[test]
fn approved_demotion_underflow_fails_and_changes_nothing() {
    let mut config = config(5000, 6700, 10, 0);
    let mut target = member(2, true);
    let resolver = member(1, true);
    let mut op = pending_role_op(RoleOpType::DemoteFromCouncil, 2, 2, 0);
    op.status = Status::Approved;
    let r = resolve_role_op(&op, &mut config, &mut target, &resolver);
    assert_eq!(r, Err(ProthesisError::CountOutOfRange));
    assert!(target.is_council);
    assert_eq!(config.council_count, 0);
}

#[test]
fn approved_removal_directs_host_to_retire() {
    let mut config = config(5000, 6700, 10, 3);
    let mut target = member(2, false);
    let resolver = member(1, true);
    let mut op = pending_role_op(RoleOpType::RemoveMember, 2, 2, 0);
    op.status = Status::Approved;
    let r = resolve_role_op(&op, &mut config, &mut target, &resolver);
    assert_eq!(r, Ok(RoleOpEffect::Removed));
    assert_eq!(config.members_count, 10);
    assert_eq!(config.council_count, 3);
}

#[test]
fn dismissed_or_expired_role_op_resolves_without_effect() {
    let mut config = config(5000, 6700, 10, 3);
    let mut target = member(2, false);
    let resolver = member(1, true);
    let mut op = pending_role_op(RoleOpType::PromoteToCouncil, 2, 0, 3);
    op.status = Status::Dismissed;
    assert_eq!(
        resolve_role_op(&op, &mut config, &mut target, &resolver),
        Ok(RoleOpEffect::NoEffect)
    );
    op.status = Status::Expired;
    assert_eq!(
        resolve_role_op(&op, &mut config, &mut target, &resolver),
        Ok(RoleOpEffect::NoEffect)
    );
    assert!(!target.is_council);
    assert_eq!(config.council_count, 3);
}
