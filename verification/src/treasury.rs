//! The treasury guard: funding, the signer quorum, and approved release.
//!
//! Release of pooled funds is gated behind three checks, in this order: the
//! supplied treasury account must match the proposal's declared target, the
//! treasury balance must strictly exceed the required amount, and a quorum
//! of authenticated signers including at least one council member must be
//! counted. Either all three pass and exactly one transfer of the required
//! amount occurs, or nothing changes anywhere and the proposal remains
//! approved for a future retry.

use vstd::prelude::*;

use crate::error::ProthesisError;
use crate::state::{Member, Proposal, SignerRecord, Status};

verus! {

/// How many of the supplied records are authenticated (signed).
pub open spec fn count_signed(records: Seq<SignerRecord>) -> int
    decreases records.len(),
{
    if records.len() == 0 {
        0
    } else {
        count_signed(records.drop_last()) + if records.last().signed {
            1int
        } else {
            0int
        }
    }
}

/// Whether a council member is among the counted signers: the resolving
/// member itself, or any authenticated supplied record of a council member.
pub open spec fn council_signed(resolver: Member, records: Seq<SignerRecord>) -> bool {
    resolver.is_council || exists|i: int|
        0 <= i < records.len() && records[i].signed && records[i].member.is_council
}

/// The signer-quorum conditions: a council signer was counted, and the
/// resolver plus the authenticated supplied records reach the minimum.
pub open spec fn quorum_met(resolver: Member, records: Seq<SignerRecord>, min: u64) -> bool {
    council_signed(resolver, records) && 1 + count_signed(records) >= min
}

/// The guard's decision, with its checks in order: account match, strict
/// balance, council signer, signer count. `Ok` authorizes the release.
pub open spec fn release_check(
    resolver: Member,
    records: Seq<SignerRecord>,
    min: u64,
    amount: u64,
    declared_treasury: u64,
    actual_treasury: u64,
    dao_balance: u64,
) -> Result<(), ProthesisError> {
    if actual_treasury != declared_treasury {
        Err(ProthesisError::MismatchedTreasuryAccount)
    } else if dao_balance <= amount {
        Err(ProthesisError::InsufficientTreasuryBalance)
    } else if !council_signed(resolver, records) {
        Err(ProthesisError::NoCouncilMemberSigned)
    } else if 1 + count_signed(records) < min {
        Err(ProthesisError::InsufficientMultisigSigners)
    } else {
        Ok(())
    }
}

/// What funding the treasury does to its balance.
pub open spec fn fund_step(balance: u64, amount: u64) -> Result<u64, ProthesisError> {
    if balance + amount > u64::MAX {
        Err(ProthesisError::CountOutOfRange)
    } else {
        Ok((balance + amount) as u64)
    }
}

/// What resolving a reviewed proposal does to the two balances, and whether
/// funds moved: funds move exactly when the proposal is approved and the
/// guard's three checks pass; a dismissed or expired proposal resolves to a
/// no-op, and a pending one is refused.
pub open spec fn resolve_proposal_step(
    p: Proposal,
    resolver: Member,
    records: Seq<SignerRecord>,
    min: u64,
    dao_balance: u64,
    target_balance: u64,
    actual_treasury: u64,
) -> Result<(bool, u64, u64), ProthesisError> {
    if p.status == Status::Pending {
        Err(ProthesisError::CannotResolveBeforeReview)
    } else if p.status != Status::Approved {
        Ok((false, dao_balance, target_balance))
    } else {
        match release_check(
            resolver,
            records,
            min,
            p.amount_required,
            p.treasury,
            actual_treasury,
            dao_balance,
        ) {
            Ok(_) => Ok(
                (
                    true,
                    (dao_balance - p.amount_required) as u64,
                    (target_balance + p.amount_required) as u64,
                ),
            ),
            Err(e) => Err(e),
        }
    }
}

/// Signed records counted over a prefix never exceed those of the whole.
proof fn lemma_count_signed_prefix(records: Seq<SignerRecord>, j: int)
    requires
        0 <= j <= records.len(),
    ensures
        count_signed(records.take(j)) <= count_signed(records),
    decreases records.len() - j,
{
    if j < records.len() {
        assert(records.take(j + 1).drop_last() =~= records.take(j));
        lemma_count_signed_prefix(records, j + 1);
    } else {
        assert(records.take(j) =~= records);
    }
}

/// A council signer found in a prefix is a council signer of the whole.
proof fn lemma_council_signed_prefix(resolver: Member, records: Seq<SignerRecord>, j: int)
    requires
        0 <= j <= records.len(),
        council_signed(resolver, records.take(j)),
    ensures
        council_signed(resolver, records),
{
    if !resolver.is_council {
        let i = choose|i: int|
            0 <= i < records.take(j).len() && records.take(j)[i].signed && records.take(
                j,
            )[i].member.is_council;
        assert(records[i].signed && records[i].member.is_council);
    }
}

/// Add `amount` to the treasury balance with checked arithmetic.
pub fn fund_dao(treasury_balance: &mut u64, amount: u64) -> (r: Result<(), ProthesisError>)
    ensures
        match fund_step(*old(treasury_balance), amount) {
            Ok(b2) => r == Ok::<(), ProthesisError>(()) && *final(treasury_balance) == b2,
            Err(e) => r == Err::<(), ProthesisError>(e) && *final(treasury_balance) == *old(
                treasury_balance,
            ),
        },
{
    if amount > u64::MAX - *treasury_balance {
        return Err(ProthesisError::CountOutOfRange);
    }
    *treasury_balance = *treasury_balance + amount;
    Ok(())
}

/// Scan the supplied signer records for a quorum. The resolving member
/// counts as one signer; each authenticated record adds one and may supply
/// the council signer; the scan stops early once both conditions hold.
pub fn check_signers(resolver: &Member, records: &Vec<SignerRecord>, min_multisig_signers: u64) -> (r:
    Result<(), ProthesisError>)
    requires
        records@.len() < u64::MAX,
    ensures
        !council_signed(*resolver, records@) ==> r == Err::<(), ProthesisError>(
            ProthesisError::NoCouncilMemberSigned,
        ),
        council_signed(*resolver, records@) && 1 + count_signed(records@)
            < min_multisig_signers ==> r == Err::<(), ProthesisError>(
            ProthesisError::InsufficientMultisigSigners,
        ),
        quorum_met(*resolver, records@, min_multisig_signers) ==> r == Ok::<(), ProthesisError>(()),
{
    let n: usize = records.len();
    let mut found_council = resolver.is_council;
    let mut signers_count: u64 = 1;
    let mut i: usize = 0;

    while i < n
        invariant
            n == records@.len(),
            n < u64::MAX,
            0 <= i <= n,
            signers_count == 1 + count_signed(records@.take(i as int)),
            signers_count <= 1 + i,
            found_council == council_signed(*resolver, records@.take(i as int)),
        decreases n - i,
    {
        let rec = records[i];
        proof {
            assert(records@.take(i + 1).drop_last() =~= records@.take(i as int));
            assert(records@.take(i + 1).last() == records@[i as int]);
        }
        if rec.signed {
            signers_count = signers_count + 1;
            if rec.member.is_council {
                found_council = true;
            }
            if found_council && signers_count >= min_multisig_signers {
                proof {
                    lemma_count_signed_prefix(records@, i + 1);
                    lemma_council_signed_prefix(*resolver, records@, i + 1);
                }
                return Ok(());
            }
        }
        i = i + 1;
    }
    proof {
        assert(records@.take(n as int) =~= records@);
    }

    if !found_council {
        return Err(ProthesisError::NoCouncilMemberSigned);
    }
    if signers_count < min_multisig_signers {
        return Err(ProthesisError::InsufficientMultisigSigners);
    }
    Ok(())
}

/// Move exactly `amount` from the treasury to the declared target, after
/// checking the account match and the strict balance requirement; a failed
/// check leaves both balances unchanged.
pub fn transfer_funds(
    dao_balance: &mut u64,
    target_balance: &mut u64,
    amount: u64,
    declared_treasury: u64,
    actual_treasury: u64,
) -> (r: Result<(), ProthesisError>)
    requires
        actual_treasury == declared_treasury && *old(dao_balance) > amount ==> *old(target_balance)
            + amount <= u64::MAX,
    ensures
        actual_treasury != declared_treasury ==> r == Err::<(), ProthesisError>(
            ProthesisError::MismatchedTreasuryAccount,
        ) && *final(dao_balance) == *old(dao_balance) && *final(target_balance) == *old(
            target_balance,
        ),
        actual_treasury == declared_treasury && *old(dao_balance) <= amount ==> r == Err::<
            (),
            ProthesisError,
        >(ProthesisError::InsufficientTreasuryBalance) && *final(dao_balance) == *old(dao_balance)
            && *final(target_balance) == *old(target_balance),
        actual_treasury == declared_treasury && *old(dao_balance) > amount ==> r == Ok::<
            (),
            ProthesisError,
        >(()) && *final(dao_balance) == *old(dao_balance) - amount && *final(target_balance)
            == *old(target_balance) + amount,
{
    if actual_treasury != declared_treasury {
        return Err(ProthesisError::MismatchedTreasuryAccount);
    }
    if *dao_balance <= amount {
        return Err(ProthesisError::InsufficientTreasuryBalance);
    }
    *dao_balance = *dao_balance - amount;
    *target_balance = *target_balance + amount;
    Ok(())
}

/// Run the guard's three checks in order and, if all pass, execute the
/// single exact-amount transfer; any failure leaves both balances unchanged.
pub fn authorize_release(
    resolver: &Member,
    records: &Vec<SignerRecord>,
    min_multisig_signers: u64,
    amount: u64,
    declared_treasury: u64,
    actual_treasury: u64,
    dao_balance: &mut u64,
    target_balance: &mut u64,
) -> (r: Result<(), ProthesisError>)
    requires
        records@.len() < u64::MAX,
        actual_treasury == declared_treasury && *old(dao_balance) > amount ==> *old(target_balance)
            + amount <= u64::MAX,
    ensures
        match release_check(
            *resolver,
            records@,
            min_multisig_signers,
            amount,
            declared_treasury,
            actual_treasury,
            *old(dao_balance),
        ) {
            Ok(_) => r == Ok::<(), ProthesisError>(()) && *final(dao_balance) == *old(dao_balance)
                - amount && *final(target_balance) == *old(target_balance) + amount,
            Err(e) => r == Err::<(), ProthesisError>(e) && *final(dao_balance) == *old(dao_balance)
                && *final(target_balance) == *old(target_balance),
        },
{
    if actual_treasury != declared_treasury {
        return Err(ProthesisError::MismatchedTreasuryAccount);
    }
    if *dao_balance <= amount {
        return Err(ProthesisError::InsufficientTreasuryBalance);
    }
    match check_signers(resolver, records, min_multisig_signers) {
        Ok(_) => {},
        Err(e) => { return Err(e) },
    }
    transfer_funds(dao_balance, target_balance, amount, declared_treasury, actual_treasury)
}

/// Resolve a reviewed proposal: an approved one releases exactly its
/// required amount through the guard, a dismissed or expired one moves
/// nothing, and a pending one is refused. Returns whether funds moved; the
/// host retires the proposal record in every terminal case, while a guard
/// failure leaves the proposal approved for a future retry.
pub fn resolve_proposal(
    proposal: &Proposal,
    resolver: &Member,
    records: &Vec<SignerRecord>,
    min_multisig_signers: u64,
    dao_balance: &mut u64,
    target_balance: &mut u64,
    actual_treasury: u64,
) -> (r: Result<bool, ProthesisError>)
    requires
        records@.len() < u64::MAX,
        proposal.status == Status::Approved ==> *old(target_balance) + proposal.amount_required
            <= u64::MAX,
    ensures
        match resolve_proposal_step(
            *proposal,
            *resolver,
            records@,
            min_multisig_signers,
            *old(dao_balance),
            *old(target_balance),
            actual_treasury,
        ) {
            Ok((moved, d2, t2)) => r == Ok::<bool, ProthesisError>(moved) && *final(dao_balance)
                == d2 && *final(target_balance) == t2,
            Err(e) => r == Err::<bool, ProthesisError>(e) && *final(dao_balance) == *old(
                dao_balance,
            ) && *final(target_balance) == *old(target_balance),
        },
        r == Ok::<bool, ProthesisError>(true) <==> proposal.status == Status::Approved
            && release_check(
            *resolver,
            records@,
            min_multisig_signers,
            proposal.amount_required,
            proposal.treasury,
            actual_treasury,
            *old(dao_balance),
        ) is Ok,
        r != Ok::<bool, ProthesisError>(true) ==> *final(dao_balance) == *old(dao_balance)
            && *final(target_balance) == *old(target_balance),
{
    match proposal.status {
        Status::Pending => Err(ProthesisError::CannotResolveBeforeReview),
        Status::Dismissed | Status::Expired => Ok(false),
        Status::Approved => {
            match authorize_release(
                resolver,
                records,
                min_multisig_signers,
                proposal.amount_required,
                proposal.treasury,
                actual_treasury,
                dao_balance,
                target_balance,
            ) {
                Ok(_) => Ok(true),
                Err(e) => Err(e),
            }
        },
    }
}

} // verus!
