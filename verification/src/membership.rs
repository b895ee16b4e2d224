//! The membership manager: initialization, enrollment and exit.
//!
//! The running counters live in the [`DAOConfig`] record and are mutated only
//! here and by role-change resolution, always through checked arithmetic: an
//! operation that would overflow or underflow a counter fails with
//! [`ProthesisError::CountOutOfRange`] and changes nothing.

use vstd::prelude::*;

use crate::error::ProthesisError;
use crate::state::{config_wf, DAOConfig, Member};

verus! {

/// What enrolling `aspirant` does to the configuration: the member roll grows
/// by one unless the counter would overflow, and only a council sponsor may
/// enroll anyone.
pub open spec fn add_member_step(
    c: DAOConfig,
    sponsor: Member,
    aspirant: u64,
    now: i64,
) -> Result<(DAOConfig, Member), ProthesisError> {
    if !sponsor.is_council {
        Err(ProthesisError::NotCouncilMember)
    } else if c.members_count == u64::MAX {
        Err(ProthesisError::CountOutOfRange)
    } else {
        Ok(
            (
                DAOConfig { members_count: (c.members_count + 1) as u64, ..c },
                Member { owner: aspirant, is_council: false, joined_at: now },
            ),
        )
    }
}

/// What a member's exit does to the configuration: a council member leaves
/// the council count first, then the member count; an underflow of either
/// fails and changes nothing.
pub open spec fn exit_dao_step(c: DAOConfig, exiting: Member) -> Result<
    DAOConfig,
    ProthesisError,
> {
    if exiting.is_council && c.council_count == 0 {
        Err(ProthesisError::CountOutOfRange)
    } else if c.members_count == 0 {
        Err(ProthesisError::CountOutOfRange)
    } else {
        Ok(
            (DAOConfig {
                members_count: (c.members_count - 1) as u64,
                council_count: if exiting.is_council {
                    (c.council_count - 1) as u64
                } else {
                    c.council_count
                },
                ..c
            }),
        )
    }
}

/// Create a DAO instance: a configuration with zeroed member counters and a
/// single council seat, held by the creator's founding member record.
pub fn initialize_dao(
    id: u64,
    vote_pct: u16,
    consensus_pct: u16,
    min_multisig_signers: u64,
    request_lifetime: i64,
    creator: u64,
    now: i64,
) -> (r: (DAOConfig, Member))
    requires
        vote_pct <= 10_000,
        consensus_pct <= 10_000,
        min_multisig_signers >= 1,
        request_lifetime >= 0,
        now >= 0,
    ensures
        r.0 == (DAOConfig {
            id,
            vote_pct,
            consensus_pct,
            min_multisig_signers,
            request_lifetime,
            members_count: 0,
            council_count: 1,
        }),
        r.1 == (Member { owner: creator, is_council: true, joined_at: now }),
        config_wf(r.0),
{
    let config = DAOConfig {
        id,
        vote_pct,
        consensus_pct,
        min_multisig_signers,
        request_lifetime,
        members_count: 0,
        council_count: 1,
    };
    let founder = Member { owner: creator, is_council: true, joined_at: now };
    (config, founder)
}

/// Enroll a new principal as a non-council member, sponsored by a council
/// member; increments the member counter with checked arithmetic.
pub fn add_member(config: &mut DAOConfig, sponsor: &Member, aspirant: u64, now: i64) -> (r: Result<
    Member,
    ProthesisError,
>)
    ensures
        match add_member_step(*old(config), *sponsor, aspirant, now) {
            Ok((c2, m)) => r == Ok::<Member, ProthesisError>(m) && *final(config) == c2,
            Err(e) => r == Err::<Member, ProthesisError>(e) && *final(config) == *old(config),
        },
{
    if !sponsor.is_council {
        return Err(ProthesisError::NotCouncilMember);
    }
    if config.members_count == u64::MAX {
        return Err(ProthesisError::CountOutOfRange);
    }
    config.members_count = config.members_count + 1;
    Ok(Member { owner: aspirant, is_council: false, joined_at: now })
}

/// Remove the exiting member from the counters; the host retires the member
/// record and credits its storage value to the treasury.
pub fn exit_dao(config: &mut DAOConfig, exiting_member: &Member) -> (r: Result<
    (),
    ProthesisError,
>)
    ensures
        match exit_dao_step(*old(config), *exiting_member) {
            Ok(c2) => r == Ok::<(), ProthesisError>(()) && *final(config) == c2,
            Err(e) => r == Err::<(), ProthesisError>(e) && *final(config) == *old(config),
        },
{
    if exiting_member.is_council && config.council_count == 0 {
        return Err(ProthesisError::CountOutOfRange);
    }
    if config.members_count == 0 {
        return Err(ProthesisError::CountOutOfRange);
    }
    if exiting_member.is_council {
        config.council_count = config.council_count - 1;
    }
    config.members_count = config.members_count - 1;
    Ok(())
}

} // verus!
