//! A governance engine for a membership organization that holds shared funds.
//!
//! The library manages member enrollment, council-role transitions, funding
//! proposals, and threshold-based voting, and it gates release of pooled funds
//! behind a minimum-signer policy. Record storage, identity verification, and
//! the actual movement of the native asset are external collaborators: the
//! host hands this library plain values (principals, timestamps, balances) and
//! carries out the decisions it returns.

pub mod error;
pub mod state;
pub mod ledger;
pub mod membership;
pub mod proposal;
pub mod role_change;
pub mod treasury;
pub mod laws;
