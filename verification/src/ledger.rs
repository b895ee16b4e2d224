//! The vote ledger: one vote per (principal, target-request) pair.
//!
//! The host gives every (voter, target) pair a collision-free derived storage
//! address, so creating a vote record is all-or-nothing; the ledger models
//! that as a sequence of records in which no pair occurs twice, and rejects a
//! duplicate atomically. This is the sole double-vote defense.

use vstd::prelude::*;

use crate::error::ProthesisError;
use crate::state::{Vote, VoteType};

verus! {

/// Whether the ledger holds a vote by `voter` on `target`.
pub open spec fn has_vote(l: Seq<Vote>, voter: u64, target: u64) -> bool {
    exists|i: int| 0 <= i < l.len() && l[i].voter == voter && l[i].target == target
}

/// No (voter, target) pair occurs twice: at most one vote per pair.
pub open spec fn ledger_wf(l: Seq<Vote>) -> bool {
    forall|i: int, j: int|
        0 <= i < j < l.len() ==> !(l[i].voter == l[j].voter && l[i].target == l[j].target)
}

/// How many votes of direction `vt` the ledger holds on `target`.
pub open spec fn count_votes_of(l: Seq<Vote>, target: u64, vt: VoteType) -> int
    decreases l.len(),
{
    if l.len() == 0 {
        0
    } else {
        count_votes_of(l.drop_last(), target, vt) + if l.last().target == target
            && l.last().vote_type == vt {
            1int
        } else {
            0int
        }
    }
}

/// What casting a vote does: a duplicate pair is rejected with no effect,
/// any other vote is appended.
pub open spec fn cast_step(l: Seq<Vote>, voter: u64, target: u64, vt: VoteType) -> Result<
    Seq<Vote>,
    ProthesisError,
> {
    if has_vote(l, voter, target) {
        Err(ProthesisError::DuplicateVote)
    } else {
        Ok(l.push(Vote { voter, target, vote_type: vt }))
    }
}

/// The record of all votes ever cast in this DAO instance.
#[derive(Debug)]
pub struct VoteLedger {
    records: Vec<Vote>,
}

impl View for VoteLedger {
    type V = Seq<Vote>;

    closed spec fn view(&self) -> Seq<Vote> {
        self.records@
    }
}

impl VoteLedger {
    /// An empty ledger.
    pub fn new() -> (r: VoteLedger)
        ensures
            r@ == Seq::<Vote>::empty(),
    {
        VoteLedger { records: Vec::new() }
    }

    /// Whether a vote by `voter` on `target` has been recorded.
    pub fn contains_vote(&self, voter: u64, target: u64) -> (b: bool)
        ensures
            b == has_vote(self@, voter, target),
    {
        let n: usize = self.records.len();
        let mut i: usize = 0;
        while i < n
            invariant
                n == self.records.len(),
                0 <= i <= n,
                forall|k: int|
                    0 <= k < i ==> !(self@[k].voter == voter && self@[k].target == target),
            decreases n - i,
        {
            let rec = self.records[i];
            if rec.voter == voter && rec.target == target {
                assert(self@[i as int].voter == voter && self@[i as int].target == target);
                return true;
            }
            i = i + 1;
        }
        false
    }

    /// Record a vote by `voter` on `target`, atomically rejecting a duplicate
    /// pair with no effect.
    pub fn cast(&mut self, voter: u64, target: u64, vt: VoteType) -> (r: Result<
        (),
        ProthesisError,
    >)
        ensures
            match cast_step(old(self)@, voter, target, vt) {
                Ok(l2) => r == Ok::<(), ProthesisError>(()) && final(self)@ == l2,
                Err(e) => r == Err::<(), ProthesisError>(e) && final(self)@ == old(self)@,
            },
            ledger_wf(old(self)@) ==> ledger_wf(final(self)@),
    {
        if self.contains_vote(voter, target) {
            Err(ProthesisError::DuplicateVote)
        } else {
            self.records.push(Vote { voter, target, vote_type: vt });
            Ok(())
        }
    }
}

} // verus!
