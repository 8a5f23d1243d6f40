//! The structured records a transition emits for the external event sink.
//! Emission is fire-and-forget: the engine builds the record and the caller
//! appends it to the log.

use vstd::prelude::*;

verus! {

/// Emitted after every accepted contribution.
#[derive(Clone, Copy, Debug, PartialEq, Eq, Structural)]
pub struct ContributionEvent {
    pub at: i64,
    pub amount: u64,
    pub platform_after: u64,
    pub from: u64,
    pub referrer: u64,
}

/// Emitted after every settled withdrawal.
#[derive(Clone, Copy, Debug, PartialEq, Eq, Structural)]
pub struct WithdrawEvent {
    pub at: i64,
    pub amount: u64,
}

} // verus!
