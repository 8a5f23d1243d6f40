//! The error taxonomy of the ledger engine. Every failure is reported
//! synchronously to the caller; no transition leaves partial state behind.

use vstd::prelude::*;

verus! {

/// Why a ledger transition was rejected.
#[derive(Clone, Copy, Debug, PartialEq, Eq, Structural)]
pub enum FundraiseErrors {
    /// A contribution or an initial goal of zero native units.
    ZeroLamports,
    /// A withdrawal was attempted while nothing is raised.
    ZeroLamportsRaised,
    /// The platform goal is already reached, so no further contribution is taken.
    GoalAchieved,
    /// The account balance cannot cover the reserve floor that keeps it alive.
    InsufficientBalance,
    /// A contribution named a contributor slot beyond the assigned range.
    IDGreaterThanCounter,
    /// The caller is not the recorded authority of the account.
    NotTheOwner,
    /// The campaign's activity flag forbids closing it.
    CampaignNotActive,
    /// The campaign's accumulated cover tokens already meet the closing threshold.
    InsufficientTokens,
    /// A closure would redistribute over sibling campaigns whose balances sum to zero.
    EmptyRedistributionBase,
}

} // verus!
