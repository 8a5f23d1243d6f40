//! The per-contributor and per-campaign records kept in the external store.
//!
//! Identities (the platform authority, contributors, referrers, campaign
//! authorities) are carried as opaque 64-bit handles: the engine never
//! inspects them beyond equality, and the surrounding runtime maps its real
//! account addresses onto handles when it loads and persists records.

use vstd::prelude::*;

verus! {

/// One contributor slot: its address, cumulative contributed amount, and the
/// referrer named by each of its contribution calls, in call order.
#[derive(Clone, Debug, PartialEq, Eq)]
pub struct Contributor {
    pub address: u64,
    pub amount: u64,
    pub referrer: Vec<u64>,
}

impl Contributor {
    /// A blank slot, as the store hands one out before its first contribution.
    pub fn new() -> (r: Contributor)
        ensures
            r.address == 0,
            r.amount == 0,
            r.referrer@ == Seq::<u64>::empty(),
    {
        Contributor { address: 0, amount: 0, referrer: Vec::new() }
    }
}

/// One campaign's record: its authority, flags, and token-cover accumulators.
/// `is_commission_free` is fixed at creation and read by no later transition;
/// it is kept because the stored record carries it.
#[derive(Clone, Copy, Debug, PartialEq, Eq, Structural)]
pub struct FundraiseAccount {
    pub campaign_authority: u64,
    pub is_commission_free: bool,
    pub is_active: bool,
    pub chrt_recieved: u64,
    pub chrt_cover_goal: u64,
    pub raised_after_commission: u64,
}

} // verus!
