//! The ledger's state transitions.
//!
//! Each public function here is one externally-triggered call: it takes the
//! records the runtime loaded and the plain values it read (the clock, the
//! caller's identity, account balances, the reserve floor), validates them,
//! mutates the records all-or-nothing, and returns the external actions
//! still owed — the transfer amounts, the token quantities to mint, and the
//! event to append. A rejected call mutates nothing.

use crate::errors::FundraiseErrors;
use crate::events::ContributionEvent;
use crate::events::WithdrawEvent;
use crate::leaderboard::ContributorStruct;
use crate::leaderboard::TopTenContributors;
use crate::leaderboard::lb_wf;
use crate::leaderboard::updated_leaderboard;
use crate::ledger::FUNDRAISE_CAMPAIGN_CAP;
use crate::ledger::Funds;
use crate::ledger::entry_index;
use crate::ledger::funds_wf;
use crate::ledger::has_entry;
use crate::ledger::inserted_balances;
use crate::ledger::lemma_redistribution_conservation;
use crate::ledger::lemma_sum_entry_bound;
use crate::ledger::lemma_sum_nonneg;
use crate::ledger::lemma_sum_remove;
use crate::ledger::share_of;
use crate::ledger::sum_amounts;
use crate::records::Contributor;
use crate::records::FundraiseAccount;
use vstd::prelude::*;

verus! {

/// Reward tokens minted to the referrer per native unit contributed.
pub const CHRT_REWARD_RATIO: u64 = 101;

/// The commission portion of a contribution: the amount's whole hundredths
/// times the percent rate.
pub open spec fn commission_portion(amount: u64, rate: u64) -> int {
    (amount as int / 100) * rate
}

/// Whether a commission fee is charged for a contribution to this campaign:
/// it is while the campaign's commission-free token tally is still below the
/// platform threshold. (The polarity mirrors the recorded rule as it stands;
/// it is deliberately not second-guessed.)
pub open spec fn fee_charged(campaign: FundraiseAccount, f: Funds) -> bool {
    campaign.chrt_recieved < f.chrt_comsn_exempt_threshold
}

/// The fee a contribution accrues: the commission portion when charged,
/// nothing otherwise.
pub open spec fn contribution_fee(amount: u64, campaign: FundraiseAccount, f: Funds) -> int {
    if fee_charged(campaign, f) {
        commission_portion(amount, f.commission)
    } else {
        0
    }
}

/// The contributor slot a contribution resolves to: id zero asks for a fresh
/// slot at the counter; any other id names an existing slot.
pub open spec fn resolved_slot(f: Funds, id: u64) -> u64 {
    if id == 0 {
        f.id_counter
    } else {
        id
    }
}

/// The validation gate of a contribution: a positive amount, a slot id no
/// greater than the counter, and a goal not yet reached.
pub open spec fn contribute_accepted(f: Funds, id: u64, amount: u64) -> bool {
    amount > 0 && id <= f.id_counter && f.raised < f.goal
}

/// The machine-limit bounds an accepted contribution must respect so that no
/// counter or balance overflows; a rejected call computes nothing and needs
/// none of them.
pub open spec fn contribute_fits(f: Funds, acc: Contributor, id: u64, amount: u64, now: i64) -> bool {
    let c = commission_portion(amount, f.commission);
    let slot = resolved_slot(f, id);
    let new_slot = slot == f.id_counter;
    &&& c <= amount
    &&& f.raised + amount <= u64::MAX
    &&& f.commission_accrued + c <= u64::MAX
    &&& (new_slot ==> f.id_counter < u64::MAX)
    &&& (if new_slot {
        amount as int
    } else {
        acc.amount + amount
    }) <= u64::MAX
    &&& amount * CHRT_REWARD_RATIO <= u64::MAX
    &&& i64::MIN <= now + f.n_period <= i64::MAX
    &&& (!has_entry(f.raised_campaign_amounts@, slot) ==> f.raised_campaign_amounts@.len()
        < FUNDRAISE_CAMPAIGN_CAP)
}

/// What an accepted contribution leaves behind and owes, relating the
/// records before and after the call: the fee and net amount, the slot
/// resolution, the balance-list entry, the leaderboard step, the periodic
/// drain, and the emitted event.
pub open spec fn contribute_updates(
    pre_funds: Funds,
    pre_top: Seq<ContributorStruct>,
    pre_acc: Contributor,
    campaign: FundraiseAccount,
    contributor: u64,
    id: u64,
    amount: u64,
    referrer: u64,
    now: i64,
    post_funds: Funds,
    post_top: Seq<ContributorStruct>,
    post_acc: Contributor,
    outcome: ContributionOutcome,
) -> bool {
    let c = commission_portion(amount, pre_funds.commission);
    let fee = contribution_fee(amount, campaign, pre_funds);
    let slot = resolved_slot(pre_funds, id);
    let new_slot = slot == pre_funds.id_counter;
    let cum = if new_slot {
        amount as int
    } else {
        pre_acc.amount + amount
    };
    let lb_addr = if new_slot {
        contributor
    } else {
        pre_acc.address
    };
    let board = updated_leaderboard(pre_top, lb_addr, cum as u64);
    let drained = now >= pre_funds.n_period_cooldown;
    &&& post_acc.address == lb_addr
    &&& post_acc.amount == cum
    &&& post_acc.referrer@ == pre_acc.referrer@.push(referrer)
    &&& post_funds.authority == pre_funds.authority
    &&& post_funds.goal == pre_funds.goal
    &&& post_funds.raised == pre_funds.raised + (amount - c)
    &&& post_funds.id_counter == if new_slot {
        pre_funds.id_counter + 1
    } else {
        pre_funds.id_counter as int
    }
    &&& post_funds.n_period == pre_funds.n_period
    &&& post_funds.n_period_cooldown == if drained {
        now + pre_funds.n_period
    } else {
        pre_funds.n_period_cooldown as int
    }
    &&& post_funds.commission == pre_funds.commission
    &&& post_funds.commission_accrued == pre_funds.commission_accrued + fee
    &&& post_funds.chrt_reward == pre_funds.chrt_reward
    &&& post_funds.chrt_comsn_exempt_threshold == pre_funds.chrt_comsn_exempt_threshold
    &&& post_funds.chrt_camp_close_threshold == pre_funds.chrt_camp_close_threshold
    &&& post_funds.raised_campaign_amounts@ == inserted_balances(
        pre_funds.raised_campaign_amounts@,
        slot,
        amount,
    )
    &&& post_funds.compleated_campaigns == pre_funds.compleated_campaigns
    &&& post_top == if drained {
        Seq::<ContributorStruct>::empty()
    } else {
        board
    }
    &&& outcome.transfer_to_platform == amount - c
    &&& outcome.commission_transfer == fee
    &&& outcome.referrer_reward == amount * CHRT_REWARD_RATIO
    &&& outcome.period_payouts@.len() == if drained {
        board.len() as int
    } else {
        0int
    }
    &&& (drained ==> forall|k: int|
        0 <= k < board.len() ==> outcome.period_payouts@[k] == board[k].address)
    &&& outcome.event == (ContributionEvent {
        at: now,
        amount,
        platform_after: post_funds.raised,
        from: lb_addr,
        referrer,
    })
}

/// What an accepted contribution means for the platform record alone: the
/// gate admitted the call while the total sat below the goal, and the raised
/// total did not shrink. `contribute` ensures this of every accepted call.
pub open spec fn contribution_step(pre: Funds, post: Funds) -> bool {
    pre.raised < pre.goal && pre.raised <= post.raised
}

/// Goal monotonicity: along any run of platform states whose every step is
/// an accepted contribution, the raised total never decreases — and each
/// step was admitted only while the total still sat below the goal.
pub proof fn lemma_goal_monotonicity(states: Seq<Funds>)
    requires
        forall|i: int|
            0 <= i < states.len() - 1 ==> contribution_step(#[trigger] states[i], states[i + 1]),
    ensures
        forall|i: int, j: int|
            0 <= i <= j < states.len() ==> states[i].raised <= states[j].raised,
        forall|i: int| 0 <= i < states.len() - 1 ==> (#[trigger] states[i]).raised < states[i].goal,
{
    assert forall|i: int, j: int|
        0 <= i <= j < states.len() implies states[i].raised <= states[j].raised by {
        lemma_raised_le(states, i, j);
    }
}

/// The induction behind `lemma_goal_monotonicity`, over the span of a run.
proof fn lemma_raised_le(states: Seq<Funds>, i: int, j: int)
    requires
        forall|k: int|
            0 <= k < states.len() - 1 ==> contribution_step(#[trigger] states[k], states[k + 1]),
        0 <= i <= j < states.len(),
    ensures
        states[i].raised <= states[j].raised,
    decreases j - i,
{
    if i < j {
        lemma_raised_le(states, i, j - 1);
        assert(contribution_step(states[j - 1], states[j]));
    }
}

/// The external actions an accepted contribution owes, and its event.
///
/// The contributor first moves `transfer_to_platform` native units to the
/// platform account; when `commission_transfer` is positive that much more is
/// moved in a second transfer. `referrer_reward` reward tokens are minted to
/// the referrer, and `chrt_reward` tokens to each address in
/// `period_payouts`, in order, when the period deadline drained the board.
#[derive(Clone, Debug, PartialEq, Eq)]
pub struct ContributionOutcome {
    pub transfer_to_platform: u64,
    pub commission_transfer: u64,
    pub referrer_reward: u64,
    pub period_payouts: Vec<u64>,
    pub event: ContributionEvent,
}

/// Creates a platform record and its empty leaderboard.
///
/// Rejects a zero goal with `ZeroLamports`; otherwise every accumulator
/// starts at zero and the first reward period ends `n_period` after `now`.
pub fn initialize(
    authority: u64,
    goal: u64,
    commission: u64,
    chrt_reward: u64,
    n_period: i64,
    chrt_comsn_exempt_threshold: u64,
    chrt_camp_close_threshold: u64,
    now: i64,
) -> (r: Result<(Funds, TopTenContributors), FundraiseErrors>)
    requires
        i64::MIN <= now + n_period <= i64::MAX,
    ensures
        goal == 0 ==> r is Err && r->Err_0 == FundraiseErrors::ZeroLamports,
        goal > 0 ==> r is Ok && r->Ok_0.0 == (Funds {
            authority,
            goal,
            raised: 0u64,
            id_counter: 0u64,
            n_period,
            n_period_cooldown: (now + n_period) as i64,
            commission,
            commission_accrued: 0u64,
            chrt_reward,
            chrt_comsn_exempt_threshold,
            chrt_camp_close_threshold,
            raised_campaign_amounts: r->Ok_0.0.raised_campaign_amounts,
            compleated_campaigns: 0u32,
        }) && r->Ok_0.0.raised_campaign_amounts@ == Seq::<crate::ledger::RaisedCampaignAmount>::empty()
            && r->Ok_0.1@ == Seq::<ContributorStruct>::empty(),
        r is Ok ==> funds_wf(r->Ok_0.0) && lb_wf(r->Ok_0.1@),
{
    if goal == 0 {
        return Err(FundraiseErrors::ZeroLamports);
    }
    let funds = Funds {
        authority,
        goal,
        raised: 0,
        id_counter: 0,
        n_period,
        n_period_cooldown: now + n_period,
        commission,
        commission_accrued: 0,
        chrt_reward,
        chrt_comsn_exempt_threshold,
        chrt_camp_close_threshold,
        raised_campaign_amounts: Vec::new(),
        compleated_campaigns: 0,
    };
    let top_ten_contributors = TopTenContributors::new();
    Ok((funds, top_ten_contributors))
}

/// Allocates a campaign record for its authority: inactive, not commission
/// free, every token tally zero.
pub fn create_new_campaign(campaign_authority: u64) -> (r: FundraiseAccount)
    ensures
        r == (FundraiseAccount {
            campaign_authority,
            is_commission_free: false,
            is_active: false,
            chrt_recieved: 0u64,
            chrt_cover_goal: 0u64,
            raised_after_commission: 0u64,
        }),
{
    FundraiseAccount {
        campaign_authority,
        is_commission_free: false,
        is_active: false,
        chrt_recieved: 0,
        chrt_cover_goal: 0,
        raised_after_commission: 0,
    }
}

/// Validates and applies one contribution, all-or-nothing.
///
/// Rejections, checked in this order and leaving every record untouched:
/// `ZeroLamports` for a zero amount, `IDGreaterThanCounter` for a slot id
/// past the counter, `GoalAchieved` once `raised` has met the goal — so the
/// raised total never decreases and no contribution is accepted after it
/// reaches the goal (goal monotonicity). On acceptance the records change as
/// `contribute_updates` states, and the well-formedness of the platform
/// record and the leaderboard is preserved.
pub fn contribute(
    funds: &mut Funds,
    top_ten: &mut TopTenContributors,
    contributor_acc: &mut Contributor,
    campaign_acc: &FundraiseAccount,
    contributor: u64,
    id: u64,
    amount: u64,
    referrer: u64,
    now: i64,
) -> (r: Result<ContributionOutcome, FundraiseErrors>)
    requires
        funds_wf(*old(funds)),
        lb_wf(old(top_ten)@),
        contribute_accepted(*old(funds), id, amount) ==> contribute_fits(
            *old(funds),
            *old(contributor_acc),
            id,
            amount,
            now,
        ),
    ensures
        funds_wf(*final(funds)),
        lb_wf(final(top_ten)@),
        amount == 0 ==> r is Err && r->Err_0 == FundraiseErrors::ZeroLamports,
        amount > 0 && id > old(funds).id_counter ==> r is Err && r->Err_0
            == FundraiseErrors::IDGreaterThanCounter,
        amount > 0 && id <= old(funds).id_counter && old(funds).raised >= old(funds).goal ==> r
            is Err && r->Err_0 == FundraiseErrors::GoalAchieved,
        r is Err ==> *final(funds) == *old(funds) && final(top_ten)@ == old(top_ten)@
            && *final(contributor_acc) == *old(contributor_acc),
        r is Ok <==> contribute_accepted(*old(funds), id, amount),
        r is Ok ==> contribution_step(*old(funds), *final(funds)),
        r is Ok ==> contribute_updates(
            *old(funds),
            old(top_ten)@,
            *old(contributor_acc),
            *campaign_acc,
            contributor,
            id,
            amount,
            referrer,
            now,
            *final(funds),
            final(top_ten)@,
            *final(contributor_acc),
            r->Ok_0,
        ),
{
    if amount == 0 {
        return Err(FundraiseErrors::ZeroLamports);
    }
    if id > funds.id_counter {
        return Err(FundraiseErrors::IDGreaterThanCounter);
    }
    if funds.raised >= funds.goal {
        return Err(FundraiseErrors::GoalAchieved);
    }
    let is_commission_free = campaign_acc.chrt_recieved < funds.chrt_comsn_exempt_threshold;
    // the rate is in percent, so the amount is first cut to whole hundredths
    let commission_percentage: u64 = amount / 100 * funds.commission;
    let fee: u64 = if is_commission_free {
        commission_percentage
    } else {
        0
    };
    let rough_amount: u64 = amount - commission_percentage;

    let mut slot_id: u64 = id;
    if slot_id == 0 {
        slot_id = funds.id_counter;
    }
    if slot_id == funds.id_counter {
        contributor_acc.address = contributor;
        contributor_acc.amount = 0;
        funds.id_counter = funds.id_counter + 1;
    }
    funds.record_campaign_amount(slot_id, amount);
    contributor_acc.amount = contributor_acc.amount + amount;
    contributor_acc.referrer.push(referrer);
    funds.commission_accrued = funds.commission_accrued + fee;
    funds.raised = funds.raised + rough_amount;

    top_ten.update(contributor_acc.address, contributor_acc.amount);
    let referrer_reward: u64 = amount * CHRT_REWARD_RATIO;

    let mut period_payouts: Vec<u64> = Vec::new();
    if now >= funds.n_period_cooldown {
        period_payouts = top_ten.drain_addresses();
        funds.n_period_cooldown = now + funds.n_period;
    }
    let event = ContributionEvent {
        at: now,
        amount,
        platform_after: funds.raised,
        from: contributor_acc.address,
        referrer,
    };
    Ok(ContributionOutcome {
        transfer_to_platform: rough_amount,
        commission_transfer: fee,
        referrer_reward,
        period_payouts,
        event,
    })
}

/// Applies a token-denominated contribution to a campaign: the caller moves
/// `amount` reward tokens to the campaign's token account, and the tally the
/// `is_commission_free` flag selects grows by that amount. No native
/// currency moves and the leaderboard is untouched.
pub fn contribute_chrt(
    campaign_acc: &mut FundraiseAccount,
    amount: u64,
    is_commission_free: bool,
) -> (transfer_amount: u64)
    requires
        is_commission_free ==> old(campaign_acc).chrt_recieved + amount <= u64::MAX,
        !is_commission_free ==> old(campaign_acc).chrt_cover_goal + amount <= u64::MAX,
    ensures
        transfer_amount == amount,
        is_commission_free ==> *final(campaign_acc) == (FundraiseAccount {
            chrt_recieved: (old(campaign_acc).chrt_recieved + amount) as u64,
            ..*old(campaign_acc)
        }),
        !is_commission_free ==> *final(campaign_acc) == (FundraiseAccount {
            chrt_cover_goal: (old(campaign_acc).chrt_cover_goal + amount) as u64,
            ..*old(campaign_acc)
        }),
{
    if is_commission_free {
        campaign_acc.chrt_recieved = campaign_acc.chrt_recieved + amount;
    } else {
        campaign_acc.chrt_cover_goal = campaign_acc.chrt_cover_goal + amount;
    }
    amount
}

/// Settles a withdrawal of the raised total down to the reserve floor.
///
/// Rejects `ZeroLamportsRaised` while nothing is raised, `NotTheOwner` for a
/// caller other than the recorded campaign authority, and
/// `InsufficientBalance` when the account cannot cover the reserve floor. On
/// success the paid amount is exactly the balance above the floor — the
/// account is never drawn below it — and `raised` returns to zero, so a
/// second withdrawal without new contributions is rejected.
pub fn withdraw(
    funds: &mut Funds,
    campaign_acc: &FundraiseAccount,
    authority: u64,
    current_balance: u64,
    rent_exemption: u64,
    now: i64,
) -> (r: Result<(u64, WithdrawEvent), FundraiseErrors>)
    ensures
        old(funds).raised == 0 ==> r is Err && r->Err_0 == FundraiseErrors::ZeroLamportsRaised,
        old(funds).raised > 0 && campaign_acc.campaign_authority != authority ==> r is Err
            && r->Err_0 == FundraiseErrors::NotTheOwner,
        old(funds).raised > 0 && campaign_acc.campaign_authority == authority && current_balance
            < rent_exemption ==> r is Err && r->Err_0 == FundraiseErrors::InsufficientBalance,
        r is Err ==> *final(funds) == *old(funds),
        r is Ok <==> old(funds).raised > 0 && campaign_acc.campaign_authority == authority
            && current_balance >= rent_exemption,
        r is Ok ==> r->Ok_0.0 == current_balance - rent_exemption && current_balance - r->Ok_0.0
            == rent_exemption && *final(funds) == (Funds { raised: 0u64, ..*old(funds) })
            && r->Ok_0.1 == (WithdrawEvent { at: now, amount: r->Ok_0.0 }),
{
    if funds.raised == 0 {
        return Err(FundraiseErrors::ZeroLamportsRaised);
    }
    if campaign_acc.campaign_authority != authority {
        return Err(FundraiseErrors::NotTheOwner);
    }
    if current_balance < rent_exemption {
        return Err(FundraiseErrors::InsufficientBalance);
    }
    let withdraw_amount: u64 = current_balance - rent_exemption;
    funds.raised = 0;
    Ok((withdraw_amount, WithdrawEvent { at: now, amount: withdraw_amount }))
}

/// Pays the whole accrued commission out to the platform owner and resets
/// the accrual; any other caller is rejected with `NotTheOwner`. There is
/// deliberately no reserve-floor consideration here.
pub fn withdraw_commission(funds: &mut Funds, authority: u64) -> (r: Result<
    u64,
    FundraiseErrors,
>)
    ensures
        authority != old(funds).authority ==> r is Err && r->Err_0 == FundraiseErrors::NotTheOwner
            && *final(funds) == *old(funds),
        authority == old(funds).authority ==> r is Ok && r->Ok_0 == old(funds).commission_accrued
            && *final(funds) == (Funds { commission_accrued: 0u64, ..*old(funds) }),
{
    if authority != funds.authority {
        return Err(FundraiseErrors::NotTheOwner);
    }
    let paid = funds.commission_accrued;
    funds.commission_accrued = 0;
    Ok(paid)
}

/// The guard gate of a closure: the flag and threshold conditions as
/// recorded, checked against the state before any mutation.
pub open spec fn close_guards_ok(f: Funds, c: FundraiseAccount) -> bool {
    !c.is_active && f.chrt_camp_close_threshold > c.chrt_cover_goal
}

/// Closes a campaign and redistributes its balance over the survivors.
///
/// Rejections, in order and mutating nothing: `CampaignNotActive` against
/// the activity flag, `InsufficientTokens` against the closing threshold,
/// and `EmptyRedistributionBase` when the remaining balances sum to zero, so
/// the floor division below is never taken over zero. On success the flag
/// flips, the campaign's entry leaves the list, and every surviving balance
/// grows by its floor-proportional share of the removed amount; the sum of
/// the survivors thus grows by the removed amount less a rounding loss
/// smaller than their number, and the list stays strictly sorted.
pub fn end_fundraise(funds: &mut Funds, campaign_acc: &mut FundraiseAccount, id: u64) -> (r:
    Result<(), FundraiseErrors>)
    requires
        funds_wf(*old(funds)),
        sum_amounts(old(funds).raised_campaign_amounts@) <= u64::MAX,
        close_guards_ok(*old(funds), *old(campaign_acc)) ==> has_entry(
            old(funds).raised_campaign_amounts@,
            id,
        ),
    ensures
        funds_wf(*final(funds)),
        old(campaign_acc).is_active ==> r is Err && r->Err_0 == FundraiseErrors::CampaignNotActive,
        !old(campaign_acc).is_active && old(funds).chrt_camp_close_threshold
            <= old(campaign_acc).chrt_cover_goal ==> r is Err && r->Err_0
            == FundraiseErrors::InsufficientTokens,
        close_guards_ok(*old(funds), *old(campaign_acc)) && sum_amounts(
            old(funds).raised_campaign_amounts@.remove(
                entry_index(old(funds).raised_campaign_amounts@, id),
            ),
        ) == 0 ==> r is Err && r->Err_0 == FundraiseErrors::EmptyRedistributionBase,
        r is Err ==> *final(funds) == *old(funds) && *final(campaign_acc) == *old(campaign_acc),
        r is Ok <==> close_guards_ok(*old(funds), *old(campaign_acc)) && sum_amounts(
            old(funds).raised_campaign_amounts@.remove(
                entry_index(old(funds).raised_campaign_amounts@, id),
            ),
        ) > 0,
        r is Ok ==> ({
            let s = old(funds).raised_campaign_amounts@;
            let ei = entry_index(s, id);
            let rest = s.remove(ei);
            let removed = s[ei].amount;
            let t = sum_amounts(rest);
            let post = final(funds).raised_campaign_amounts@;
            &&& *final(campaign_acc) == (FundraiseAccount {
                is_active: true,
                ..*old(campaign_acc)
            })
            &&& post.len() == rest.len()
            &&& (forall|k: int|
                0 <= k < rest.len() ==> (#[trigger] post[k]).campaign_id == rest[k].campaign_id
                    && post[k].amount == rest[k].amount + share_of(
                    removed as int,
                    rest[k].amount as int,
                    t,
                ))
            &&& t + removed - rest.len() <= sum_amounts(post) <= t + removed
            &&& *final(funds) == (Funds {
                raised_campaign_amounts: final(funds).raised_campaign_amounts,
                ..*old(funds)
            })
        }),
{
    if campaign_acc.is_active {
        return Err(FundraiseErrors::CampaignNotActive);
    }
    if funds.chrt_camp_close_threshold <= campaign_acc.chrt_cover_goal {
        return Err(FundraiseErrors::InsufficientTokens);
    }
    let ghost s = funds.raised_campaign_amounts@;
    let idx = funds.find_campaign_entry(id);
    let redistribute_amount: u64 = funds.raised_campaign_amounts[idx].amount;
    let total_all: u128 = funds.total_amounts();
    proof {
        lemma_sum_entry_bound(s, idx as int);
        lemma_sum_nonneg(s);
        lemma_sum_remove(s, idx as int);
    }
    let total128: u128 = total_all - (redistribute_amount as u128);
    if total128 == 0 {
        return Err(FundraiseErrors::EmptyRedistributionBase);
    }
    campaign_acc.is_active = true;
    funds.raised_campaign_amounts.remove(idx);
    let ghost rest = funds.raised_campaign_amounts@;
    proof {
        assert(rest == s.remove(idx as int));
        assert(crate::ledger::balances_sorted(rest)) by {
            assert(forall|k: int|
                0 <= k < rest.len() ==> rest[k] == if k < idx {
                    s[k]
                } else {
                    s[k + 1]
                });
        }
    }
    let total: u64 = total128 as u64;
    funds.apply_redistribution(redistribute_amount, total);
    proof {
        let post = funds.raised_campaign_amounts@;
        lemma_redistribution_conservation(rest, post, redistribute_amount);
        assert(crate::ledger::balances_sorted(post)) by {
            assert(forall|k: int|
                0 <= k < post.len() ==> (#[trigger] post[k]).campaign_id == rest[k].campaign_id);
        }
    }
    Ok(())
}

} // verus!
