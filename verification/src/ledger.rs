//! The platform-wide ledger record and its bounded campaign-balance list.
//!
//! `raised_campaign_amounts` is a fixed-capacity list (ten slots) of one
//! `(campaign_id, amount)` entry per campaign, kept strictly sorted ascending
//! by campaign id: an entry is created in sorted position on the first
//! contribution tagged with its id, so that closure can locate it by an
//! ordered search. Closing a campaign removes its entry and spreads the
//! removed amount over the surviving entries in proportion to their balances,
//! with widened arithmetic and floor division.

use vstd::arithmetic::div_mod::lemma_div_is_ordered;
use vstd::arithmetic::div_mod::lemma_div_multiples_vanish;
use vstd::arithmetic::div_mod::lemma_div_of0;
use vstd::arithmetic::div_mod::lemma_div_pos_is_pos;
use vstd::arithmetic::div_mod::lemma_fundamental_div_mod;
use vstd::arithmetic::div_mod::lemma_fundamental_div_mod_converse;
use vstd::arithmetic::div_mod::lemma_mod_pos_bound;
use vstd::arithmetic::mul::lemma_mul_inequality;
use vstd::arithmetic::mul::lemma_mul_is_commutative;
use vstd::arithmetic::mul::lemma_mul_is_distributive_add;
use vstd::arithmetic::mul::lemma_mul_nonnegative;
use vstd::arithmetic::mul::lemma_mul_upper_bound;
use vstd::prelude::*;

verus! {

/// The campaign-balance list capacity.
pub const FUNDRAISE_CAMPAIGN_CAP: usize = 10;

/// One campaign's share of the raised total, keyed by campaign id.
#[derive(Clone, Copy, Debug, PartialEq, Eq, Structural)]
pub struct RaisedCampaignAmount {
    pub amount: u64,
    pub campaign_id: u64,
}

/// The platform record: goal, running total, commission bookkeeping, the
/// contributor-slot counter, the reward-period state and the campaign
/// balances. `commission` is the percent rate fixed at initialization;
/// `commission_accrued` is the fee total awaiting settlement.
#[derive(Clone, Debug, PartialEq, Eq)]
pub struct Funds {
    pub authority: u64,
    pub goal: u64,
    pub raised: u64,
    pub id_counter: u64,
    pub n_period: i64,
    pub n_period_cooldown: i64,
    pub commission: u64,
    pub commission_accrued: u64,
    pub chrt_reward: u64,
    pub chrt_comsn_exempt_threshold: u64,
    pub chrt_camp_close_threshold: u64,
    pub raised_campaign_amounts: Vec<RaisedCampaignAmount>,
    pub compleated_campaigns: u32,
}

/// Campaign ids strictly ascend along the list.
pub open spec fn balances_sorted(s: Seq<RaisedCampaignAmount>) -> bool {
    forall|i: int, j: int| 0 <= i < j < s.len() ==> s[i].campaign_id < s[j].campaign_id
}

/// Well-formedness of the platform record: the balance list is strictly
/// sorted by campaign id and within capacity.
pub open spec fn funds_wf(f: Funds) -> bool {
    balances_sorted(f.raised_campaign_amounts@)
        && f.raised_campaign_amounts@.len() <= FUNDRAISE_CAMPAIGN_CAP
}

/// Whether the list holds an entry for the given campaign id.
pub open spec fn has_entry(s: Seq<RaisedCampaignAmount>, id: u64) -> bool {
    exists|i: int| 0 <= i < s.len() && s[i].campaign_id == id
}

/// The first index holding the given campaign id.
pub open spec fn entry_index(s: Seq<RaisedCampaignAmount>, id: u64) -> int
    decreases s.len(),
{
    if s.len() == 0 {
        0
    } else if s[0].campaign_id == id {
        0
    } else {
        1 + entry_index(s.skip(1), id)
    }
}

/// The position at which an absent id belongs: the count of entries with a
/// smaller id.
pub open spec fn insert_pos(s: Seq<RaisedCampaignAmount>, id: u64) -> int
    decreases s.len(),
{
    if s.len() == 0 {
        0
    } else if s[0].campaign_id >= id {
        0
    } else {
        1 + insert_pos(s.skip(1), id)
    }
}

/// The balance list after recording a contribution tagged with `id`: the
/// first contribution for an id creates its entry, in sorted position; later
/// ones leave the list as it is.
pub open spec fn inserted_balances(
    s: Seq<RaisedCampaignAmount>,
    id: u64,
    amount: u64,
) -> Seq<RaisedCampaignAmount> {
    if has_entry(s, id) {
        s
    } else {
        s.insert(insert_pos(s, id), RaisedCampaignAmount { amount, campaign_id: id })
    }
}

/// The sum of the amounts along the list.
pub open spec fn sum_amounts(s: Seq<RaisedCampaignAmount>) -> int
    decreases s.len(),
{
    if s.len() == 0 {
        0
    } else {
        sum_amounts(s.drop_last()) + s.last().amount
    }
}

/// The first entry-index is in range, matches, and nothing before it does.
pub proof fn lemma_entry_index_first(s: Seq<RaisedCampaignAmount>, id: u64)
    requires
        has_entry(s, id),
    ensures
        0 <= entry_index(s, id) < s.len(),
        s[entry_index(s, id)].campaign_id == id,
        forall|j: int| 0 <= j < entry_index(s, id) ==> s[j].campaign_id != id,
    decreases s.len(),
{
    if s.len() == 0 {
    } else if s[0].campaign_id == id {
    } else {
        assert(has_entry(s.skip(1), id)) by {
            let i = choose|i: int| 0 <= i < s.len() && s[i].campaign_id == id;
            assert(s.skip(1)[i - 1] == s[i]);
        }
        lemma_entry_index_first(s.skip(1), id);
        assert(forall|j: int| 1 <= j < s.len() ==> s[j] == s.skip(1)[j - 1]);
    }
}

/// In a sorted list without the id, everything before the insert position has
/// a smaller id and everything from it on a larger one.
pub proof fn lemma_insert_pos_sorted(s: Seq<RaisedCampaignAmount>, id: u64)
    requires
        balances_sorted(s),
        !has_entry(s, id),
    ensures
        0 <= insert_pos(s, id) <= s.len(),
        forall|j: int| 0 <= j < insert_pos(s, id) ==> s[j].campaign_id < id,
        forall|j: int| insert_pos(s, id) <= j < s.len() ==> s[j].campaign_id > id,
    decreases s.len(),
{
    if s.len() == 0 {
    } else if s[0].campaign_id >= id {
        assert(s[0].campaign_id != id);
        assert forall|j: int| 0 <= j < s.len() implies s[j].campaign_id > id by {
            if j > 0 {
                assert(s[0].campaign_id < s[j].campaign_id);
            }
        }
    } else {
        assert(balances_sorted(s.skip(1))) by {
            assert(forall|j: int| 1 <= j < s.len() ==> s[j] == s.skip(1)[j - 1]);
        }
        assert(!has_entry(s.skip(1), id)) by {
            if has_entry(s.skip(1), id) {
                let i = choose|i: int| 0 <= i < s.skip(1).len() && s.skip(1)[i].campaign_id == id;
                assert(s[i + 1] == s.skip(1)[i]);
            }
        }
        lemma_insert_pos_sorted(s.skip(1), id);
        assert(forall|j: int| 1 <= j < s.len() ==> s[j] == s.skip(1)[j - 1]);
    }
}

/// Creating an entry in sorted position keeps the list sorted.
pub proof fn lemma_inserted_balances_sorted(s: Seq<RaisedCampaignAmount>, id: u64, amount: u64)
    requires
        balances_sorted(s),
    ensures
        balances_sorted(inserted_balances(s, id, amount)),
{
    if !has_entry(s, id) {
        lemma_insert_pos_sorted(s, id);
        let p = insert_pos(s, id);
        let t = s.insert(p, RaisedCampaignAmount { amount, campaign_id: id });
        assert forall|i: int, j: int| 0 <= i < j < t.len() implies t[i].campaign_id
            < t[j].campaign_id by {
            assert(t[i] == if i < p {
                s[i]
            } else if i == p {
                RaisedCampaignAmount { amount, campaign_id: id }
            } else {
                s[i - 1]
            });
            assert(t[j] == if j < p {
                s[j]
            } else if j == p {
                RaisedCampaignAmount { amount, campaign_id: id }
            } else {
                s[j - 1]
            });
        }
    }
}

/// The sum of a list of unsigned amounts is not negative.
pub proof fn lemma_sum_nonneg(s: Seq<RaisedCampaignAmount>)
    ensures
        sum_amounts(s) >= 0,
    decreases s.len(),
{
    if s.len() > 0 {
        lemma_sum_nonneg(s.drop_last());
    }
}

/// Every entry is bounded by the sum of the whole list.
pub proof fn lemma_sum_entry_bound(s: Seq<RaisedCampaignAmount>, i: int)
    requires
        0 <= i < s.len(),
    ensures
        s[i].amount <= sum_amounts(s),
    decreases s.len(),
{
    if i == s.len() - 1 {
        lemma_sum_nonneg(s.drop_last());
    } else {
        lemma_sum_entry_bound(s.drop_last(), i);
        assert(s.drop_last()[i] == s[i]);
    }
}

/// Extending a prefix by one entry adds that entry's amount to its sum.
pub proof fn lemma_sum_take_step(s: Seq<RaisedCampaignAmount>, j: int)
    requires
        0 <= j < s.len(),
    ensures
        sum_amounts(s.take(j + 1)) == sum_amounts(s.take(j)) + s[j].amount,
{
    assert(s.take(j + 1).drop_last() =~= s.take(j));
    assert(s.take(j + 1).last() == s[j]);
}

/// Removing one entry takes exactly its amount out of the sum.
pub proof fn lemma_sum_remove(s: Seq<RaisedCampaignAmount>, i: int)
    requires
        0 <= i < s.len(),
    ensures
        sum_amounts(s.remove(i)) == sum_amounts(s) - s[i].amount,
    decreases s.len(),
{
    if i == s.len() - 1 {
        assert(s.remove(i) =~= s.drop_last());
    } else {
        lemma_sum_remove(s.drop_last(), i);
        assert(s.remove(i).drop_last() =~= s.drop_last().remove(i));
        assert(s.remove(i).last() == s.last());
    }
}

/// The floor share one surviving balance `a` receives when `r` is spread
/// over a base of `t`.
pub open spec fn share_of(r: int, a: int, t: int) -> int {
    (r * a) / t
}

/// The sum of the floor shares along the list.
pub open spec fn share_sum(s: Seq<RaisedCampaignAmount>, r: int, t: int) -> int
    decreases s.len(),
{
    if s.len() == 0 {
        0
    } else {
        share_sum(s.drop_last(), r, t) + share_of(r, s.last().amount as int, t)
    }
}

/// Floor division distributes over a sum up to a unit: the floors of two
/// summands bracket the floor of their sum.
proof fn lemma_div_add_bounds(x: int, y: int, t: int)
    requires
        t > 0,
        x >= 0,
        y >= 0,
    ensures
        x / t + y / t <= (x + y) / t <= x / t + y / t + 1,
{
    lemma_fundamental_div_mod(x, t);
    lemma_fundamental_div_mod(y, t);
    lemma_mod_pos_bound(x, t);
    lemma_mod_pos_bound(y, t);
    let q1 = x / t;
    let r1 = x % t;
    let q2 = y / t;
    let r2 = y % t;
    lemma_mul_is_distributive_add(t, q1, q2);
    lemma_mul_is_commutative(t, q1 + q2);
    lemma_mul_is_commutative(t, q1 + q2 + 1);
    lemma_mul_is_distributive_add(t, q1 + q2, 1);
    if r1 + r2 < t {
        lemma_fundamental_div_mod_converse(x + y, t, q1 + q2, r1 + r2);
    } else {
        lemma_fundamental_div_mod_converse(x + y, t, q1 + q2 + 1, r1 + r2 - t);
    }
}

/// The summed shares fall short of the ideal proportional total by less than
/// one unit per entry.
proof fn lemma_share_sum_bounds(s: Seq<RaisedCampaignAmount>, r: int, t: int)
    requires
        t > 0,
        r >= 0,
    ensures
        (r * sum_amounts(s)) / t - s.len() <= share_sum(s, r, t) <= (r * sum_amounts(s)) / t,
    decreases s.len(),
{
    if s.len() == 0 {
        assert(r * 0 == 0) by (nonlinear_arith);
        lemma_div_of0(t);
    } else {
        let s0 = s.drop_last();
        let a = s.last().amount as int;
        lemma_share_sum_bounds(s0, r, t);
        lemma_sum_nonneg(s0);
        lemma_mul_is_distributive_add(r, sum_amounts(s0), a);
        lemma_mul_nonnegative(r, sum_amounts(s0));
        lemma_mul_nonnegative(r, a);
        lemma_div_add_bounds(r * sum_amounts(s0), r * a, t);
    }
}

/// Applying the per-entry share formula adds exactly the share sum to the
/// list's total.
proof fn lemma_sum_with_shares(
    pre: Seq<RaisedCampaignAmount>,
    post: Seq<RaisedCampaignAmount>,
    r: int,
    t: int,
)
    requires
        post.len() == pre.len(),
        forall|k: int|
            0 <= k < pre.len() ==> post[k].amount == pre[k].amount + share_of(
                r,
                pre[k].amount as int,
                t,
            ),
    ensures
        sum_amounts(post) == sum_amounts(pre) + share_sum(pre, r, t),
    decreases pre.len(),
{
    if pre.len() > 0 {
        assert(forall|k: int|
            0 <= k < pre.len() - 1 ==> post.drop_last()[k] == post[k] && pre.drop_last()[k]
                == pre[k]);
        lemma_sum_with_shares(pre.drop_last(), post.drop_last(), r, t);
        assert(post.last() == post[pre.len() - 1]);
        assert(pre.last() == pre[pre.len() - 1]);
    }
}

/// Redistribution conserves the total up to floor rounding: spreading a
/// removed balance `r` over surviving balances that sum to `t > 0` raises
/// their sum by exactly `r`, less a rounding loss smaller than the number of
/// surviving entries.
pub proof fn lemma_redistribution_conservation(
    pre: Seq<RaisedCampaignAmount>,
    post: Seq<RaisedCampaignAmount>,
    r: u64,
)
    requires
        sum_amounts(pre) > 0,
        post.len() == pre.len(),
        forall|k: int|
            0 <= k < pre.len() ==> post[k].amount == pre[k].amount + share_of(
                r as int,
                pre[k].amount as int,
                sum_amounts(pre),
            ),
    ensures
        sum_amounts(pre) + r - pre.len() <= sum_amounts(post) <= sum_amounts(pre) + r,
{
    let t = sum_amounts(pre);
    lemma_sum_with_shares(pre, post, r as int, t);
    lemma_share_sum_bounds(pre, r as int, t);
    lemma_mul_is_commutative(r as int, t);
    lemma_div_multiples_vanish(r as int, t);
}

impl Funds {
    /// Locates the balance entry of the given campaign id; the list being
    /// strictly sorted, the entry is unique.
    pub fn find_campaign_entry(&self, id: u64) -> (i: usize)
        requires
            has_entry(self.raised_campaign_amounts@, id),
        ensures
            i < self.raised_campaign_amounts@.len(),
            self.raised_campaign_amounts@[i as int].campaign_id == id,
            i as int == entry_index(self.raised_campaign_amounts@, id),
    {
        let ghost s = self.raised_campaign_amounts@;
        let n: usize = self.raised_campaign_amounts.len();
        let mut i: usize = 0;
        while i < n
            invariant
                n == s.len(),
                s == self.raised_campaign_amounts@,
                i <= n,
                forall|j: int| 0 <= j < i ==> s[j].campaign_id != id,
            decreases n - i,
        {
            if self.raised_campaign_amounts[i].campaign_id == id {
                proof {
                    lemma_entry_index_first(s, id);
                    assert(entry_index(s, id) == i as int);
                }
                return i;
            }
            i += 1;
        }
        proof {
            let k = choose|k: int| 0 <= k < s.len() && s[k].campaign_id == id;
            assert(s[k].campaign_id != id);
        }
        0
    }

    /// The widened sum of all campaign balances.
    pub fn total_amounts(&self) -> (t: u128)
        ensures
            t as int == sum_amounts(self.raised_campaign_amounts@),
    {
        let ghost s = self.raised_campaign_amounts@;
        let n: usize = self.raised_campaign_amounts.len();
        let mut acc: u128 = 0;
        let mut j: usize = 0;
        while j < n
            invariant
                n == s.len(),
                s == self.raised_campaign_amounts@,
                j <= n,
                acc as int == sum_amounts(s.take(j as int)),
                acc <= j as int * u64::MAX,
            decreases n - j,
        {
            proof {
                lemma_sum_take_step(s, j as int);
            }
            acc = acc + self.raised_campaign_amounts[j].amount as u128;
            j += 1;
        }
        proof {
            assert(s.take(n as int) =~= s);
        }
        acc
    }

    /// Grants every balance its floor-proportional share of
    /// `redistribute_amount` over the base `total`. Ids and every other field
    /// stay as they were.
    pub(crate) fn apply_redistribution(&mut self, redistribute_amount: u64, total: u64)
        requires
            total as int == sum_amounts(old(self).raised_campaign_amounts@),
            total > 0,
            redistribute_amount + total <= u64::MAX,
        ensures
            final(self).raised_campaign_amounts@.len() == old(
                self,
            ).raised_campaign_amounts@.len(),
            forall|k: int|
                0 <= k < final(self).raised_campaign_amounts@.len() ==> ({
                    let pre = old(self).raised_campaign_amounts@[k];
                    let post = #[trigger] final(self).raised_campaign_amounts@[k];
                    post.campaign_id == pre.campaign_id && post.amount == pre.amount + share_of(
                        redistribute_amount as int,
                        pre.amount as int,
                        total as int,
                    )
                }),
            final(self).authority == old(self).authority,
            final(self).goal == old(self).goal,
            final(self).raised == old(self).raised,
            final(self).id_counter == old(self).id_counter,
            final(self).n_period == old(self).n_period,
            final(self).n_period_cooldown == old(self).n_period_cooldown,
            final(self).commission == old(self).commission,
            final(self).commission_accrued == old(self).commission_accrued,
            final(self).chrt_reward == old(self).chrt_reward,
            final(self).chrt_comsn_exempt_threshold == old(self).chrt_comsn_exempt_threshold,
            final(self).chrt_camp_close_threshold == old(self).chrt_camp_close_threshold,
            final(self).compleated_campaigns == old(self).compleated_campaigns,
    {
        let ghost s = self.raised_campaign_amounts@;
        let ghost pre_self = *self;
        let n: usize = self.raised_campaign_amounts.len();
        let r = redistribute_amount;
        let t = total;
        let mut j: usize = 0;
        while j < n
            invariant
                n == s.len(),
                self.raised_campaign_amounts@.len() == n,
                *self == (Funds { raised_campaign_amounts: self.raised_campaign_amounts, ..pre_self }),
                pre_self.raised_campaign_amounts@ == s,
                t as int == sum_amounts(s),
                t > 0,
                r + t <= u64::MAX,
                j <= n,
                forall|k: int|
                    j <= k < n ==> self.raised_campaign_amounts@[k] == s[k],
                forall|k: int|
                    0 <= k < j ==> ({
                        let post = #[trigger] self.raised_campaign_amounts@[k];
                        post.campaign_id == s[k].campaign_id && post.amount == s[k].amount
                            + share_of(r as int, s[k].amount as int, t as int)
                    }),
            decreases n - j,
        {
            let e = self.raised_campaign_amounts[j];
            proof {
                assert(e == s[j as int]);
                lemma_sum_entry_bound(s, j as int);
                lemma_mul_upper_bound(r as int, u64::MAX as int, e.amount as int, u64::MAX as int);
                lemma_mul_nonnegative(r as int, e.amount as int);
                lemma_mul_inequality(e.amount as int, t as int, r as int);
                lemma_mul_is_commutative(e.amount as int, r as int);
                lemma_mul_is_commutative(t as int, r as int);
                lemma_div_is_ordered(r as int * e.amount as int, r as int * t as int, t as int);
                lemma_mul_is_commutative(r as int, t as int);
                lemma_div_multiples_vanish(r as int, t as int);
                lemma_div_pos_is_pos(r as int * e.amount as int, t as int);
            }
            let sh128: u128 = (r as u128) * (e.amount as u128) / (t as u128);
            assert(sh128 as int == share_of(r as int, e.amount as int, t as int));
            assert(sh128 <= r);
            let share: u64 = sh128 as u64;
            self.raised_campaign_amounts[j] = RaisedCampaignAmount {
                amount: e.amount + share,
                campaign_id: e.campaign_id,
            };
            j += 1;
        }
    }

    /// Records a contribution tagged with `id` in the campaign-balance list:
    /// the first contribution for an id creates its entry in sorted position,
    /// a later one leaves the list unchanged. Every other field stays as it
    /// was.
    pub fn record_campaign_amount(&mut self, id: u64, amount: u64)
        requires
            funds_wf(*old(self)),
            !has_entry(old(self).raised_campaign_amounts@, id)
                ==> old(self).raised_campaign_amounts@.len() < FUNDRAISE_CAMPAIGN_CAP,
        ensures
            final(self).raised_campaign_amounts@ == inserted_balances(
                old(self).raised_campaign_amounts@,
                id,
                amount,
            ),
            funds_wf(*final(self)),
            final(self).authority == old(self).authority,
            final(self).goal == old(self).goal,
            final(self).raised == old(self).raised,
            final(self).id_counter == old(self).id_counter,
            final(self).n_period == old(self).n_period,
            final(self).n_period_cooldown == old(self).n_period_cooldown,
            final(self).commission == old(self).commission,
            final(self).commission_accrued == old(self).commission_accrued,
            final(self).chrt_reward == old(self).chrt_reward,
            final(self).chrt_comsn_exempt_threshold == old(self).chrt_comsn_exempt_threshold,
            final(self).chrt_camp_close_threshold == old(self).chrt_camp_close_threshold,
            final(self).compleated_campaigns == old(self).compleated_campaigns,
    {
        let ghost s = self.raised_campaign_amounts@;
        let n: usize = self.raised_campaign_amounts.len();
        let mut pos: usize = 0;
        while pos < n && self.raised_campaign_amounts[pos].campaign_id < id
            invariant
                n == s.len(),
                self.raised_campaign_amounts@ == s,
                pos <= n,
                forall|j: int| 0 <= j < pos ==> s[j].campaign_id < id,
            decreases n - pos,
        {
            pos += 1;
        }
        if pos < n && self.raised_campaign_amounts[pos].campaign_id == id {
            proof {
                assert(has_entry(s, id));
            }
        } else {
            proof {
                assert(!has_entry(s, id)) by {
                    if has_entry(s, id) {
                        let i = choose|i: int| 0 <= i < s.len() && s[i].campaign_id == id;
                        if i >= pos {
                            if pos < n {
                                if i > pos {
                                    assert(s[pos as int].campaign_id < s[i].campaign_id);
                                }
                            }
                        }
                    }
                }
                lemma_insert_pos_sorted(s, id);
                assert(insert_pos(s, id) == pos as int) by {
                    let p = insert_pos(s, id);
                    if p < pos {
                        assert(s[p].campaign_id > id);
                        assert(s[p].campaign_id < id);
                    }
                    if p > pos {
                        assert(s[pos as int].campaign_id < id);
                        assert(s[pos as int].campaign_id > id);
                    }
                }
                lemma_inserted_balances_sorted(s, id, amount);
            }
            self.raised_campaign_amounts.insert(pos, RaisedCampaignAmount {
                amount,
                campaign_id: id,
            });
        }
    }
}

} // verus!
