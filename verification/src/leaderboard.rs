//! The bounded top-ten leaderboard of largest contributors.
//!
//! The board is an ordered list of `(address, amount)` entries, at most ten,
//! with no duplicate addresses. It is maintained by a single forward scan per
//! contribution: a matching address is updated in place; otherwise a new entry
//! is appended while there is room, and on a full board the earliest
//! minimum-amount entry is replaced only by a strictly larger amount. The
//! policy is deliberately approximate (ties never displace an entry), and the
//! exact scan-and-replace rule below is the defined behaviour.

use vstd::prelude::*;

verus! {

/// The leaderboard capacity.
pub const MAX_CONTRIBUTORS: usize = 10;

/// One leaderboard entry: a contributor's address and cumulative amount.
#[derive(Clone, Copy, Debug, PartialEq, Eq, Structural)]
pub struct ContributorStruct {
    pub address: u64,
    pub amount: u64,
}

/// The bounded leaderboard record.
#[derive(Clone, Debug, PartialEq, Eq)]
pub struct TopTenContributors {
    pub contributors: Vec<ContributorStruct>,
}

/// No two entries of the board share an address.
pub open spec fn no_dup_addresses(s: Seq<ContributorStruct>) -> bool {
    forall|i: int, j: int| 0 <= i < j < s.len() ==> s[i].address != s[j].address
}

/// Well-formedness of a leaderboard: bounded by the capacity, no duplicates.
pub open spec fn lb_wf(s: Seq<ContributorStruct>) -> bool {
    s.len() <= MAX_CONTRIBUTORS && no_dup_addresses(s)
}

/// Whether some entry carries the given address.
pub open spec fn contains_address(s: Seq<ContributorStruct>, addr: u64) -> bool {
    exists|i: int| 0 <= i < s.len() && s[i].address == addr
}

/// The first index whose entry carries the given address.
pub open spec fn match_index(s: Seq<ContributorStruct>, addr: u64) -> int
    decreases s.len(),
{
    if s.len() == 0 {
        0
    } else if s[0].address == addr {
        0
    } else {
        1 + match_index(s.skip(1), addr)
    }
}

/// The least amount on the board, `u64::MAX` for an empty board.
pub open spec fn min_amount(s: Seq<ContributorStruct>) -> u64
    decreases s.len(),
{
    if s.len() == 0 {
        u64::MAX
    } else {
        let m = min_amount(s.skip(1));
        if s[0].amount < m {
            s[0].amount
        } else {
            m
        }
    }
}

/// The first index attaining the least amount.
pub open spec fn min_index(s: Seq<ContributorStruct>) -> int
    decreases s.len(),
{
    if s.len() <= 1 {
        0
    } else if s[0].amount <= min_amount(s.skip(1)) {
        0
    } else {
        1 + min_index(s.skip(1))
    }
}

/// The board after recording a contributor's new cumulative amount:
/// a present address is updated in place; an absent one is appended while
/// there is room; on a full board the earliest minimum entry is replaced,
/// and only by a strictly larger amount.
pub open spec fn updated_leaderboard(
    s: Seq<ContributorStruct>,
    addr: u64,
    bal: u64,
) -> Seq<ContributorStruct> {
    if contains_address(s, addr) {
        s.update(match_index(s, addr), ContributorStruct { address: addr, amount: bal })
    } else if s.len() < MAX_CONTRIBUTORS {
        s.push(ContributorStruct { address: addr, amount: bal })
    } else if min_amount(s) < bal {
        s.update(min_index(s), ContributorStruct { address: addr, amount: bal })
    } else {
        s
    }
}

/// The first matching index is in range, matches, and nothing before it does.
pub proof fn lemma_match_index_first(s: Seq<ContributorStruct>, addr: u64)
    requires
        contains_address(s, addr),
    ensures
        0 <= match_index(s, addr) < s.len(),
        s[match_index(s, addr)].address == addr,
        forall|j: int| 0 <= j < match_index(s, addr) ==> s[j].address != addr,
    decreases s.len(),
{
    if s.len() == 0 {
    } else if s[0].address == addr {
    } else {
        assert(contains_address(s.skip(1), addr)) by {
            let i = choose|i: int| 0 <= i < s.len() && s[i].address == addr;
            assert(s.skip(1)[i - 1] == s[i]);
        }
        lemma_match_index_first(s.skip(1), addr);
        assert(forall|j: int| 1 <= j < s.len() ==> s[j] == s.skip(1)[j - 1]);
    }
}

/// The minimum value bounds every entry from below; its first index is in
/// range, attains it, and everything before it is strictly larger.
pub proof fn lemma_min_index_first(s: Seq<ContributorStruct>)
    requires
        s.len() > 0,
    ensures
        0 <= min_index(s) < s.len(),
        s[min_index(s)].amount == min_amount(s),
        forall|j: int| 0 <= j < s.len() ==> min_amount(s) <= s[j].amount,
        forall|j: int| 0 <= j < min_index(s) ==> s[j].amount > min_amount(s),
    decreases s.len(),
{
    if s.len() == 1 {
        assert(s.skip(1) =~= Seq::<ContributorStruct>::empty());
    } else {
        lemma_min_index_first(s.skip(1));
        assert(forall|j: int| 1 <= j < s.len() ==> s[j] == s.skip(1)[j - 1]);
    }
}

/// The update policy keeps the board well formed.
pub proof fn lemma_updated_leaderboard_wf(s: Seq<ContributorStruct>, addr: u64, bal: u64)
    requires
        lb_wf(s),
    ensures
        lb_wf(updated_leaderboard(s, addr, bal)),
{
    let t = updated_leaderboard(s, addr, bal);
    if contains_address(s, addr) {
        lemma_match_index_first(s, addr);
        assert forall|i: int, j: int| 0 <= i < j < t.len() implies t[i].address
            != t[j].address by {
            assert(t[i].address == s[i].address);
            assert(t[j].address == s[j].address);
        }
    } else if s.len() < MAX_CONTRIBUTORS {
        assert(forall|i: int| 0 <= i < s.len() ==> s[i].address != addr);
    } else if min_amount(s) < bal {
        lemma_min_index_first(s);
        assert(forall|i: int| 0 <= i < s.len() ==> s[i].address != addr);
    } else {
    }
}

/// The replacement law of a full board: for a contributor whose address is
/// not yet listed, a cumulative amount strictly above the board's minimum
/// replaces the earliest minimum-amount entry in place, and one not above it
/// leaves the board exactly as it was.
pub proof fn lemma_leaderboard_replacement(s: Seq<ContributorStruct>, addr: u64, bal: u64)
    requires
        lb_wf(s),
        s.len() == MAX_CONTRIBUTORS,
        !contains_address(s, addr),
    ensures
        bal > min_amount(s) ==> updated_leaderboard(s, addr, bal) == s.update(
            min_index(s),
            ContributorStruct { address: addr, amount: bal },
        ),
        bal <= min_amount(s) ==> updated_leaderboard(s, addr, bal) == s,
{
    lemma_min_index_first(s);
}

/// One forward step of the running minimum: extending the scanned prefix by
/// `s[i]` lowers the minimum exactly when `s[i].amount` is strictly smaller.
proof fn lemma_min_take_step(s: Seq<ContributorStruct>, i: int)
    requires
        0 <= i < s.len(),
    ensures
        min_amount(s.take(i + 1)) == if s[i].amount < min_amount(s.take(i)) {
            s[i].amount
        } else {
            min_amount(s.take(i))
        },
    decreases i,
{
    if i == 0 {
        assert(s.take(1).skip(1) =~= Seq::<ContributorStruct>::empty());
        assert(s.take(0) =~= Seq::<ContributorStruct>::empty());
        assert(s.take(1)[0] == s[0]);
    } else {
        lemma_min_take_step(s.skip(1), i - 1);
        assert(s.take(i + 1).skip(1) =~= s.skip(1).take(i));
        assert(s.take(i).skip(1) =~= s.skip(1).take(i - 1));
        assert(s.take(i + 1)[0] == s[0]);
        assert(s.take(i)[0] == s[0]);
        assert(s.skip(1)[i - 1] == s[i]);
    }
}

impl View for TopTenContributors {
    type V = Seq<ContributorStruct>;

    open spec fn view(&self) -> Seq<ContributorStruct> {
        self.contributors@
    }
}

impl TopTenContributors {
    /// An empty leaderboard, as allocated alongside a fresh platform record.
    pub fn new() -> (r: TopTenContributors)
        ensures
            r@ == Seq::<ContributorStruct>::empty(),
    {
        TopTenContributors { contributors: Vec::new() }
    }

    /// Records a contributor's new cumulative amount under the
    /// scan-and-replace policy of `updated_leaderboard`.
    pub fn update(&mut self, address: u64, current_balance: u64)
        requires
            lb_wf(old(self)@),
        ensures
            final(self)@ == updated_leaderboard(old(self)@, address, current_balance),
            lb_wf(final(self)@),
    {
        let ghost s = self@;
        let n: usize = self.contributors.len();
        let mut i: usize = 0;
        let mut min: u64 = u64::MAX;
        let mut min_i: usize = MAX_CONTRIBUTORS;
        let mut found = false;
        let mut current_i: usize = 0;
        while i < n && !found
            invariant
                n == s.len(),
                self@ == s,
                i <= n,
                !found ==> forall|j: int| 0 <= j < i ==> s[j].address != address,
                !found ==> min == min_amount(s.take(i as int)),
                !found ==> forall|j: int| 0 <= j < i ==> min <= s[j].amount,
                !found && min != u64::MAX ==> min_i < i && s[min_i as int].amount == min
                    && (forall|j: int| 0 <= j < min_i ==> s[j].amount > min),
                found ==> current_i < n && s[current_i as int].address == address
                    && (forall|j: int| 0 <= j < current_i ==> s[j].address != address),
            decreases n - i,
        {
            let cont = self.contributors[i];
            proof {
                lemma_min_take_step(s, i as int);
            }
            if cont.amount < min {
                min = cont.amount;
                min_i = i;
            }
            if cont.address == address {
                current_i = i;
                found = true;
            }
            i += 1;
        }
        if found {
            proof {
                assert(contains_address(s, address));
                lemma_match_index_first(s, address);
                assert(match_index(s, address) == current_i as int);
            }
            self.contributors[current_i] = ContributorStruct { address, amount: current_balance };
        } else {
            proof {
                assert(i == n);
                assert(!contains_address(s, address));
                assert(s.take(n as int) =~= s);
            }
            let contributor_instance = ContributorStruct { address, amount: current_balance };
            if self.contributors.len() < MAX_CONTRIBUTORS {
                self.contributors.push(contributor_instance);
            } else if min < current_balance {
                proof {
                    lemma_min_index_first(s);
                    assert(min_index(s) == min_i as int);
                }
                self.contributors[min_i] = contributor_instance;
            }
        }
        proof {
            lemma_updated_leaderboard_wf(s, address, current_balance);
        }
    }

    /// Empties the board front to back, handing out the addresses in list
    /// order, as the periodic reward payout walks them.
    pub fn drain_addresses(&mut self) -> (r: Vec<u64>)
        ensures
            r@.len() == old(self)@.len(),
            forall|k: int| 0 <= k < r@.len() ==> r@[k] == old(self)@[k].address,
            final(self)@ == Seq::<ContributorStruct>::empty(),
    {
        let ghost s = self@;
        let mut r: Vec<u64> = Vec::new();
        while self.contributors.len() > 0
            invariant
                r@.len() <= s.len(),
                self@ == s.skip(r@.len() as int),
                forall|k: int| 0 <= k < r@.len() ==> r@[k] == s[k].address,
            decreases self.contributors.len(),
        {
            let ghost done: int = r@.len() as int;
            let cont = self.contributors.remove(0);
            r.push(cont.address);
            proof {
                assert(cont == s[done]);
                assert(s.skip(done).remove(0) =~= s.skip(done + 1));
            }
        }
        proof {
            assert(self@ =~= Seq::<ContributorStruct>::empty());
        }
        r
    }
}

} // verus!
