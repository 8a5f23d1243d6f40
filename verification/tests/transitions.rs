use fundraise_platform::errors::FundraiseErrors;
use fundraise_platform::ledger::Funds;
use fundraise_platform::ledger::RaisedCampaignAmount;
use fundraise_platform::platform::contribute;
use fundraise_platform::platform::contribute_chrt;
use fundraise_platform::platform::create_new_campaign;
use fundraise_platform::platform::end_fundraise;
use fundraise_platform::platform::initialize;
use fundraise_platform::platform::withdraw;
use fundraise_platform::platform::withdraw_commission;
use fundraise_platform::leaderboard::TopTenContributors;
use fundraise_platform::records::Contributor;
use fundraise_platform::records::FundraiseAccount;

fn fresh_platform(goal: u64, commission: u64) -> (Funds, TopTenContributors) {
    initialize(1, goal, commission, 7, 100, 50, 500, 0).unwrap()
}

fn campaign_with(chrt_recieved: u64, chrt_cover_goal: u64) -> FundraiseAccount {
    let mut c = create_new_campaign(77);
    c.chrt_recieved = chrt_recieved;
    c.chrt_cover_goal = chrt_cover_goal;
    c
}

fn balances(funds: &Funds) -> Vec<(u64, u64)> {
    funds
        .raised_campaign_amounts
        .iter()
        .map(|e| (e.campaign_id, e.amount))
        .collect()
}

#[test]
fn initialize_rejects_zero_goal() {
    let r = initialize(1, 0, 5, 7, 100, 50, 500, 0);
    assert_eq!(r, Err(FundraiseErrors::ZeroLamports));
}

#[test]
fn initialize_sets_fields_and_deadline() {
    let (funds, top) = initialize(9, 1000, 5, 7, 100, 50, 500, 40).unwrap();
    assert_eq!(funds.authority, 9);
    assert_eq!(funds.goal, 1000);
    assert_eq!(funds.raised, 0);
    assert_eq!(funds.id_counter, 0);
    assert_eq!(funds.n_period, 100);
    assert_eq!(funds.n_period_cooldown, 140);
    assert_eq!(funds.commission, 5);
    assert_eq!(funds.commission_accrued, 0);
    assert_eq!(funds.chrt_reward, 7);
    assert_eq!(funds.chrt_comsn_exempt_threshold, 50);
    assert_eq!(funds.chrt_camp_close_threshold, 500);
    assert_eq!(funds.compleated_campaigns, 0);
    assert!(funds.raised_campaign_amounts.is_empty());
    assert!(top.contributors.is_empty());
}

#[test]
fn create_new_campaign_starts_blank() {
    let c = create_new_campaign(42);
    assert_eq!(c.campaign_authority, 42);
    assert!(!c.is_commission_free);
    assert!(!c.is_active);
    assert_eq!(c.chrt_recieved, 0);
    assert_eq!(c.chrt_cover_goal, 0);
    assert_eq!(c.raised_after_commission, 0);
}

#[test]
fn first_contribution_splits_fee_and_opens_slot() {
    let (mut funds, mut top) = fresh_platform(1000, 5);
    let mut acc = Contributor::new();
    let campaign = campaign_with(0, 0);
    let outcome = contribute(&mut funds, &mut top, &mut acc, &campaign, 11, 0, 100, 22, 10)
        .unwrap();
    // commission is floor(100 / 100) * 5 = 5, charged while the campaign's
    // commission-free tally is below the threshold
    assert_eq!(outcome.transfer_to_platform, 95);
    assert_eq!(outcome.commission_transfer, 5);
    assert_eq!(outcome.referrer_reward, 100 * 101);
    assert!(outcome.period_payouts.is_empty());
    assert_eq!(outcome.event.at, 10);
    assert_eq!(outcome.event.amount, 100);
    assert_eq!(outcome.event.platform_after, 95);
    assert_eq!(outcome.event.from, 11);
    assert_eq!(outcome.event.referrer, 22);
    assert_eq!(funds.raised, 95);
    assert_eq!(funds.commission_accrued, 5);
    assert_eq!(funds.id_counter, 1);
    assert_eq!(balances(&funds), vec![(0, 100)]);
    assert_eq!(acc.address, 11);
    assert_eq!(acc.amount, 100);
    assert_eq!(acc.referrer, vec![22]);
    assert_eq!(top.contributors.len(), 1);
    assert_eq!(top.contributors[0].address, 11);
    assert_eq!(top.contributors[0].amount, 100);
}

#[test]
fn exempt_campaign_charges_no_fee() {
    let (mut funds, mut top) = fresh_platform(1000, 5);
    let mut acc = Contributor::new();
    // the commission-free tally has met the threshold, so no fee is charged
    let campaign = campaign_with(50, 0);
    let outcome = contribute(&mut funds, &mut top, &mut acc, &campaign, 11, 0, 100, 22, 10)
        .unwrap();
    assert_eq!(outcome.transfer_to_platform, 95);
    assert_eq!(outcome.commission_transfer, 0);
    assert_eq!(funds.raised, 95);
    assert_eq!(funds.commission_accrued, 0);
}

#[test]
fn contribution_id_past_counter_rejected_without_mutation() {
    let (mut funds, mut top) = fresh_platform(1000, 5);
    let mut acc = Contributor::new();
    let campaign = campaign_with(0, 0);
    let before_funds = funds.clone();
    let before_top = top.clone();
    let before_acc = acc.clone();
    let r = contribute(&mut funds, &mut top, &mut acc, &campaign, 11, 5, 100, 22, 10);
    assert_eq!(r, Err(FundraiseErrors::IDGreaterThanCounter));
    assert_eq!(funds, before_funds);
    assert_eq!(top, before_top);
    assert_eq!(acc, before_acc);
}

#[test]
fn zero_amount_contribution_rejected() {
    let (mut funds, mut top) = fresh_platform(1000, 5);
    let mut acc = Contributor::new();
    let campaign = campaign_with(0, 0);
    let r = contribute(&mut funds, &mut top, &mut acc, &campaign, 11, 0, 0, 22, 10);
    assert_eq!(r, Err(FundraiseErrors::ZeroLamports));
    assert_eq!(funds.raised, 0);
}

#[test]
fn contribution_after_goal_reached_rejected() {
    let (mut funds, mut top) = fresh_platform(1000, 5);
    funds.raised = 1000;
    let mut acc = Contributor::new();
    let campaign = campaign_with(0, 0);
    let r = contribute(&mut funds, &mut top, &mut acc, &campaign, 11, 0, 100, 22, 10);
    assert_eq!(r, Err(FundraiseErrors::GoalAchieved));
    assert_eq!(funds.raised, 1000);
}

#[test]
fn raised_is_nondecreasing_over_contributions() {
    let (mut funds, mut top) = fresh_platform(10_000, 5);
    let campaign = campaign_with(0, 0);
    let mut last_raised = 0;
    for step in 0..5u64 {
        let mut acc = Contributor::new();
        let contributor = 100 + step;
        contribute(&mut funds, &mut top, &mut acc, &campaign, contributor, 0, 200, 9, 10)
            .unwrap();
        assert!(funds.raised >= last_raised);
        last_raised = funds.raised;
    }
    assert_eq!(funds.raised, 5 * 190);
}

#[test]
fn repeat_contribution_reuses_slot_and_accumulates() {
    let (mut funds, mut top) = fresh_platform(10_000, 5);
    let campaign = campaign_with(0, 0);
    let mut acc = Contributor::new();
    contribute(&mut funds, &mut top, &mut acc, &campaign, 11, 0, 100, 22, 10).unwrap();
    assert_eq!(funds.id_counter, 1);
    // slot ids below the counter reuse the stored record
    contribute(&mut funds, &mut top, &mut acc, &campaign, 11, 0, 300, 23, 11).unwrap();
    assert_eq!(funds.id_counter, 2);
    assert_eq!(acc.referrer, vec![22, 23]);
    assert_eq!(funds.raised, 95 + 285);
}

#[test]
fn campaign_balances_stay_sorted_and_unique() {
    let (mut funds, mut top) = fresh_platform(100_000, 5);
    let campaign = campaign_with(0, 0);
    let mut acc = Contributor::new();
    // three fresh slots create entries 0, 1, 2 in order
    contribute(&mut funds, &mut top, &mut acc, &campaign, 11, 0, 100, 9, 10).unwrap();
    contribute(&mut funds, &mut top, &mut acc, &campaign, 12, 0, 200, 9, 10).unwrap();
    contribute(&mut funds, &mut top, &mut acc, &campaign, 13, 0, 300, 9, 10).unwrap();
    assert_eq!(balances(&funds), vec![(0, 100), (1, 200), (2, 300)]);
    // a repeated id leaves the list as it is
    contribute(&mut funds, &mut top, &mut acc, &campaign, 14, 1, 400, 9, 10).unwrap();
    assert_eq!(balances(&funds), vec![(0, 100), (1, 200), (2, 300)]);
}

#[test]
fn deadline_drains_leaderboard_and_restarts_period() {
    let (mut funds, mut top) = fresh_platform(100_000, 5);
    let campaign = campaign_with(0, 0);
    let mut first = Contributor::new();
    contribute(&mut funds, &mut top, &mut first, &campaign, 11, 0, 100, 9, 10).unwrap();
    let mut second = Contributor::new();
    // the deadline of 100 has passed: the board drains in list order
    let outcome = contribute(&mut funds, &mut top, &mut second, &campaign, 12, 0, 200, 9, 150)
        .unwrap();
    assert_eq!(outcome.period_payouts, vec![11, 12]);
    assert!(top.contributors.is_empty());
    assert_eq!(funds.n_period_cooldown, 150 + 100);
}

#[test]
fn contribute_chrt_fills_the_selected_tally() {
    let mut campaign = campaign_with(0, 0);
    let moved = contribute_chrt(&mut campaign, 30, true);
    assert_eq!(moved, 30);
    assert_eq!(campaign.chrt_recieved, 30);
    assert_eq!(campaign.chrt_cover_goal, 0);
    let moved = contribute_chrt(&mut campaign, 40, false);
    assert_eq!(moved, 40);
    assert_eq!(campaign.chrt_recieved, 30);
    assert_eq!(campaign.chrt_cover_goal, 40);
}

#[test]
fn withdraw_pays_down_to_the_reserve_floor() {
    let (mut funds, _top) = fresh_platform(1000, 5);
    funds.raised = 500;
    let campaign = campaign_with(0, 0);
    let (amount, event) = withdraw(&mut funds, &campaign, 77, 1000, 100, 60).unwrap();
    assert_eq!(amount, 900);
    // the account keeps exactly the reserve floor
    assert_eq!(1000 - amount, 100);
    assert_eq!(event.at, 60);
    assert_eq!(event.amount, 900);
    assert_eq!(funds.raised, 0);
    // nothing is raised any more, so a second withdrawal fails
    let r = withdraw(&mut funds, &campaign, 77, 100, 100, 61);
    assert_eq!(r, Err(FundraiseErrors::ZeroLamportsRaised));
}

#[test]
fn withdraw_checks_authority_and_floor() {
    let (mut funds, _top) = fresh_platform(1000, 5);
    funds.raised = 500;
    let campaign = campaign_with(0, 0);
    let r = withdraw(&mut funds, &campaign, 78, 1000, 100, 60);
    assert_eq!(r, Err(FundraiseErrors::NotTheOwner));
    let r = withdraw(&mut funds, &campaign, 77, 50, 100, 60);
    assert_eq!(r, Err(FundraiseErrors::InsufficientBalance));
    assert_eq!(funds.raised, 500);
}

#[test]
fn withdraw_commission_is_owner_only_and_resets() {
    let (mut funds, _top) = fresh_platform(1000, 5);
    funds.commission_accrued = 42;
    let r = withdraw_commission(&mut funds, 2);
    assert_eq!(r, Err(FundraiseErrors::NotTheOwner));
    assert_eq!(funds.commission_accrued, 42);
    let paid = withdraw_commission(&mut funds, 1).unwrap();
    assert_eq!(paid, 42);
    assert_eq!(funds.commission_accrued, 0);
}

#[test]
fn end_fundraise_redistributes_proportionally() {
    let (mut funds, _top) = fresh_platform(100_000, 5);
    funds.raised_campaign_amounts = vec![
        RaisedCampaignAmount { amount: 100, campaign_id: 1 },
        RaisedCampaignAmount { amount: 200, campaign_id: 2 },
        RaisedCampaignAmount { amount: 300, campaign_id: 3 },
    ];
    let mut campaign = campaign_with(0, 0);
    end_fundraise(&mut funds, &mut campaign, 1).unwrap();
    assert!(campaign.is_active);
    // 100 spread over 200 and 300: shares 100*200/500 = 40 and 100*300/500 = 60
    assert_eq!(balances(&funds), vec![(2, 240), (3, 360)]);
}

#[test]
fn end_fundraise_floor_rounding_loses_less_than_one_per_survivor() {
    let (mut funds, _top) = fresh_platform(100_000, 5);
    funds.raised_campaign_amounts = vec![
        RaisedCampaignAmount { amount: 3, campaign_id: 1 },
        RaisedCampaignAmount { amount: 10, campaign_id: 2 },
        RaisedCampaignAmount { amount: 4, campaign_id: 3 },
    ];
    let mut campaign = campaign_with(0, 0);
    end_fundraise(&mut funds, &mut campaign, 2).unwrap();
    // 10 spread over 3 and 4: shares floor(30/7) = 4 and floor(40/7) = 5;
    // the survivors' sum grows from 7 to 16, one unit short of 7 + 10
    assert_eq!(balances(&funds), vec![(1, 7), (3, 9)]);
}

#[test]
fn end_fundraise_works_at_full_capacity() {
    let (mut funds, _top) = fresh_platform(100_000, 5);
    funds.raised_campaign_amounts = (1..=10)
        .map(|id| RaisedCampaignAmount { amount: 10 * id, campaign_id: id })
        .collect();
    let mut campaign = campaign_with(0, 0);
    // entry 10 holds 100; the other nine sum to 450, so each survivor gains
    // floor(100 * amount / 450)
    end_fundraise(&mut funds, &mut campaign, 10).unwrap();
    let expected: Vec<(u64, u64)> = (1..=9u64)
        .map(|id| (id, 10 * id + 100 * (10 * id) / 450))
        .collect();
    assert_eq!(balances(&funds), expected);
    let total: u64 = balances(&funds).iter().map(|&(_, a)| a).sum();
    assert!(total <= 550 && total > 550 - 9);
}

#[test]
fn end_fundraise_guards_reject_in_order() {
    let (mut funds, _top) = fresh_platform(100_000, 5);
    funds.raised_campaign_amounts = vec![RaisedCampaignAmount { amount: 100, campaign_id: 1 }];
    let mut active = campaign_with(0, 0);
    active.is_active = true;
    assert_eq!(
        end_fundraise(&mut funds, &mut active, 1),
        Err(FundraiseErrors::CampaignNotActive)
    );
    // the cover tally has met the closing threshold of 500
    let mut covered = campaign_with(0, 500);
    assert_eq!(
        end_fundraise(&mut funds, &mut covered, 1),
        Err(FundraiseErrors::InsufficientTokens)
    );
    assert!(!covered.is_active);
    assert_eq!(balances(&funds), vec![(1, 100)]);
}

#[test]
fn end_fundraise_rejects_empty_redistribution_base() {
    let (mut funds, _top) = fresh_platform(100_000, 5);
    funds.raised_campaign_amounts = vec![RaisedCampaignAmount { amount: 100, campaign_id: 1 }];
    let mut campaign = campaign_with(0, 0);
    let r = end_fundraise(&mut funds, &mut campaign, 1);
    assert_eq!(r, Err(FundraiseErrors::EmptyRedistributionBase));
    assert!(!campaign.is_active);
    assert_eq!(balances(&funds), vec![(1, 100)]);
}
