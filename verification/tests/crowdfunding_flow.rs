use crowdfunding::constants::{campaign_signer_seeds, CAMPAIGN_SEED, DONOR_SEED};
use crowdfunding::error::CrowdfundingError;
use crowdfunding::instructions::contribute::{check_campaign_open, handle_contribute, record_contribution};
use crowdfunding::instructions::create_campaign::{check_goal, handle_create_campaign};
use crowdfunding::instructions::finalize::handle_finalize;
use crowdfunding::instructions::refund::handle_refund;
use crowdfunding::instructions::withdraw::handle_withdraw;
use crowdfunding::state::{Campaign, CampaignStatus, Donor, Pubkey};

fn maker_key() -> Pubkey {
    Pubkey([7u8; 32])
}

fn mint_key() -> Pubkey {
    Pubkey([9u8; 32])
}

fn open_campaign(goal: u64, deadline: i64, now: i64) -> Campaign {
    handle_create_campaign(maker_key(), mint_key(), 1, goal, deadline, 254, now).unwrap()
}

#[test]
fn test_goal_met() {
    let id = 1u64;
    let goal = 1000_000_000_000u64;
    let current_time = 0i64;
    let deadline = current_time + 60 * 1000;

    let mut campaign =
        handle_create_campaign(maker_key(), mint_key(), id, goal, deadline, 254, current_time)
            .unwrap();
    assert_eq!(campaign.maker, maker_key());
    assert_eq!(campaign.id, id);
    assert_eq!(campaign.mint, mint_key());
    assert_eq!(campaign.goal, goal);
    assert_eq!(campaign.deadline, deadline);
    assert_eq!(campaign.status, CampaignStatus::Ongoing);
    assert_eq!(campaign.bump, 254);

    let mut donor = Donor::default();
    handle_contribute(&campaign, &mut donor, goal, current_time).unwrap();
    // The vault receives exactly what the donor's record now holds.
    let vault_balance = donor.amount;
    assert_eq!(vault_balance, goal);

    handle_finalize(&mut campaign, vault_balance, deadline + 1).unwrap();
    assert_eq!(campaign.status, CampaignStatus::GoalMet);

    let withdrawal = handle_withdraw(&campaign, &maker_key(), id, vault_balance).unwrap();
    let maker_token_ata_balance = withdrawal.amount;
    assert_eq!(maker_token_ata_balance, goal);
}

#[test]
fn test_goal_not_met() {
    let id = 1u64;
    let goal = 1000_000_000_000u64;
    let current_time = 0i64;
    let deadline = current_time + 60 * 1000;

    let mut campaign =
        handle_create_campaign(maker_key(), mint_key(), id, goal, deadline, 254, current_time)
            .unwrap();
    assert_eq!(campaign.maker, maker_key());
    assert_eq!(campaign.id, id);
    assert_eq!(campaign.mint, mint_key());
    assert_eq!(campaign.goal, goal);
    assert_eq!(campaign.deadline, deadline);
    assert_eq!(campaign.status, CampaignStatus::Ongoing);
    assert_eq!(campaign.bump, 254);

    let amount = 1_000_000_000u64;
    let mut donor = Donor::default();
    handle_contribute(&campaign, &mut donor, amount, current_time).unwrap();
    // The vault receives exactly what the donor's record now holds.
    let vault_balance = donor.amount;
    assert_eq!(vault_balance, amount);

    handle_finalize(&mut campaign, vault_balance, deadline + 1).unwrap();
    assert_eq!(campaign.status, CampaignStatus::GoalNotMet);

    let refund = handle_refund(&campaign, &mut donor, &maker_key(), id).unwrap();
    let donor_token_ata_balance = refund.amount;
    assert_eq!(donor_token_ata_balance, amount);
    assert_eq!(donor.amount, 0);
}

#[test]
fn create_refuses_zero_goal_before_deadline() {
    // Both rules are broken: the goal is reported first.
    let r = handle_create_campaign(maker_key(), mint_key(), 3, 0, 10, 1, 100);
    assert_eq!(r, Err(CrowdfundingError::InvalidGoal));
    assert_eq!(check_goal(0), Err(CrowdfundingError::InvalidGoal));
    assert_eq!(check_goal(1), Ok(()));
}

#[test]
fn create_refuses_deadline_not_in_future() {
    let r = handle_create_campaign(maker_key(), mint_key(), 3, 5, 100, 1, 100);
    assert_eq!(r, Err(CrowdfundingError::InvalidDeadline));
    let r = handle_create_campaign(maker_key(), mint_key(), 3, 5, 99, 1, 100);
    assert_eq!(r, Err(CrowdfundingError::InvalidDeadline));
    assert!(handle_create_campaign(maker_key(), mint_key(), 3, 5, 101, 1, 100).is_ok());
}

#[test]
fn contribute_accepted_at_deadline_refused_after() {
    let campaign = open_campaign(10, 50, 0);
    let mut donor = Donor::default();
    assert_eq!(handle_contribute(&campaign, &mut donor, 3, 50), Ok(()));
    assert_eq!(donor.amount, 3);
    assert_eq!(
        handle_contribute(&campaign, &mut donor, 4, 51),
        Err(CrowdfundingError::CampaignEnded)
    );
    assert_eq!(donor.amount, 3);
    assert_eq!(check_campaign_open(&campaign, 50), Ok(()));
    assert_eq!(check_campaign_open(&campaign, 51), Err(CrowdfundingError::CampaignEnded));
}

#[test]
fn contributions_accumulate_and_overflow_is_refused() {
    let campaign = open_campaign(10, 50, 0);
    let mut donor = Donor::default();
    handle_contribute(&campaign, &mut donor, 5, 1).unwrap();
    handle_contribute(&campaign, &mut donor, 6, 2).unwrap();
    handle_contribute(&campaign, &mut donor, 7, 3).unwrap();
    assert_eq!(donor.amount, 18);

    let mut big = Donor { amount: u64::MAX - 1 };
    assert_eq!(record_contribution(&mut big, 1), Ok(()));
    assert_eq!(big.amount, u64::MAX);
    assert_eq!(record_contribution(&mut big, 1), Err(CrowdfundingError::Overflow));
    assert_eq!(big.amount, u64::MAX);
    let mut big = Donor { amount: u64::MAX };
    assert_eq!(
        handle_contribute(&campaign, &mut big, 1, 1),
        Err(CrowdfundingError::Overflow)
    );
}

#[test]
fn finalize_waits_for_deadline_and_runs_once() {
    let mut campaign = open_campaign(10, 50, 0);
    assert_eq!(handle_finalize(&mut campaign, 20, 50), Err(CrowdfundingError::CampaignOngoing));
    assert_eq!(campaign.status, CampaignStatus::Ongoing);
    assert_eq!(handle_finalize(&mut campaign, 9, 51), Ok(()));
    assert_eq!(campaign.status, CampaignStatus::GoalNotMet);
    // A second finalization is refused, even with a full vault.
    assert_eq!(handle_finalize(&mut campaign, 10, 52), Err(CrowdfundingError::CampaignEnded));
    assert_eq!(campaign.status, CampaignStatus::GoalNotMet);
    // No more contributions once finalized.
    let mut donor = Donor::default();
    assert_eq!(
        handle_contribute(&campaign, &mut donor, 1, 52),
        Err(CrowdfundingError::CampaignEnded)
    );
}

#[test]
fn finalize_goal_met_exactly_at_goal() {
    let mut campaign = open_campaign(10, 50, 0);
    let before = campaign;
    assert_eq!(handle_finalize(&mut campaign, 10, 51), Ok(()));
    assert_eq!(campaign.status, CampaignStatus::GoalMet);
    assert_eq!(campaign.goal, before.goal);
    assert_eq!(campaign.deadline, before.deadline);
    assert_eq!(campaign.maker, before.maker);
}

#[test]
fn withdraw_and_refund_are_exclusive() {
    let mut donor = Donor { amount: 4 };
    let ongoing = open_campaign(10, 50, 0);
    assert_eq!(
        handle_withdraw(&ongoing, &maker_key(), 1, 4).err(),
        Some(CrowdfundingError::InvalidWithdraw)
    );
    assert_eq!(
        handle_refund(&ongoing, &mut donor, &maker_key(), 1).err(),
        Some(CrowdfundingError::InvalidRefund)
    );

    let mut met = open_campaign(10, 50, 0);
    handle_finalize(&mut met, 12, 51).unwrap();
    assert_eq!(handle_withdraw(&met, &maker_key(), 1, 12).unwrap().amount, 12);
    assert_eq!(
        handle_refund(&met, &mut donor, &maker_key(), 1).err(),
        Some(CrowdfundingError::InvalidRefund)
    );

    let mut failed = open_campaign(10, 50, 0);
    handle_finalize(&mut failed, 4, 51).unwrap();
    assert_eq!(donor.amount, 4);
    assert_eq!(handle_refund(&failed, &mut donor, &maker_key(), 1).unwrap().amount, 4);
    // The record is emptied: a second refund pays nothing.
    assert_eq!(donor.amount, 0);
    assert_eq!(handle_refund(&failed, &mut donor, &maker_key(), 1).unwrap().amount, 0);
    assert_eq!(
        handle_withdraw(&failed, &maker_key(), 1, 4).err(),
        Some(CrowdfundingError::InvalidWithdraw)
    );
}

#[test]
fn signer_seeds_layout() {
    let maker = maker_key();
    let seeds = campaign_signer_seeds(&maker, 0x0102030405060708, 253);
    assert_eq!(seeds.len(), 4);
    assert_eq!(seeds[0], b"campaign".to_vec());
    assert_eq!(seeds[1], vec![7u8; 32]);
    assert_eq!(seeds[2], vec![8u8, 7, 6, 5, 4, 3, 2, 1]);
    assert_eq!(seeds[3], vec![253u8]);
    assert_eq!(&CAMPAIGN_SEED[..], b"campaign");
    assert_eq!(&DONOR_SEED[..], b"donor");

    let mut campaign = open_campaign(10, 50, 0);
    handle_finalize(&mut campaign, 10, 51).unwrap();
    let w = handle_withdraw(&campaign, &maker, 1, 10).unwrap();
    assert_eq!(w.signer_seeds, campaign_signer_seeds(&maker, 1, 254));
}

#[test]
fn labels_and_messages() {
    assert_eq!(CampaignStatus::Ongoing.label(), "Ongoing");
    assert_eq!(CampaignStatus::GoalMet.label(), "Goal met");
    assert_eq!(CampaignStatus::GoalNotMet.label(), "Goal not met");
    assert_eq!(CrowdfundingError::InvalidGoal.message(), "Invalid goal");
    assert_eq!(CrowdfundingError::InvalidDeadline.message(), "Invalid deadline");
    assert_eq!(CrowdfundingError::CampaignEnded.message(), "Cannot ended");
    assert_eq!(CrowdfundingError::CampaignOngoing.message(), "Campaign still ongoing");
    assert_eq!(
        CrowdfundingError::InvalidWithdraw.message(),
        "Campaign must be finalized and goal met"
    );
    assert_eq!(
        CrowdfundingError::InvalidRefund.message(),
        "Campaign must be finalized and goal not met"
    );
    assert_eq!(CrowdfundingError::Overflow.message(), "Overflow");
}

#[test]
fn vault_covers_records_across_donors() {
    // Two donors contribute; the vault (the sum of transfers in) covers both
    // records, and each refund leaves it covering what remains.
    let mut campaign = open_campaign(100, 50, 0);
    let mut a = Donor::default();
    let mut b = Donor::default();
    let mut vault = 0u64;
    handle_contribute(&campaign, &mut a, 30, 10).unwrap();
    vault += 30;
    handle_contribute(&campaign, &mut b, 20, 20).unwrap();
    vault += 20;
    handle_contribute(&campaign, &mut a, 5, 30).unwrap();
    vault += 5;
    assert_eq!(a.amount + b.amount, 55);
    assert!(vault >= a.amount + b.amount);

    handle_finalize(&mut campaign, vault, 51).unwrap();
    assert_eq!(campaign.status, CampaignStatus::GoalNotMet);
    let ra = handle_refund(&campaign, &mut a, &maker_key(), 1).unwrap();
    vault -= ra.amount;
    assert_eq!(ra.amount, 35);
    assert!(vault >= a.amount + b.amount);
    let rb = handle_refund(&campaign, &mut b, &maker_key(), 1).unwrap();
    vault -= rb.amount;
    assert_eq!(rb.amount, 20);
    assert_eq!(vault, 0);
    assert_eq!(a.amount + b.amount, 0);
}
