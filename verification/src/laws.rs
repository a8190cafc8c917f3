use vstd::prelude::*;
use crate::error::CrowdfundingError;
use crate::instructions::contribute::contribute_outcome;
use crate::instructions::create_campaign::create_outcome;
use crate::instructions::finalize::finalize_outcome;
use crate::instructions::refund::refund_outcome;
use crate::instructions::withdraw::withdraw_outcome;
use crate::state::{Campaign, CampaignStatus, Donor, Pubkey};
use crate::constants::campaign_seeds;
use vstd::bytes::spec_u64_from_le_bytes;

verus! {

/// The donor record after a series of contributions, each given as an
/// amount and the time at which it was made, in order; the first refusal
/// stops the series.
pub open spec fn contribute_all(campaign: Campaign, donor: Donor, steps: Seq<(u64, i64)>) -> Result<
    Donor,
    CrowdfundingError,
>
    decreases steps.len(),
{
    if steps.len() == 0 {
        Ok(donor)
    } else {
        match contribute_all(campaign, donor, steps.drop_last()) {
            Ok(d) => contribute_outcome(campaign, d, steps.last().0, steps.last().1),
            Err(e) => Err(e),
        }
    }
}

/// The sum of the amounts of a series of contributions.
pub open spec fn total_amount(steps: Seq<(u64, i64)>) -> int
    decreases steps.len(),
{
    if steps.len() == 0 {
        0
    } else {
        total_amount(steps.drop_last()) + steps.last().0
    }
}

/// Every contribution of the series comes no later than the deadline.
pub open spec fn all_before_deadline(campaign: Campaign, steps: Seq<(u64, i64)>) -> bool {
    forall|i: int| 0 <= i < steps.len() ==> #[trigger] steps[i].1 <= campaign.deadline
}

/// A donor's contributions made by the deadline add up: the record holds the
/// earlier total plus the sum of the amounts, as long as that fits in 64 bits.
pub proof fn contributions_accumulate(campaign: Campaign, donor: Donor, steps: Seq<(u64, i64)>)
    requires
        all_before_deadline(campaign, steps),
        donor.amount + total_amount(steps) <= u64::MAX,
    ensures
        contribute_all(campaign, donor, steps) == Ok::<Donor, CrowdfundingError>(
            Donor { amount: (donor.amount + total_amount(steps)) as u64 },
        ),
    decreases steps.len(),
{
    if steps.len() > 0 {
        let prefix = steps.drop_last();
        assert forall|i: int| 0 <= i < prefix.len() implies #[trigger] prefix[i].1
            <= campaign.deadline by {
            assert(prefix[i] == steps[i]);
        }
        assert(steps.last() == steps[steps.len() - 1]);
        assert(total_amount(prefix) >= 0) by {
            total_amount_nonnegative(prefix);
        }
        contributions_accumulate(campaign, donor, prefix);
    }
}

/// The sum of a series of amounts is never negative.
proof fn total_amount_nonnegative(steps: Seq<(u64, i64)>)
    ensures
        total_amount(steps) >= 0,
    decreases steps.len(),
{
    if steps.len() > 0 {
        total_amount_nonnegative(steps.drop_last());
    }
}

/// A campaign can be finalized only once: once finalized at some time, any
/// later attempt is refused, and at a time no earlier than the first one it
/// is refused because the campaign has ended.
pub proof fn finalize_only_once(
    campaign: Campaign,
    vault_amount: u64,
    current_time: i64,
    later_vault_amount: u64,
    later_time: i64,
)
    requires
        finalize_outcome(campaign, vault_amount, current_time) is Ok,
    ensures
        ({
            let finalized = campaign.with_status(
                finalize_outcome(campaign, vault_amount, current_time)->Ok_0,
            );
            &&& finalize_outcome(finalized, later_vault_amount, later_time) is Err
            &&& later_time >= current_time ==> finalize_outcome(
                finalized,
                later_vault_amount,
                later_time,
            ) == Err::<CampaignStatus, CrowdfundingError>(CrowdfundingError::CampaignEnded)
        }),
{
}

/// No contribution is accepted once a campaign has been finalized: from the
/// moment of finalization on, every contribution is refused as coming after
/// the end.
pub proof fn no_contribution_after_finalize(
    campaign: Campaign,
    vault_amount: u64,
    finalized_at: i64,
    donor: Donor,
    amount: u64,
    current_time: i64,
)
    requires
        finalize_outcome(campaign, vault_amount, finalized_at) is Ok,
        current_time >= finalized_at,
    ensures
        contribute_outcome(
            campaign.with_status(finalize_outcome(campaign, vault_amount, finalized_at)->Ok_0),
            donor,
            amount,
            current_time,
        ) == Err::<Donor, CrowdfundingError>(CrowdfundingError::CampaignEnded),
{
}

/// Tokens leave a campaign one way only: the maker's withdrawal and a
/// donor's refund are never both allowed for the same campaign.
pub proof fn withdraw_and_refund_exclusive(campaign: Campaign, vault_amount: u64, donor: Donor)
    ensures
        !(withdraw_outcome(campaign, vault_amount) is Ok && refund_outcome(campaign, donor) is Ok),
{
}

/// A finalized campaign pays out exactly one way: the maker may withdraw
/// when the vault held at least the goal, and donors may be refunded when it
/// held less.
pub proof fn finalized_campaign_pays_out_one_way(
    campaign: Campaign,
    vault_amount: u64,
    current_time: i64,
    later_vault_amount: u64,
    donor: Donor,
)
    requires
        finalize_outcome(campaign, vault_amount, current_time) is Ok,
    ensures
        ({
            let finalized = campaign.with_status(
                finalize_outcome(campaign, vault_amount, current_time)->Ok_0,
            );
            &&& withdraw_outcome(finalized, later_vault_amount) is Ok <==> vault_amount
                >= campaign.goal
            &&& refund_outcome(finalized, donor) is Ok <==> vault_amount < campaign.goal
        }),
{
}

/// A campaign that has just been opened takes contributions until its
/// deadline, cannot be finalized before the deadline has passed, and pays
/// nothing out to anyone.
pub proof fn new_campaign_is_open(
    maker: Pubkey,
    mint: Pubkey,
    id: u64,
    goal: u64,
    deadline: i64,
    bump: u8,
    created_at: i64,
    donor: Donor,
    amount: u64,
    current_time: i64,
    vault_amount: u64,
)
    requires
        create_outcome(maker, mint, id, goal, deadline, bump, created_at) is Ok,
        current_time <= deadline,
        donor.amount + amount <= u64::MAX,
    ensures
        ({
            let campaign = create_outcome(maker, mint, id, goal, deadline, bump, created_at)->Ok_0;
            &&& contribute_outcome(campaign, donor, amount, current_time) == Ok::<
                Donor,
                CrowdfundingError,
            >(Donor { amount: (donor.amount + amount) as u64 })
            &&& finalize_outcome(campaign, vault_amount, current_time) == Err::<
                CampaignStatus,
                CrowdfundingError,
            >(CrowdfundingError::CampaignOngoing)
            &&& withdraw_outcome(campaign, vault_amount) is Err
            &&& refund_outcome(campaign, donor) is Err
        }),
{
}

/// A donor to a campaign that fails its goal gets back exactly what they
/// put in: starting from an empty record, contributions made by the
/// deadline, once the campaign is finalized with its goal not met, are
/// refunded in full.
pub proof fn refund_returns_contributions(
    campaign: Campaign,
    steps: Seq<(u64, i64)>,
    vault_amount: u64,
    finalized_at: i64,
)
    requires
        campaign.status == CampaignStatus::Ongoing,
        all_before_deadline(campaign, steps),
        total_amount(steps) <= u64::MAX,
        finalize_outcome(campaign, vault_amount, finalized_at) == Ok::<
            CampaignStatus,
            CrowdfundingError,
        >(CampaignStatus::GoalNotMet),
    ensures
        contribute_all(campaign, Donor { amount: 0 }, steps) is Ok,
        refund_outcome(
            campaign.with_status(CampaignStatus::GoalNotMet),
            contribute_all(campaign, Donor { amount: 0 }, steps)->Ok_0,
        ) == Ok::<u64, CrowdfundingError>(total_amount(steps) as u64),
{
    contributions_accumulate(campaign, Donor { amount: 0 }, steps);
}

/// The maker of a campaign that meets its goal gets everything in the
/// vault, which is at least the goal.
pub proof fn withdraw_takes_whole_vault(
    campaign: Campaign,
    vault_amount: u64,
    finalized_at: i64,
)
    requires
        finalize_outcome(campaign, vault_amount, finalized_at) == Ok::<
            CampaignStatus,
            CrowdfundingError,
        >(CampaignStatus::GoalMet),
    ensures
        withdraw_outcome(campaign.with_status(CampaignStatus::GoalMet), vault_amount) == Ok::<
            u64,
            CrowdfundingError,
        >(vault_amount),
        vault_amount >= campaign.goal,
{
}

/// The whole life of a campaign with a single donor whose contributions are
/// all that the vault holds: once the deadline has passed, the campaign is
/// finalized as having met its goal exactly when the contributions reach
/// it; the maker then withdraws everything that was contributed, and
/// otherwise the donor is refunded everything that they contributed.
pub proof fn single_donor_lifecycle(
    campaign: Campaign,
    steps: Seq<(u64, i64)>,
    finalized_at: i64,
)
    requires
        campaign.status == CampaignStatus::Ongoing,
        all_before_deadline(campaign, steps),
        total_amount(steps) <= u64::MAX,
        finalized_at > campaign.deadline,
    ensures
        ({
            let vault_amount = total_amount(steps) as u64;
            let donor = contribute_all(campaign, Donor { amount: 0 }, steps);
            &&& donor == Ok::<Donor, CrowdfundingError>(Donor { amount: vault_amount })
            &&& if total_amount(steps) >= campaign.goal {
                &&& finalize_outcome(campaign, vault_amount, finalized_at) == Ok::<
                    CampaignStatus,
                    CrowdfundingError,
                >(CampaignStatus::GoalMet)
                &&& withdraw_outcome(campaign.with_status(CampaignStatus::GoalMet), vault_amount)
                    == Ok::<u64, CrowdfundingError>(vault_amount)
                &&& refund_outcome(campaign.with_status(CampaignStatus::GoalMet), donor->Ok_0) is Err
            } else {
                &&& finalize_outcome(campaign, vault_amount, finalized_at) == Ok::<
                    CampaignStatus,
                    CrowdfundingError,
                >(CampaignStatus::GoalNotMet)
                &&& refund_outcome(campaign.with_status(CampaignStatus::GoalNotMet), donor->Ok_0)
                    == Ok::<u64, CrowdfundingError>(vault_amount)
                &&& withdraw_outcome(
                    campaign.with_status(CampaignStatus::GoalNotMet),
                    vault_amount,
                ) is Err
            }
        }),
{
    contributions_accumulate(campaign, Donor { amount: 0 }, steps);
    total_amount_nonnegative(steps);
}

/// Contributions and finalization never overlap in time and leave no gap
/// between them: at every moment a campaign either still takes
/// contributions or may be finalized (if it has not been yet), never both.
pub proof fn deadline_splits_time(campaign: Campaign, vault_amount: u64, current_time: i64)
    ensures
        crate::instructions::contribute::accepts_contributions(campaign, current_time)
            <==> finalize_outcome(campaign, vault_amount, current_time) == Err::<
            CampaignStatus,
            CrowdfundingError,
        >(CrowdfundingError::CampaignOngoing),
{
}

/// What all the donor records of a campaign add up to.
pub open spec fn records_total(records: Seq<Donor>) -> int
    decreases records.len(),
{
    if records.len() == 0 {
        0
    } else {
        records_total(records.drop_last()) + records.last().amount
    }
}

/// Replacing one record changes the total by the difference of the two records.
proof fn records_total_update(records: Seq<Donor>, i: int, d: Donor)
    requires
        0 <= i < records.len(),
    ensures
        records_total(records.update(i, d)) == records_total(records) - records[i].amount
            + d.amount,
    decreases records.len(),
{
    let updated = records.update(i, d);
    if i == records.len() - 1 {
        assert(updated.drop_last() =~= records.drop_last());
    } else {
        records_total_update(records.drop_last(), i, d);
        assert(updated.drop_last() =~= records.drop_last().update(i, d));
    }
}

/// The total of the records is at least any one record.
proof fn records_total_covers_each(records: Seq<Donor>, i: int)
    requires
        0 <= i < records.len(),
    ensures
        records_total(records) >= records[i].amount,
        records_total(records) >= 0,
    decreases records.len(),
{
    records_total_nonnegative(records.drop_last());
    if i < records.len() - 1 {
        records_total_covers_each(records.drop_last(), i);
    }
}

/// The total of the records is never negative.
proof fn records_total_nonnegative(records: Seq<Donor>)
    ensures
        records_total(records) >= 0,
    decreases records.len(),
{
    if records.len() > 0 {
        records_total_nonnegative(records.drop_last());
    }
}

/// A new donor's record, which starts empty, leaves the total as it was.
pub proof fn new_donor_keeps_total(records: Seq<Donor>)
    ensures
        records_total(records.push(Donor { amount: 0 })) == records_total(records),
{
    assert(records.push(Donor { amount: 0 }).drop_last() =~= records);
}

/// The vault covers the donor records through a contribution: a
/// contribution that is accepted moves `amount` tokens into the vault and
/// adds exactly `amount` to the donor's record, so a vault that held at least
/// the sum of all donor records before still does after; a refused one
/// changes neither.
pub proof fn contribution_keeps_vault_covered(
    campaign: Campaign,
    vault_amount: int,
    records: Seq<Donor>,
    i: int,
    amount: u64,
    current_time: i64,
)
    requires
        0 <= i < records.len(),
        vault_amount >= records_total(records),
    ensures
        contribute_outcome(campaign, records[i], amount, current_time) matches Ok(d) ==> {
            &&& records_total(records.update(i, d)) == records_total(records) + amount
            &&& vault_amount + amount >= records_total(records.update(i, d))
        },
{
    if let Ok(d) = contribute_outcome(campaign, records[i], amount, current_time) {
        records_total_update(records, i, d);
    }
}

/// The vault covers the donor records through a refund: a refund that is
/// allowed pays out no more than the vault holds, empties the donor's
/// record, and leaves a vault that still holds at least the sum of all
/// donor records.
pub proof fn refund_keeps_vault_covered(
    campaign: Campaign,
    vault_amount: int,
    records: Seq<Donor>,
    i: int,
)
    requires
        0 <= i < records.len(),
        vault_amount >= records_total(records),
    ensures
        refund_outcome(campaign, records[i]) matches Ok(amount) ==> {
            &&& amount <= vault_amount
            &&& records_total(records.update(i, Donor { amount: 0 })) == records_total(records)
                - amount
            &&& vault_amount - amount >= records_total(records.update(i, Donor { amount: 0 }))
        },
{
    records_total_covers_each(records, i);
    records_total_update(records, i, Donor { amount: 0 });
}

/// A refund is paid once: the record it leaves behind is empty, and a
/// second refund from it pays nothing.
pub proof fn refund_paid_once(campaign: Campaign, donor: Donor)
    requires
        refund_outcome(campaign, donor) is Ok,
    ensures
        refund_outcome(campaign, Donor { amount: 0 }) == Ok::<u64, CrowdfundingError>(0),
{
}

/// Opening a campaign: a goal of zero is refused with `InvalidGoal` whatever
/// the deadline and the time; with a positive goal, a deadline that is not
/// later than the current time is refused with `InvalidDeadline`; otherwise
/// the campaign opens, and its record holds exactly the given maker, mint,
/// number, goal, deadline and bump, with the status Ongoing.
pub proof fn opening_a_campaign(
    maker: Pubkey,
    mint: Pubkey,
    id: u64,
    goal: u64,
    deadline: i64,
    bump: u8,
    current_time: i64,
)
    ensures
        goal == 0 ==> create_outcome(maker, mint, id, goal, deadline, bump, current_time) == Err::<
            Campaign,
            CrowdfundingError,
        >(CrowdfundingError::InvalidGoal),
        goal > 0 && deadline <= current_time ==> create_outcome(
            maker,
            mint,
            id,
            goal,
            deadline,
            bump,
            current_time,
        ) == Err::<Campaign, CrowdfundingError>(CrowdfundingError::InvalidDeadline),
        goal > 0 && deadline > current_time ==> create_outcome(
            maker,
            mint,
            id,
            goal,
            deadline,
            bump,
            current_time,
        ) is Ok,
        create_outcome(maker, mint, id, goal, deadline, bump, current_time) matches Ok(c) ==> {
            &&& c.maker == maker
            &&& c.mint == mint
            &&& c.id == id
            &&& c.goal == goal
            &&& c.goal >= 1
            &&& c.deadline == deadline
            &&& c.deadline > current_time
            &&& c.bump == bump
            &&& c.status == CampaignStatus::Ongoing
        },
{
}

/// Contributing: after the deadline every contribution is refused with
/// `CampaignEnded`, whatever the campaign's status, the donor's record and
/// the amount; up to the deadline it is accepted and adds exactly `amount`
/// to the donor's total, unless that total would exceed 64 bits, which is
/// refused with `Overflow`.
pub proof fn contributing(campaign: Campaign, donor: Donor, amount: u64, current_time: i64)
    ensures
        current_time > campaign.deadline ==> contribute_outcome(
            campaign,
            donor,
            amount,
            current_time,
        ) == Err::<Donor, CrowdfundingError>(CrowdfundingError::CampaignEnded),
        current_time <= campaign.deadline && donor.amount + amount <= u64::MAX
            ==> contribute_outcome(campaign, donor, amount, current_time) == Ok::<
            Donor,
            CrowdfundingError,
        >(Donor { amount: (donor.amount + amount) as u64 }),
        current_time <= campaign.deadline && donor.amount + amount > u64::MAX ==> contribute_outcome(
            campaign,
            donor,
            amount,
            current_time,
        ) == Err::<Donor, CrowdfundingError>(CrowdfundingError::Overflow),
        contribute_outcome(campaign, donor, amount, current_time) matches Ok(d) ==> d.amount
            == donor.amount + amount,
{
}

/// Finalizing: refused with `CampaignOngoing` up to and including the
/// deadline; after it, refused with `CampaignEnded` unless the campaign is
/// still ongoing; otherwise the goal counts as met exactly when the vault
/// holds at least the goal.
pub proof fn finalizing(campaign: Campaign, vault_amount: u64, current_time: i64)
    ensures
        current_time <= campaign.deadline ==> finalize_outcome(campaign, vault_amount, current_time)
            == Err::<CampaignStatus, CrowdfundingError>(CrowdfundingError::CampaignOngoing),
        current_time > campaign.deadline && campaign.status != CampaignStatus::Ongoing
            ==> finalize_outcome(campaign, vault_amount, current_time) == Err::<
            CampaignStatus,
            CrowdfundingError,
        >(CrowdfundingError::CampaignEnded),
        current_time > campaign.deadline && campaign.status == CampaignStatus::Ongoing
            && vault_amount >= campaign.goal ==> finalize_outcome(
            campaign,
            vault_amount,
            current_time,
        ) == Ok::<CampaignStatus, CrowdfundingError>(CampaignStatus::GoalMet),
        current_time > campaign.deadline && campaign.status == CampaignStatus::Ongoing
            && vault_amount < campaign.goal ==> finalize_outcome(
            campaign,
            vault_amount,
            current_time,
        ) == Ok::<CampaignStatus, CrowdfundingError>(CampaignStatus::GoalNotMet),
{
}

/// Paying out: the maker of a campaign whose goal was met receives the whole
/// vault, and of any other campaign is refused with `InvalidWithdraw`; a
/// donor of a campaign whose goal was not met receives their whole recorded
/// total, and of any other campaign is refused with `InvalidRefund`.
pub proof fn paying_out(campaign: Campaign, vault_amount: u64, donor: Donor)
    ensures
        campaign.status == CampaignStatus::GoalMet ==> withdraw_outcome(campaign, vault_amount)
            == Ok::<u64, CrowdfundingError>(vault_amount),
        campaign.status != CampaignStatus::GoalMet ==> withdraw_outcome(campaign, vault_amount)
            == Err::<u64, CrowdfundingError>(CrowdfundingError::InvalidWithdraw),
        campaign.status == CampaignStatus::GoalNotMet ==> refund_outcome(campaign, donor) == Ok::<
            u64,
            CrowdfundingError,
        >(donor.amount),
        campaign.status != CampaignStatus::GoalNotMet ==> refund_outcome(campaign, donor) == Err::<
            u64,
            CrowdfundingError,
        >(CrowdfundingError::InvalidRefund),
{
}

/// The campaign's seeds, with which it signs for its vault, are the seeds
/// its address is derived from: the eight bytes of `campaign`, the maker's
/// 32 address bytes in order, the eight little-endian bytes of the campaign
/// number (which read back as that number), and the single bump byte.
pub proof fn campaign_seed_layout(maker: Pubkey, id: u64, bump: u8)
    ensures
        ({
            let seeds = campaign_seeds(maker, id, bump);
            &&& seeds.len() == 4
            &&& seeds[0] == seq![99u8, 97, 109, 112, 97, 105, 103, 110]
            &&& seeds[1] == maker.0@
            &&& seeds[1].len() == 32
            &&& forall|k: int| 0 <= k < 32 ==> #[trigger] seeds[1][k] == maker.0[k]
            &&& seeds[2].len() == 8
            &&& spec_u64_from_le_bytes(seeds[2]) == id
            &&& seeds[3] == seq![bump]
            &&& seeds[3].len() == 1
            &&& seeds[3][0] == bump
        }),
{
    vstd::bytes::lemma_auto_spec_u64_to_from_le_bytes();
    let seeds = campaign_seeds(maker, id, bump);
    assert(seeds[0] =~= seq![99u8, 97, 109, 112, 97, 105, 103, 110]);
}

/// Two campaigns sign with the same seeds only if they have the same maker,
/// number and bump.
pub proof fn campaign_seeds_distinguish(
    maker1: Pubkey,
    id1: u64,
    bump1: u8,
    maker2: Pubkey,
    id2: u64,
    bump2: u8,
)
    requires
        campaign_seeds(maker1, id1, bump1) == campaign_seeds(maker2, id2, bump2),
    ensures
        maker1.0@ == maker2.0@,
        id1 == id2,
        bump1 == bump2,
{
    campaign_seed_layout(maker1, id1, bump1);
    campaign_seed_layout(maker2, id2, bump2);
    let s1 = campaign_seeds(maker1, id1, bump1);
    assert(s1[3][0] == bump1);
}

/// The texts by which statuses and errors are shown.
pub proof fn shown_texts()
    ensures
        CampaignStatus::Ongoing.spec_label() == "Ongoing"@,
        CampaignStatus::GoalMet.spec_label() == "Goal met"@,
        CampaignStatus::GoalNotMet.spec_label() == "Goal not met"@,
        CrowdfundingError::InvalidGoal.spec_message() == "Invalid goal"@,
        CrowdfundingError::InvalidDeadline.spec_message() == "Invalid deadline"@,
        CrowdfundingError::CampaignEnded.spec_message() == "Cannot ended"@,
        CrowdfundingError::CampaignOngoing.spec_message() == "Campaign still ongoing"@,
        CrowdfundingError::InvalidWithdraw.spec_message()
            == "Campaign must be finalized and goal met"@,
        CrowdfundingError::InvalidRefund.spec_message()
            == "Campaign must be finalized and goal not met"@,
        CrowdfundingError::Overflow.spec_message() == "Overflow"@,
{
}

} // verus!
