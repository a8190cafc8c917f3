use vstd::prelude::*;
use crate::error::CrowdfundingError;
use crate::state::{Campaign, Donor};

verus! {

/// A campaign takes contributions up to and including its deadline.
pub open spec fn accepts_contributions(campaign: Campaign, current_time: i64) -> bool {
    campaign.deadline >= current_time
}

/// What contributing `amount` tokens does to a donor's record: refused after
/// the deadline, refused if the donor's total would not fit in 64 bits,
/// and otherwise the total grows by `amount`.
pub open spec fn contribute_outcome(
    campaign: Campaign,
    donor: Donor,
    amount: u64,
    current_time: i64,
) -> Result<Donor, CrowdfundingError> {
    if !accepts_contributions(campaign, current_time) {
        Err(CrowdfundingError::CampaignEnded)
    } else if donor.amount + amount > u64::MAX {
        Err(CrowdfundingError::Overflow)
    } else {
        Ok(Donor { amount: (donor.amount + amount) as u64 })
    }
}

/// The rule checked before any token moves: the campaign's deadline has not passed.
pub fn check_campaign_open(campaign: &Campaign, current_time: i64) -> (r: Result<
    (),
    CrowdfundingError,
>)
    ensures
        r is Ok <==> accepts_contributions(*campaign, current_time),
        r matches Err(e) ==> e == CrowdfundingError::CampaignEnded,
{
    if campaign.deadline >= current_time {
        Ok(())
    } else {
        Err(CrowdfundingError::CampaignEnded)
    }
}

/// Adds `amount` to the donor's running total, once the tokens have moved.
pub fn record_contribution(donor: &mut Donor, amount: u64) -> (r: Result<(), CrowdfundingError>)
    ensures
        r is Ok <==> old(donor).amount + amount <= u64::MAX,
        r is Ok ==> final(donor).amount == old(donor).amount + amount,
        r matches Err(e) ==> e == CrowdfundingError::Overflow && *final(donor) == *old(donor),
{
    match donor.amount.checked_add(amount) {
        Some(total) => {
            donor.amount = total;
            Ok(())
        },
        None => Err(CrowdfundingError::Overflow),
    }
}

/// A donor gives `amount` tokens to a campaign at `current_time`. On success
/// the caller moves `amount` tokens from the donor's token account into the
/// campaign's vault; the donor's record is updated here.
pub fn handle_contribute(
    campaign: &Campaign,
    donor: &mut Donor,
    amount: u64,
    current_time: i64,
) -> (r: Result<(), CrowdfundingError>)
    ensures
        match contribute_outcome(*campaign, *old(donor), amount, current_time) {
            Ok(d) => r is Ok && *final(donor) == d,
            Err(e) => r == Err::<(), CrowdfundingError>(e) && *final(donor) == *old(donor),
        },
        current_time > campaign.deadline ==> r == Err::<(), CrowdfundingError>(
            CrowdfundingError::CampaignEnded,
        ) && *final(donor) == *old(donor),
        current_time <= campaign.deadline && old(donor).amount + amount <= u64::MAX ==> r is Ok
            && final(donor).amount == old(donor).amount + amount,
        current_time <= campaign.deadline && old(donor).amount + amount > u64::MAX ==> r == Err::<
            (),
            CrowdfundingError,
        >(CrowdfundingError::Overflow) && *final(donor) == *old(donor),
{
    check_campaign_open(campaign, current_time)?;
    record_contribution(donor, amount)
}

} // verus!
