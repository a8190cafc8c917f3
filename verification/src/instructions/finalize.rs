use vstd::prelude::*;
use crate::error::CrowdfundingError;
use crate::state::{Campaign, CampaignStatus};

verus! {

/// What finalizing a campaign decides, given how many tokens its vault
/// holds: refused while the deadline has not passed, refused if the campaign
/// was already finalized, and otherwise the goal is met exactly when the
/// vault holds at least the goal.
pub open spec fn finalize_outcome(
    campaign: Campaign,
    vault_amount: u64,
    current_time: i64,
) -> Result<CampaignStatus, CrowdfundingError> {
    if !(current_time > campaign.deadline) {
        Err(CrowdfundingError::CampaignOngoing)
    } else if campaign.status != CampaignStatus::Ongoing {
        Err(CrowdfundingError::CampaignEnded)
    } else if vault_amount >= campaign.goal {
        Ok(CampaignStatus::GoalMet)
    } else {
        Ok(CampaignStatus::GoalNotMet)
    }
}

/// Closes the campaign at `current_time`, with `vault_amount` tokens in its vault.
pub fn handle_finalize(campaign: &mut Campaign, vault_amount: u64, current_time: i64) -> (r: Result<
    (),
    CrowdfundingError,
>)
    ensures
        match finalize_outcome(*old(campaign), vault_amount, current_time) {
            Ok(status) => r is Ok && *final(campaign) == old(campaign).with_status(status),
            Err(e) => r == Err::<(), CrowdfundingError>(e) && *final(campaign) == *old(campaign),
        },
        current_time <= old(campaign).deadline ==> r == Err::<(), CrowdfundingError>(
            CrowdfundingError::CampaignOngoing,
        ),
        current_time > old(campaign).deadline && old(campaign).status != CampaignStatus::Ongoing
            ==> r == Err::<(), CrowdfundingError>(CrowdfundingError::CampaignEnded),
        r is Ok ==> old(campaign).status == CampaignStatus::Ongoing && current_time > old(
            campaign,
        ).deadline && (final(campaign).status == CampaignStatus::GoalMet <==> vault_amount >= old(
            campaign,
        ).goal) && final(campaign).status != CampaignStatus::Ongoing,
        final(campaign).maker == old(campaign).maker && final(campaign).mint == old(campaign).mint
            && final(campaign).id == old(campaign).id && final(campaign).goal == old(campaign).goal
            && final(campaign).deadline == old(campaign).deadline && final(campaign).bump == old(
            campaign,
        ).bump,
        r is Err ==> *final(campaign) == *old(campaign),
{
    if !(current_time > campaign.deadline) {
        return Err(CrowdfundingError::CampaignOngoing);
    }
    match campaign.status {
        CampaignStatus::Ongoing => {},
        _ => return Err(CrowdfundingError::CampaignEnded),
    }
    let status = if vault_amount >= campaign.goal {
        CampaignStatus::GoalMet
    } else {
        CampaignStatus::GoalNotMet
    };
    campaign.status = status;
    Ok(())
}

} // verus!
