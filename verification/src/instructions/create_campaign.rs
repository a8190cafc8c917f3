use vstd::prelude::*;
use crate::error::CrowdfundingError;
use crate::state::{Campaign, CampaignStatus, Pubkey};

verus! {

/// What opening a campaign yields: a goal of zero is refused first, then a
/// deadline that is not later than the current time; otherwise the new
/// campaign record holds the given values and is ongoing.
pub open spec fn create_outcome(
    maker: Pubkey,
    mint: Pubkey,
    id: u64,
    goal: u64,
    deadline: i64,
    bump: u8,
    current_time: i64,
) -> Result<Campaign, CrowdfundingError> {
    if goal == 0 {
        Err(CrowdfundingError::InvalidGoal)
    } else if deadline <= current_time {
        Err(CrowdfundingError::InvalidDeadline)
    } else {
        Ok(Campaign { maker, id, mint, goal, deadline, status: CampaignStatus::Ongoing, bump })
    }
}

/// The first rule of opening a campaign, which needs no clock: the goal
/// must be at least one token.
pub fn check_goal(goal: u64) -> (r: Result<(), CrowdfundingError>)
    ensures
        r is Ok <==> goal > 0,
        r matches Err(e) ==> e == CrowdfundingError::InvalidGoal,
{
    if goal > 0 {
        Ok(())
    } else {
        Err(CrowdfundingError::InvalidGoal)
    }
}

/// Opens campaign number `id` of `maker`, collecting `mint` tokens up to
/// `goal` until `deadline`, at `current_time`. The caller stores the record.
pub fn handle_create_campaign(
    maker: Pubkey,
    mint: Pubkey,
    id: u64,
    goal: u64,
    deadline: i64,
    bump: u8,
    current_time: i64,
) -> (r: Result<Campaign, CrowdfundingError>)
    ensures
        r == create_outcome(maker, mint, id, goal, deadline, bump, current_time),
        goal == 0 ==> r == Err::<Campaign, CrowdfundingError>(CrowdfundingError::InvalidGoal),
        goal > 0 && deadline <= current_time ==> r == Err::<Campaign, CrowdfundingError>(
            CrowdfundingError::InvalidDeadline,
        ),
        r is Ok <==> goal > 0 && deadline > current_time,
        r matches Ok(c) ==> {
            &&& c.maker == maker
            &&& c.mint == mint
            &&& c.id == id
            &&& c.goal == goal
            &&& c.deadline == deadline
            &&& c.bump == bump
            &&& c.status == CampaignStatus::Ongoing
        },
{
    check_goal(goal)?;
    if !(deadline > current_time) {
        return Err(CrowdfundingError::InvalidDeadline);
    }
    Ok(Campaign { maker, id, mint, goal, deadline, status: CampaignStatus::Ongoing, bump })
}

} // verus!
