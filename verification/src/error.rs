use vstd::prelude::*;

verus! {

/// The ways in which an instruction of the program is refused.
#[derive(Clone, Copy, Debug, PartialEq, Eq, Structural)]
pub enum CrowdfundingError {
    /// A campaign was opened with a goal of zero tokens.
    InvalidGoal,
    /// A campaign was opened with a deadline that is not in the future.
    InvalidDeadline,
    /// A contribution came after the deadline, or a campaign was finalized twice.
    CampaignEnded,
    /// A campaign was finalized before its deadline had passed.
    CampaignOngoing,
    /// The maker tried to withdraw from a campaign that has not met its goal.
    InvalidWithdraw,
    /// A donor asked for a refund from a campaign that has not failed its goal.
    InvalidRefund,
    /// A donor's running total would not fit in 64 bits.
    Overflow,
}

impl CrowdfundingError {
    /// The message reported with the error.
    pub open spec fn spec_message(self) -> Seq<char> {
        match self {
            CrowdfundingError::InvalidGoal => "Invalid goal"@,
            CrowdfundingError::InvalidDeadline => "Invalid deadline"@,
            CrowdfundingError::CampaignEnded => "Cannot ended"@,
            CrowdfundingError::CampaignOngoing => "Campaign still ongoing"@,
            CrowdfundingError::InvalidWithdraw => "Campaign must be finalized and goal met"@,
            CrowdfundingError::InvalidRefund => "Campaign must be finalized and goal not met"@,
            CrowdfundingError::Overflow => "Overflow"@,
        }
    }

    /// The message reported with the error.
    pub fn message(&self) -> (m: &'static str)
        ensures
            m@ == self.spec_message(),
    {
        match self {
            CrowdfundingError::InvalidGoal => "Invalid goal",
            CrowdfundingError::InvalidDeadline => "Invalid deadline",
            CrowdfundingError::CampaignEnded => "Cannot ended",
            CrowdfundingError::CampaignOngoing => "Campaign still ongoing",
            CrowdfundingError::InvalidWithdraw => "Campaign must be finalized and goal met",
            CrowdfundingError::InvalidRefund => "Campaign must be finalized and goal not met",
            CrowdfundingError::Overflow => "Overflow",
        }
    }
}

} // verus!
