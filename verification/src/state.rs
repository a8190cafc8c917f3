use vstd::prelude::*;

verus! {

/// The 32 bytes of an account address.
#[derive(Clone, Copy, Debug, PartialEq, Eq)]
pub struct Pubkey(pub [u8; 32]);

impl Pubkey {
    /// The address's bytes, in order.
    pub open spec fn bytes(self) -> Seq<u8> {
        self.0@
    }
}

/// Where a campaign stands: open, or closed with its goal met or not met.
#[derive(Clone, Copy, Debug, PartialEq, Eq, Structural)]
pub enum CampaignStatus {
    Ongoing,
    GoalMet,
    GoalNotMet,
}

impl CampaignStatus {
    /// The text by which a status is shown to users.
    pub open spec fn spec_label(self) -> Seq<char> {
        match self {
            CampaignStatus::Ongoing => "Ongoing"@,
            CampaignStatus::GoalMet => "Goal met"@,
            CampaignStatus::GoalNotMet => "Goal not met"@,
        }
    }

    /// The text by which a status is shown to users.
    pub fn label(&self) -> (s: &'static str)
        ensures
            s@ == self.spec_label(),
    {
        match self {
            CampaignStatus::Ongoing => "Ongoing",
            CampaignStatus::GoalMet => "Goal met",
            CampaignStatus::GoalNotMet => "Goal not met",
        }
    }
}

/// The record of one campaign.
#[derive(Clone, Copy, Debug, PartialEq, Eq)]
pub struct Campaign {
    /// Who opened the campaign and receives the tokens if the goal is met.
    pub maker: Pubkey,
    /// The maker's number for this campaign.
    pub id: u64,
    /// The token that the campaign collects.
    pub mint: Pubkey,
    /// How many tokens the campaign needs; at least one for every campaign
    /// opened by `handle_create_campaign`.
    pub goal: u64,
    /// The last moment (Unix time) at which contributions are accepted.
    pub deadline: i64,
    pub status: CampaignStatus,
    /// The bump seed of the campaign's address.
    pub bump: u8,
}

impl Campaign {
    /// The same campaign with another status.
    pub open spec fn with_status(self, status: CampaignStatus) -> Campaign {
        Campaign { status, ..self }
    }
}

/// What one donor has put into one campaign.
#[derive(Clone, Copy, Debug, PartialEq, Eq, Structural)]
pub struct Donor {
    pub amount: u64,
}

impl Default for Donor {
    /// The record of a donor who has not contributed yet.
    fn default() -> (d: Donor)
        ensures
            d.amount == 0,
    {
        Donor { amount: 0 }
    }
}

} // verus!
