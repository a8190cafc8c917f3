use vstd::prelude::*;
use crate::constants::{campaign_seeds, campaign_signer_seeds};
use crate::error::CrowdfundingError;
use crate::state::{Campaign, CampaignStatus, Donor, Pubkey};

verus! {

/// What a donor of a failed campaign gets back: their whole recorded total.
/// Any other campaign refuses.
pub open spec fn refund_outcome(campaign: Campaign, donor: Donor) -> Result<u64, CrowdfundingError> {
    if campaign.status == CampaignStatus::GoalNotMet {
        Ok(donor.amount)
    } else {
        Err(CrowdfundingError::InvalidRefund)
    }
}

/// The token movement of a refund, signed by the campaign: move `amount`
/// tokens from the vault back to the donor's token account.
pub struct Refund {
    pub amount: u64,
    pub signer_seeds: Vec<Vec<u8>>,
}

/// A donor of campaign number `id` of `maker` asks for their tokens back.
/// The refund empties the donor's record, so that it is paid only once.
pub fn handle_refund(campaign: &Campaign, donor: &mut Donor, maker: &Pubkey, id: u64) -> (r:
    Result<Refund, CrowdfundingError>)
    ensures
        match refund_outcome(*campaign, *old(donor)) {
            Ok(amount) => r matches Ok(p) && p.amount == amount && p.signer_seeds@.map_values(
                |s: Vec<u8>| s@,
            ) == campaign_seeds(*maker, id, campaign.bump) && *final(donor) == Donor {
                amount: 0,
            },
            Err(e) => r matches Err(e2) && e2 == e && *final(donor) == *old(donor),
        },
        r is Ok <==> campaign.status == CampaignStatus::GoalNotMet,
        r matches Ok(p) ==> p.amount == old(donor).amount && final(donor).amount == 0,
        r matches Err(e) ==> e == CrowdfundingError::InvalidRefund && *final(donor) == *old(donor),
{
    match campaign.status {
        CampaignStatus::GoalNotMet => {},
        _ => return Err(CrowdfundingError::InvalidRefund),
    }
    let signer_seeds = campaign_signer_seeds(maker, id, campaign.bump);
    let amount = donor.amount;
    donor.amount = 0;
    Ok(Refund { amount, signer_seeds })
}

} // verus!
