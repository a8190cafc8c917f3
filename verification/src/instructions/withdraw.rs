use vstd::prelude::*;
use crate::constants::{campaign_seeds, campaign_signer_seeds};
use crate::error::CrowdfundingError;
use crate::state::{Campaign, CampaignStatus, Pubkey};

verus! {

/// What the maker of a successful campaign receives: everything in the vault.
/// Any other campaign refuses.
pub open spec fn withdraw_outcome(campaign: Campaign, vault_amount: u64) -> Result<
    u64,
    CrowdfundingError,
> {
    if campaign.status == CampaignStatus::GoalMet {
        Ok(vault_amount)
    } else {
        Err(CrowdfundingError::InvalidWithdraw)
    }
}

/// The token movements of a withdrawal, signed by the campaign: move
/// `amount` tokens from the vault to the maker's token account, then close
/// the vault in the maker's favour.
pub struct Withdrawal {
    pub amount: u64,
    pub signer_seeds: Vec<Vec<u8>>,
}

/// The maker of campaign number `id` withdraws the `vault_amount` tokens
/// that its vault holds.
pub fn handle_withdraw(campaign: &Campaign, maker: &Pubkey, id: u64, vault_amount: u64) -> (r:
    Result<Withdrawal, CrowdfundingError>)
    ensures
        match withdraw_outcome(*campaign, vault_amount) {
            Ok(amount) => r matches Ok(w) && w.amount == amount && w.signer_seeds@.map_values(
                |s: Vec<u8>| s@,
            ) == campaign_seeds(*maker, id, campaign.bump),
            Err(e) => r matches Err(e2) && e2 == e,
        },
        r is Ok <==> campaign.status == CampaignStatus::GoalMet,
        r matches Ok(w) ==> w.amount == vault_amount,
        r matches Err(e) ==> e == CrowdfundingError::InvalidWithdraw,
{
    match campaign.status {
        CampaignStatus::GoalMet => {},
        _ => return Err(CrowdfundingError::InvalidWithdraw),
    }
    let signer_seeds = campaign_signer_seeds(maker, id, campaign.bump);
    Ok(Withdrawal { amount: vault_amount, signer_seeds })
}

} // verus!
