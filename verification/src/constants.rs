use vstd::prelude::*;
use vstd::bytes::{spec_u64_from_le_bytes, spec_u64_to_le_bytes, u64_to_le_bytes};
use crate::state::Pubkey;

verus! {

/// First seed of a campaign account address: the bytes of `campaign`.
pub const CAMPAIGN_SEED: [u8; 8] = [99, 97, 109, 112, 97, 105, 103, 110];

/// First seed of a donor record address: the bytes of `donor`.
pub const DONOR_SEED: [u8; 5] = [100, 111, 110, 111, 114];

/// The seeds from which a campaign's address is derived: the campaign seed,
/// the maker's address, the campaign number in little-endian bytes, and the
/// bump seed.
pub open spec fn campaign_seeds(maker: Pubkey, id: u64, bump: u8) -> Seq<Seq<u8>> {
    seq![CAMPAIGN_SEED@, maker.bytes(), spec_u64_to_le_bytes(id), seq![bump]]
}

/// Builds the seeds with which the campaign signs for its vault.
pub fn campaign_signer_seeds(maker: &Pubkey, id: u64, bump: u8) -> (seeds: Vec<Vec<u8>>)
    ensures
        seeds@.map_values(|s: Vec<u8>| s@) == campaign_seeds(*maker, id, bump),
        seeds@.len() == 4,
        seeds@[0]@ == seq![99u8, 97, 109, 112, 97, 105, 103, 110],
        seeds@[1]@ == maker.0@,
        seeds@[2]@.len() == 8 && spec_u64_from_le_bytes(seeds@[2]@) == id,
        seeds@[3]@ == seq![bump],
{
    proof {
        vstd::bytes::lemma_auto_spec_u64_to_from_le_bytes();
    }
    let mut seeds: Vec<Vec<u8>> = Vec::new();
    seeds.push(vstd::slice::slice_to_vec(CAMPAIGN_SEED.as_slice()));
    seeds.push(vstd::slice::slice_to_vec(maker.0.as_slice()));
    seeds.push(u64_to_le_bytes(id));
    let mut last: Vec<u8> = Vec::new();
    last.push(bump);
    seeds.push(last);
    assert(seeds@.map_values(|s: Vec<u8>| s@) =~= campaign_seeds(*maker, id, bump));
    seeds
}

} // verus!
