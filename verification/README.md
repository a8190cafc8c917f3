# crowdfunding

The rules of a token crowdfunding program for Solana, as a verified Verus
library, with the Anchor program that runs them.

- `src/` holds the rules. `state.rs` describes a campaign record, its status
  and a donor's record; `error.rs` the ways an instruction is refused;
  `constants.rs` the address seeds and the signer seeds of a campaign.
  `instructions/` has one module per instruction (open a campaign,
  contribute, finalize, withdraw, refund): each gives the outcome as a spec
  function and an executable function proved to compute it. `laws.rs` proves
  what holds across instructions: a campaign is finalized once, takes no
  contribution after that, pays out either to the maker or to the donors but
  never both, refunds each donor exactly what they contributed and only once
  (a refund empties the donor's record), and that contributions and refunds
  keep the vault holding at least the sum of all donor records.
- `app/` is the on-chain program: Anchor account validation, the clock, and
  the token transfers, calling the library for every decision.
- `tests/` runs the rules on concrete campaigns.
