//! Rules of a token crowdfunding program: a maker opens a campaign with a
//! goal and a deadline, donors contribute tokens into the campaign's vault
//! until the deadline, the campaign is then finalized as having met its goal
//! or not, and the tokens go either to the maker (withdraw) or back to each
//! donor (refund).
//!
//! Every instruction is a verified function from the accounts it reads (and
//! the current time) to the new account contents and the token movements
//! that the runtime must carry out.
pub mod constants;
pub mod error;
pub mod state;
pub mod instructions;
pub mod laws;
