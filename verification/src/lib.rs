//! Voting weight for stakers of a pooled, share-denominated insurance fund.
//!
//! A staker's weight is the token value of their shares in the fund, taken
//! against the balance that the fund's vault actually holds. The weight is
//! written into a voter weight record that is valid for one slot only.

pub mod error;
pub mod instructions;
pub mod state;
pub mod tools;
