//! Token-custody staking: a user locks tokens in a program-controlled escrow,
//! accrues a reward that grows linearly with elapsed slots, and later withdraws
//! principal and reward.

pub mod accounts;
pub mod amount;
pub mod authority;
pub mod constants;
pub mod constraints;
pub mod laws;
pub mod staking_program;
pub mod state;
pub mod token;

pub use crate::accounts::{DeStake, Initialize, Stake};
pub use crate::state::{ErrorCode, StakeInfo};
