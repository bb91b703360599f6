//! The persistent per-user stake record and the errors of the staking operations.

use vstd::prelude::*;

verus! {

/// Per-user record of staking status.
#[derive(Clone, Copy, Debug, PartialEq, Eq, Structural)]
pub struct StakeInfo {
    /// Slot at which the record was last flipped.
    pub staked_at: u64,
    /// Whether a stake is currently live.
    pub is_staked: bool,
}

impl StakeInfo {
    /// A fresh record: nothing staked, no slot recorded.
    pub fn new() -> (info: StakeInfo)
        ensures
            info == (StakeInfo { staked_at: 0, is_staked: false }),
    {
        StakeInfo { staked_at: 0, is_staked: false }
    }
}

/// Why an operation was rejected. A rejected operation changes nothing.
#[derive(Clone, Copy, Debug, PartialEq, Eq, Structural)]
pub enum ErrorCode {
    /// `stake` while a stake is live.
    AlreadyStaked,
    /// `destake` with no live stake.
    NotStaked,
    /// `stake` of nothing.
    ZeroAmount,
    /// An amount does not fit in 64 bits.
    Overflow,
    /// The current slot lies before the slot recorded at stake time.
    SlotBeforeStake,
    /// The paying account holds less than it is asked to pay.
    InsufficientFunds,
    /// The authority offered for an account is not the one that controls it,
    /// or a derived address could not be reconstructed from its seeds.
    InvalidAuthority,
    /// An existing account is not the one the operation expects.
    AccountMismatch,
}

impl ErrorCode {
    /// The text shown to the caller for each error.
    pub open spec fn text(self) -> Seq<char> {
        match self {
            ErrorCode::AlreadyStaked => "Tokens are already staked"@,
            ErrorCode::NotStaked => "Tokens not staked"@,
            ErrorCode::ZeroAmount => "No tokens to staked"@,
            ErrorCode::Overflow => "Amount does not fit in 64 bits"@,
            ErrorCode::SlotBeforeStake => "Slot lies before the stake"@,
            ErrorCode::InsufficientFunds => "Insufficient funds"@,
            ErrorCode::InvalidAuthority => "Authority does not control the account"@,
            ErrorCode::AccountMismatch => "Account is not the one expected"@,
        }
    }

    /// The text shown to the caller for this error.
    pub fn message(&self) -> (m: &'static str)
        ensures
            m@ == self.text(),
    {
        match self {
            ErrorCode::AlreadyStaked => "Tokens are already staked",
            ErrorCode::NotStaked => "Tokens not staked",
            ErrorCode::ZeroAmount => "No tokens to staked",
            ErrorCode::Overflow => "Amount does not fit in 64 bits",
            ErrorCode::SlotBeforeStake => "Slot lies before the stake",
            ErrorCode::InsufficientFunds => "Insufficient funds",
            ErrorCode::InvalidAuthority => "Authority does not control the account",
            ErrorCode::AccountMismatch => "Account is not the one expected",
        }
    }
}

} // verus!
