//! The token service as the staking operations see it: a movement of funds
//! either happens whole or not at all.

use vstd::prelude::*;
use crate::accounts::{Address, TokenAccount};
use crate::state::ErrorCode;

verus! {

/// `account` after `amount` has left it.
pub open spec fn debited(account: TokenAccount, amount: nat) -> TokenAccount {
    TokenAccount { amount: (account.amount - amount) as u64, ..account }
}

/// `account` after `amount` has arrived in it.
pub open spec fn credited(account: TokenAccount, amount: nat) -> TokenAccount {
    TokenAccount { amount: (account.amount + amount) as u64, ..account }
}

/// Why the service refuses to move `amount` from `from` to `to` on the
/// signature of `signer`, or `None` where it moves it. The signer must be the
/// authority of `from`, `from` must hold the amount, and `to` must have room
/// for it.
pub open spec fn transfer_failure(
    from: TokenAccount,
    to: TokenAccount,
    signer: Option<Seq<u8>>,
    amount: nat,
) -> Option<ErrorCode> {
    if signer != Some(from.authority@) {
        Some(ErrorCode::InvalidAuthority)
    } else if from.amount < amount {
        Some(ErrorCode::InsufficientFunds)
    } else if to.amount + amount > u64::MAX {
        Some(ErrorCode::Overflow)
    } else {
        None
    }
}

/// Moves `amount` from `from` to `to` on the signature of `signer`, or refuses
/// and leaves both accounts as they were.
pub fn transfer(
    from: &mut TokenAccount,
    to: &mut TokenAccount,
    signer: &Option<Address>,
    amount: u64,
) -> (r: Result<(), ErrorCode>)
    ensures
        match r {
            Ok(()) => transfer_failure(
                *old(from),
                *old(to),
                crate::authority::signer_view(*signer),
                amount as nat,
            ).is_none() && *final(from) == debited(*old(from), amount as nat) && *final(to)
                == credited(*old(to), amount as nat),
            Err(e) => transfer_failure(
                *old(from),
                *old(to),
                crate::authority::signer_view(*signer),
                amount as nat,
            ) == Some(e) && *final(from) == *old(from) && *final(to) == *old(to),
        },
{
    let authorized = match signer {
        Some(address) => address.same(&from.authority),
        None => false,
    };
    if !authorized {
        return Err(ErrorCode::InvalidAuthority);
    }
    if from.amount < amount {
        return Err(ErrorCode::InsufficientFunds);
    }
    match to.amount.checked_add(amount) {
        Some(sum) => {
            from.amount = from.amount - amount;
            to.amount = sum;
            Ok(())
        },
        None => Err(ErrorCode::Overflow),
    }
}

} // verus!
