//! What holds of the staking operations across calls, stated over the same
//! functions by which `stake` and `destake` describe their outcomes.

use vstd::prelude::*;
use crate::accounts::{DeStake, Initialize, Stake};
use crate::amount::{
    native_units, native_units_additive, reward_of_no_time, reward_strictly_increasing, scale,
    scale_positive,
};
use crate::authority::DerivedAuthority;
use crate::staking_program::{
    destake_failure, destake_principal, destake_reward, destaked, initialize_failure, initialized,
    stake_amount, stake_failure, staked,
};
use crate::state::ErrorCode;

verus! {

/// Whether `later` holds the caller's accounts as `earlier` left them.
pub open spec fn continues(earlier: Stake, later: DeStake) -> bool {
    &&& later.signer == earlier.signer
    &&& later.stake_info_account == earlier.stake_info_account
    &&& later.stake_account == earlier.stake_account
    &&& later.user_token_account == earlier.user_token_account
    &&& later.mint == earlier.mint
}

/// A stake of `amount` tokens that is destaked `slot - staked_at` slots later
/// pays back the scaled amount as principal and the scaled number of slots as
/// reward, together the scaled sum of both. The escrow is left empty, the
/// vault is lighter by the reward, and the caller ends up richer by exactly
/// the reward.
pub proof fn stake_then_destake(
    before: Stake,
    amount: u64,
    staked_at: u64,
    later: DeStake,
    slot: u64,
    vault_signer: Option<Seq<u8>>,
    escrow_signer: Option<Seq<u8>>,
)
    requires
        before.wf(),
        stake_failure(before, amount).is_none(),
        continues(staked(before, amount, staked_at), later),
        destake_failure(later, slot, vault_signer, escrow_signer).is_none(),
    ensures
        destake_principal(later) == native_units(amount as nat, before.mint.decimals as nat),
        destake_reward(later, slot) == native_units(
            (slot - staked_at) as nat,
            before.mint.decimals as nat,
        ),
        destake_principal(later) + destake_reward(later, slot) == native_units(
            (amount + (slot - staked_at)) as nat,
            before.mint.decimals as nat,
        ),
        destaked(later, slot).stake_account.amount == 0,
        destaked(later, slot).token_vault_account.amount == later.token_vault_account.amount
            - destake_reward(later, slot),
        destaked(later, slot).user_token_account.amount == before.user_token_account.amount
            + destake_reward(later, slot),
        !destaked(later, slot).stake_info_account.is_staked,
{
    native_units_additive(amount as nat, (slot - staked_at) as nat, before.mint.decimals as nat);
}

/// A stake that is destaked in the slot in which it was made earns nothing:
/// the vault pays no reward and the caller's account is again exactly what it
/// was before the stake.
pub proof fn immediate_destake_pays_principal_only(
    before: Stake,
    amount: u64,
    slot: u64,
    later: DeStake,
    vault_signer: Option<Seq<u8>>,
    escrow_signer: Option<Seq<u8>>,
)
    requires
        before.wf(),
        stake_failure(before, amount).is_none(),
        continues(staked(before, amount, slot), later),
        destake_failure(later, slot, vault_signer, escrow_signer).is_none(),
    ensures
        destake_reward(later, slot) == 0,
        destake_principal(later) == stake_amount(before, amount),
        destaked(later, slot).user_token_account == before.user_token_account,
        destaked(later, slot).token_vault_account == later.token_vault_account,
{
    reward_of_no_time(before.mint.decimals as nat);
}

/// After a stake has gone through, a second stake is rejected as already
/// staked, whatever its amount. As a rejected stake changes nothing, the
/// escrow holds what the first stake put there.
pub proof fn second_stake_rejected(before: Stake, first: u64, slot: u64, second: u64)
    requires
        stake_failure(before, first).is_none(),
    ensures
        stake_failure(staked(before, first, slot), second) == Some(ErrorCode::AlreadyStaked),
        staked(before, first, slot).stake_account.amount == before.stake_account.amount
            + stake_amount(before, first),
{
}

/// Without a live stake, destake is rejected as not staked, at every slot and
/// whatever the signers.
pub proof fn destake_needs_stake(
    ctx: DeStake,
    slot: u64,
    vault_signer: Option<Seq<u8>>,
    escrow_signer: Option<Seq<u8>>,
)
    requires
        !ctx.stake_info_account.is_staked,
    ensures
        destake_failure(ctx, slot, vault_signer, escrow_signer) == Some(ErrorCode::NotStaked),
{
}

/// Where no stake is live, a stake of nothing is rejected as a zero amount.
pub proof fn stake_of_nothing_rejected(ctx: Stake)
    requires
        !ctx.stake_info_account.is_staked,
    ensures
        stake_failure(ctx, 0) == Some(ErrorCode::ZeroAmount),
{
}

/// A stake that goes through moves a positive amount, so that a live stake
/// always has funds in escrow.
pub proof fn stake_moves_funds(ctx: Stake, amount: u64, slot: u64)
    requires
        stake_failure(ctx, amount).is_none(),
    ensures
        stake_amount(ctx, amount) > 0,
        staked(ctx, amount, slot).stake_account.amount > 0,
        staked(ctx, amount, slot).stake_info_account.is_staked,
{
    scale_positive(ctx.mint.decimals as nat);
    let s = scale(ctx.mint.decimals as nat) as int;
    assert(amount * s >= 1) by (nonlinear_arith)
        requires
            amount >= 1,
            s >= 1,
    ;
}

/// A vault that holds less than the reward due makes destake fail, whatever
/// else holds.
pub proof fn exhausted_vault_rejects(
    ctx: DeStake,
    slot: u64,
    vault_signer: Option<Seq<u8>>,
    escrow_signer: Option<Seq<u8>>,
)
    requires
        ctx.token_vault_account.amount < destake_reward(ctx, slot),
    ensures
        destake_failure(ctx, slot, vault_signer, escrow_signer).is_some(),
        ctx.stake_info_account.is_staked && slot >= ctx.stake_info_account.staked_at
            && destake_reward(ctx, slot) <= u64::MAX && vault_signer == Some(
            ctx.token_vault_account.authority@,
        ) ==> destake_failure(ctx, slot, vault_signer, escrow_signer) == Some(
            ErrorCode::InsufficientFunds,
        ),
{
}

/// The reward of a live stake grows strictly with the slot at which it is
/// destaked.
pub proof fn later_destake_pays_more(ctx: DeStake, sooner: u64, later: u64)
    requires
        ctx.stake_info_account.staked_at <= sooner < later,
    ensures
        destake_reward(ctx, sooner) < destake_reward(ctx, later),
{
    reward_strictly_increasing(
        (sooner - ctx.stake_info_account.staked_at) as nat,
        (later - ctx.stake_info_account.staked_at) as nat,
        ctx.mint.decimals as nat,
    );
}

/// Opening the vault twice is opening it once: the second call goes through
/// and changes nothing.
pub proof fn initialize_idempotent(ctx: Initialize, derived: DerivedAuthority)
    requires
        initialize_failure(ctx, Some(derived)).is_none(),
    ensures
        initialize_failure(initialized(ctx, derived), Some(derived)).is_none(),
        initialized(initialized(ctx, derived), derived) == initialized(ctx, derived),
{
}

/// Where each signer is the authority of the account it signs for, destake
/// is never rejected for an invalid authority.
pub proof fn true_signers_are_accepted(ctx: DeStake, slot: u64)
    ensures
        destake_failure(
            ctx,
            slot,
            Some(ctx.token_vault_account.authority@),
            Some(ctx.stake_account.authority@),
        ) != Some(ErrorCode::InvalidAuthority),
{
}

/// Both operations keep the record and the escrow in agreement: after a stake
/// the escrow holds funds, after a destake it holds none.
pub proof fn operations_keep_agreement(
    before: Stake,
    amount: u64,
    later: DeStake,
    slot: u64,
    vault_signer: Option<Seq<u8>>,
    escrow_signer: Option<Seq<u8>>,
)
    ensures
        stake_failure(before, amount).is_none() ==> staked(before, amount, slot).wf(),
        destake_failure(later, slot, vault_signer, escrow_signer).is_none() ==> destaked(
            later,
            slot,
        ).wf(),
{
    if stake_failure(before, amount).is_none() {
        stake_moves_funds(before, amount, slot);
    }
}

/// Neither operation creates or destroys funds: what leaves one account
/// arrives in another.
pub proof fn funds_are_conserved(
    before: Stake,
    amount: u64,
    later: DeStake,
    slot: u64,
    vault_signer: Option<Seq<u8>>,
    escrow_signer: Option<Seq<u8>>,
)
    ensures
        stake_failure(before, amount).is_none() ==> staked(
            before,
            amount,
            slot,
        ).user_token_account.amount + staked(before, amount, slot).stake_account.amount
            == before.user_token_account.amount + before.stake_account.amount,
        destake_failure(later, slot, vault_signer, escrow_signer).is_none() ==> destaked(
            later,
            slot,
        ).token_vault_account.amount + destaked(later, slot).stake_account.amount + destaked(
            later,
            slot,
        ).user_token_account.amount == later.token_vault_account.amount
            + later.stake_account.amount + later.user_token_account.amount,
{
}

} // verus!
