//! The three operations: `initialize` opens the shared reward vault, `stake`
//! locks funds in the caller's escrow, `destake` pays principal and reward
//! back. Each either happens whole or is rejected and changes nothing.

use vstd::prelude::*;
use crate::accounts::{Address, DeStake, Initialize, Stake, TokenAccount, TransferOrder};
use crate::amount::{native_units, reward, scale, scale_positive, to_native};
use crate::authority::{
    create_program_address, derived_view, find_vault, found_address, program_address, seed_bytes,
    signer_view, stake_info_seeds, stake_info_signer_seeds, vault_seeds, vault_signer_seeds,
    with_bump, DerivedAuthority,
};
use crate::state::{ErrorCode, StakeInfo};
use crate::token::{credited, debited, transfer, transfer_failure};

verus! {

/// Whether `order` moves `amount` from `from` to `to` under `authority`,
/// signed with `seeds`.
pub open spec fn order_is(
    order: TransferOrder,
    from: Address,
    to: Address,
    authority: Address,
    amount: nat,
    seeds: Seq<Seq<u8>>,
) -> bool {
    &&& order.from == from
    &&& order.to == to
    &&& order.authority == authority
    &&& order.amount == amount
    &&& seed_bytes(order.signer_seeds@) == seeds
}

/// The vault that `initialize` creates at a derived address: empty, of the
/// given token type, and its own authority.
pub open spec fn new_vault(address: Address, mint: Address) -> TokenAccount {
    TokenAccount { address, mint, authority: address, amount: 0 }
}

/// Why `initialize` is rejected, or `None` where it goes through: the vault's
/// address must be derivable, and a vault that exists already must sit at that
/// address, hold the given token type and be its own authority.
pub open spec fn initialize_failure(ctx: Initialize, derived: Option<DerivedAuthority>) -> Option<
    ErrorCode,
> {
    match derived {
        None => Some(ErrorCode::InvalidAuthority),
        Some(d) => match ctx.token_vault_account {
            None => None,
            Some(vault) => if vault.address == d.address && vault.mint == ctx.mint.address
                && vault.authority == d.address {
                None
            } else {
                Some(ErrorCode::AccountMismatch)
            },
        },
    }
}

/// The accounts after an `initialize` that went through.
pub open spec fn initialized(ctx: Initialize, derived: DerivedAuthority) -> Initialize {
    match ctx.token_vault_account {
        None => Initialize {
            token_vault_account: Some(new_vault(derived.address, ctx.mint.address)),
            ..ctx
        },
        Some(_) => ctx,
    }
}

/// Whether `r` and `after` are what opening the vault at `derived` yields
/// from `before`.
pub open spec fn open_vault_outcome(
    before: Initialize,
    derived: Option<DerivedAuthority>,
    r: Result<(), ErrorCode>,
    after: Initialize,
) -> bool {
    match r {
        Ok(()) => initialize_failure(before, derived).is_none() && derived.is_some() && after
            == initialized(before, derived.unwrap()),
        Err(e) => initialize_failure(before, derived) == Some(e) && after == before,
    }
}

/// Opens the shared reward vault at the derived address `derived`, unless it
/// is open already.
pub fn open_vault(ctx: &mut Initialize, derived: Option<DerivedAuthority>) -> (r: Result<
    (),
    ErrorCode,
>)
    ensures
        open_vault_outcome(*old(ctx), derived, r, *final(ctx)),
        r.is_ok() ==> final(ctx).token_vault_account.is_some(),
        r.is_ok() && old(ctx).token_vault_account.is_some() ==> *final(ctx) == *old(ctx),
{
    match derived {
        None => Err(ErrorCode::InvalidAuthority),
        Some(d) => match ctx.token_vault_account {
            None => {
                ctx.token_vault_account = Some(
                    TokenAccount {
                        address: d.address,
                        mint: ctx.mint.address,
                        authority: d.address,
                        amount: 0,
                    },
                );
                Ok(())
            },
            Some(vault) => {
                if vault.address.same(&d.address) && vault.mint.same(&ctx.mint.address)
                    && vault.authority.same(&d.address) {
                    Ok(())
                } else {
                    Err(ErrorCode::AccountMismatch)
                }
            },
        },
    }
}

/// Creates the shared reward vault for the token type of `ctx`, at the address
/// derived from the vault tag and `program_id`. A vault that exists already is
/// left as it is. The outcome is that of `open_vault` on the address that the
/// derivation finds.
pub fn initialize(ctx: &mut Initialize, program_id: &Address) -> (r: Result<(), ErrorCode>)
    ensures
        exists|derived: Option<DerivedAuthority>|
            #[trigger] derived_view(derived) == found_address(vault_seeds(), program_id@)
                && open_vault_outcome(*old(ctx), derived, r, *final(ctx)),
        r.is_ok() ==> final(ctx).token_vault_account.is_some(),
        r.is_ok() && old(ctx).token_vault_account.is_some() ==> *final(ctx) == *old(ctx),
{
    let derived = find_vault(program_id);
    open_vault(ctx, derived)
}

/// What `stake` moves into the escrow: `amount` whole tokens in native units.
pub open spec fn stake_amount(ctx: Stake, amount: u64) -> nat {
    native_units(amount as nat, ctx.mint.decimals as nat)
}

/// Why `stake` is rejected, or `None` where it goes through. The checks come
/// in this order: no stake may be live; the amount must not be zero; the
/// scaled amount must fit in 64 bits; the caller must control the spending
/// account, which must hold the scaled amount, and the escrow must have room.
pub open spec fn stake_failure(ctx: Stake, amount: u64) -> Option<ErrorCode> {
    if ctx.stake_info_account.is_staked {
        Some(ErrorCode::AlreadyStaked)
    } else if amount == 0 {
        Some(ErrorCode::ZeroAmount)
    } else if stake_amount(ctx, amount) > u64::MAX {
        Some(ErrorCode::Overflow)
    } else {
        transfer_failure(
            ctx.user_token_account,
            ctx.stake_account,
            Some(ctx.signer@),
            stake_amount(ctx, amount),
        )
    }
}

/// The accounts after a `stake` that went through at `slot`.
pub open spec fn staked(ctx: Stake, amount: u64, slot: u64) -> Stake {
    Stake {
        stake_info_account: StakeInfo { staked_at: slot, is_staked: true },
        stake_account: credited(ctx.stake_account, stake_amount(ctx, amount)),
        user_token_account: debited(ctx.user_token_account, stake_amount(ctx, amount)),
        ..ctx
    }
}

/// Locks `amount` whole tokens of the caller in the caller's escrow at `slot`,
/// and returns the movement of funds that this stands for. The record is
/// flipped only together with the movement.
pub fn stake(ctx: &mut Stake, amount: u64, slot: u64) -> (r: Result<TransferOrder, ErrorCode>)
    ensures
        match r {
            Ok(order) => stake_failure(*old(ctx), amount).is_none() && *final(ctx) == staked(
                *old(ctx),
                amount,
                slot,
            ) && order_is(
                order,
                old(ctx).user_token_account.address,
                old(ctx).stake_account.address,
                old(ctx).signer,
                stake_amount(*old(ctx), amount),
                Seq::empty(),
            ),
            Err(e) => stake_failure(*old(ctx), amount) == Some(e) && *final(ctx) == *old(ctx),
        },
        old(ctx).stake_info_account.is_staked ==> r == Err::<TransferOrder, ErrorCode>(
            ErrorCode::AlreadyStaked,
        ),
        !old(ctx).stake_info_account.is_staked && amount == 0 ==> r == Err::<
            TransferOrder,
            ErrorCode,
        >(ErrorCode::ZeroAmount),
        r.is_ok() ==> final(ctx).stake_info_account.is_staked && final(ctx).stake_account.amount
            > 0,
        old(ctx).wf() ==> final(ctx).wf(),
{
    if ctx.stake_info_account.is_staked {
        return Err(ErrorCode::AlreadyStaked);
    }
    if amount == 0 {
        return Err(ErrorCode::ZeroAmount);
    }
    let native = match to_native(amount, ctx.mint.decimals) {
        Some(n) => n,
        None => {
            return Err(ErrorCode::Overflow);
        },
    };
    proof {
        scale_positive(ctx.mint.decimals as nat);
        let s = scale(ctx.mint.decimals as nat) as int;
        assert(amount * s >= 1) by (nonlinear_arith)
            requires
                amount >= 1,
                s >= 1,
        ;
    }
    let mut source = ctx.user_token_account;
    let mut escrow = ctx.stake_account;
    match transfer(&mut source, &mut escrow, &Some(ctx.signer), native) {
        Ok(()) => {},
        Err(e) => {
            return Err(e);
        },
    }
    ctx.user_token_account = source;
    ctx.stake_account = escrow;
    ctx.stake_info_account.staked_at = slot;
    ctx.stake_info_account.is_staked = true;
    let order = TransferOrder {
        from: source.address,
        to: escrow.address,
        authority: ctx.signer,
        amount: native,
        signer_seeds: Vec::new(),
    };
    assert(seed_bytes(order.signer_seeds@) =~= Seq::empty());
    Ok(order)
}

/// The two movements of funds that a `destake` stands for.
#[derive(Clone, Debug, PartialEq, Eq)]
pub struct Settlement {
    /// From the shared reward vault to the caller.
    pub reward: TransferOrder,
    /// From the caller's escrow to the caller.
    pub principal: TransferOrder,
}

/// The reward that a `destake` at `slot` pays: one whole token for each slot
/// since the stake.
pub open spec fn destake_reward(ctx: DeStake, slot: u64) -> nat {
    reward((slot - ctx.stake_info_account.staked_at) as nat, ctx.mint.decimals as nat)
}

/// The principal that a `destake` pays back: all that the escrow holds.
pub open spec fn destake_principal(ctx: DeStake) -> nat {
    ctx.stake_account.amount as nat
}

/// Why `destake` is rejected, or `None` where it goes through. The checks come
/// in this order: a stake must be live; `slot` must not lie before it; the
/// reward must fit in 64 bits; the vault's signer must control the vault, which
/// must hold the reward, and the caller's account must have room for it; the
/// escrow's signer must control the escrow, and the caller's account must have
/// room for the principal too.
pub open spec fn destake_failure(
    ctx: DeStake,
    slot: u64,
    vault_signer: Option<Seq<u8>>,
    escrow_signer: Option<Seq<u8>>,
) -> Option<ErrorCode> {
    if !ctx.stake_info_account.is_staked {
        Some(ErrorCode::NotStaked)
    } else if slot < ctx.stake_info_account.staked_at {
        Some(ErrorCode::SlotBeforeStake)
    } else if destake_reward(ctx, slot) > u64::MAX {
        Some(ErrorCode::Overflow)
    } else {
        match transfer_failure(
            ctx.token_vault_account,
            ctx.user_token_account,
            vault_signer,
            destake_reward(ctx, slot),
        ) {
            Some(e) => Some(e),
            None => transfer_failure(
                ctx.stake_account,
                credited(ctx.user_token_account, destake_reward(ctx, slot)),
                escrow_signer,
                destake_principal(ctx),
            ),
        }
    }
}

/// The accounts after a `destake` that went through at `slot`.
pub open spec fn destaked(ctx: DeStake, slot: u64) -> DeStake {
    DeStake {
        stake_info_account: StakeInfo { staked_at: slot, is_staked: false },
        token_vault_account: debited(ctx.token_vault_account, destake_reward(ctx, slot)),
        stake_account: debited(ctx.stake_account, destake_principal(ctx)),
        user_token_account: credited(
            credited(ctx.user_token_account, destake_reward(ctx, slot)),
            destake_principal(ctx),
        ),
        ..ctx
    }
}

/// Whether `r` and `after` are what a `destake` at `slot` yields from
/// `before`, given the addresses that the two sets of signer seeds
/// reconstruct.
pub open spec fn destake_outcome(
    before: DeStake,
    slot: u64,
    vault_signer: Option<Seq<u8>>,
    escrow_signer: Option<Seq<u8>>,
    r: Result<Settlement, ErrorCode>,
    after: DeStake,
) -> bool {
    match r {
        Ok(settlement) => {
            &&& destake_failure(before, slot, vault_signer, escrow_signer).is_none()
            &&& after == destaked(before, slot)
            &&& order_is(
                settlement.reward,
                before.token_vault_account.address,
                before.user_token_account.address,
                before.token_vault_account.authority,
                destake_reward(before, slot),
                with_bump(vault_seeds(), before.bumps.token_vault_account),
            )
            &&& order_is(
                settlement.principal,
                before.stake_account.address,
                before.user_token_account.address,
                before.stake_account.authority,
                destake_principal(before),
                with_bump(stake_info_seeds(before.signer), before.bumps.stake_info_account),
            )
        },
        Err(e) => destake_failure(before, slot, vault_signer, escrow_signer) == Some(e) && after
            == before,
    }
}

/// Pays principal and reward back at `slot`, given the addresses that the
/// vault's and the escrow's signer seeds reconstruct, and returns the two
/// movements of funds that this stands for. Where the vault cannot pay the
/// reward nothing moves and the stake stays live.
pub fn settle(
    ctx: &mut DeStake,
    slot: u64,
    vault_signer: Option<Address>,
    escrow_signer: Option<Address>,
) -> (r: Result<Settlement, ErrorCode>)
    ensures
        destake_outcome(
            *old(ctx),
            slot,
            signer_view(vault_signer),
            signer_view(escrow_signer),
            r,
            *final(ctx),
        ),
        !old(ctx).stake_info_account.is_staked ==> r == Err::<Settlement, ErrorCode>(
            ErrorCode::NotStaked,
        ),
        r.is_ok() ==> !final(ctx).stake_info_account.is_staked && final(ctx).stake_account.amount
            == 0,
        old(ctx).token_vault_account.amount < destake_reward(*old(ctx), slot) ==> r.is_err()
            && *final(ctx) == *old(ctx),
        old(ctx).wf() ==> final(ctx).wf(),
{
    if !ctx.stake_info_account.is_staked {
        return Err(ErrorCode::NotStaked);
    }
    if slot < ctx.stake_info_account.staked_at {
        return Err(ErrorCode::SlotBeforeStake);
    }
    let elapsed: u64 = slot - ctx.stake_info_account.staked_at;
    let reward_due = match to_native(elapsed, ctx.mint.decimals) {
        Some(n) => n,
        None => {
            return Err(ErrorCode::Overflow);
        },
    };
    let principal: u64 = ctx.stake_account.amount;
    let mut vault = ctx.token_vault_account;
    let mut escrow = ctx.stake_account;
    let mut target = ctx.user_token_account;
    match transfer(&mut vault, &mut target, &vault_signer, reward_due) {
        Ok(()) => {},
        Err(e) => {
            return Err(e);
        },
    }
    match transfer(&mut escrow, &mut target, &escrow_signer, principal) {
        Ok(()) => {},
        Err(e) => {
            return Err(e);
        },
    }
    let settlement = Settlement {
        reward: TransferOrder {
            from: vault.address,
            to: target.address,
            authority: vault.authority,
            amount: reward_due,
            signer_seeds: vault_signer_seeds(ctx.bumps.token_vault_account),
        },
        principal: TransferOrder {
            from: escrow.address,
            to: target.address,
            authority: escrow.authority,
            amount: principal,
            signer_seeds: stake_info_signer_seeds(&ctx.signer, ctx.bumps.stake_info_account),
        },
    };
    ctx.token_vault_account = vault;
    ctx.stake_account = escrow;
    ctx.user_token_account = target;
    ctx.stake_info_account.is_staked = false;
    ctx.stake_info_account.staked_at = slot;
    Ok(settlement)
}

/// Pays principal and reward back at `slot`. The program signs for the vault
/// and for the escrow's authority with their seeds and the bump seeds of
/// `ctx`; each signature holds only if the seeds reconstruct the authority
/// under `program_id`. The outcome is that of `settle` on the two addresses
/// reconstructed.
pub fn destake(ctx: &mut DeStake, program_id: &Address, slot: u64) -> (r: Result<
    Settlement,
    ErrorCode,
>)
    ensures
        destake_outcome(
            *old(ctx),
            slot,
            program_address(
                with_bump(vault_seeds(), old(ctx).bumps.token_vault_account),
                program_id@,
            ),
            program_address(
                with_bump(stake_info_seeds(old(ctx).signer), old(ctx).bumps.stake_info_account),
                program_id@,
            ),
            r,
            *final(ctx),
        ),
        !old(ctx).stake_info_account.is_staked ==> r == Err::<Settlement, ErrorCode>(
            ErrorCode::NotStaked,
        ),
        old(ctx).token_vault_account.amount < destake_reward(*old(ctx), slot) ==> r.is_err()
            && *final(ctx) == *old(ctx),
        old(ctx).wf() ==> final(ctx).wf(),
{
    let vault_seeds = vault_signer_seeds(ctx.bumps.token_vault_account);
    let vault_signer = create_program_address(&vault_seeds, program_id);
    let escrow_seeds = stake_info_signer_seeds(&ctx.signer, ctx.bumps.stake_info_account);
    let escrow_signer = create_program_address(&escrow_seeds, program_id);
    settle(ctx, slot, vault_signer, escrow_signer)
}

} // verus!
