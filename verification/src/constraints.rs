//! What must hold of the accounts handed to `stake` and `destake` before they
//! are used: each custody account sits at the address derived for it and is
//! controlled by the derived authority meant for it.

use vstd::prelude::*;
use crate::accounts::{Address, DeStake, Mint, Stake, TokenAccount};
use crate::authority::{
    derived_view, escrow_seeds, find_escrow, find_stake_info, find_vault, found_address,
    program_address, stake_info_seeds, vault_seeds, with_bump, DerivedAuthority,
};
use crate::state::ErrorCode;

verus! {

/// Whether `account` is the caller's spending account for `mint`.
pub open spec fn is_spending_account(account: TokenAccount, owner: Address, mint: Mint) -> bool {
    account.mint == mint.address && account.authority == owner
}

/// Whether `account` is an escrow for `mint` at the address `escrow`, under
/// the authority `record`.
pub open spec fn is_escrow(
    account: TokenAccount,
    escrow: Seq<u8>,
    record: Seq<u8>,
    mint: Mint,
) -> bool {
    account.address@ == escrow && account.authority@ == record && account.mint == mint.address
}

/// Whether `account` is the reward vault for `mint` at the address `vault`,
/// under its own authority.
pub open spec fn is_vault(account: TokenAccount, vault: Seq<u8>, mint: Mint) -> bool {
    account.address@ == vault && account.authority@ == vault && account.mint == mint.address
}

/// The verdict on the accounts of `stake`, given what the derivations of the
/// caller's stake record and escrow found: a derivation that found nothing is
/// an invalid authority, an account that is not the one derived is a
/// mismatch.
pub open spec fn stake_accounts_checked(
    ctx: Stake,
    record: Option<(Seq<u8>, u8)>,
    escrow: Option<(Seq<u8>, u8)>,
) -> Result<(), ErrorCode> {
    if record.is_none() || escrow.is_none() {
        Err(ErrorCode::InvalidAuthority)
    } else if is_escrow(ctx.stake_account, escrow.unwrap().0, record.unwrap().0, ctx.mint)
        && is_spending_account(ctx.user_token_account, ctx.signer, ctx.mint) {
        Ok(())
    } else {
        Err(ErrorCode::AccountMismatch)
    }
}

/// The verdict on the accounts of `destake`, given what the derivations of
/// the vault and of the caller's stake record and escrow found. The bump
/// seeds that the accounts carry must be the ones found.
pub open spec fn destake_accounts_checked(
    ctx: DeStake,
    vault: Option<(Seq<u8>, u8)>,
    record: Option<(Seq<u8>, u8)>,
    escrow: Option<(Seq<u8>, u8)>,
) -> Result<(), ErrorCode> {
    if vault.is_none() || record.is_none() || escrow.is_none() {
        Err(ErrorCode::InvalidAuthority)
    } else if is_vault(ctx.token_vault_account, vault.unwrap().0, ctx.mint) && is_escrow(
        ctx.stake_account,
        escrow.unwrap().0,
        record.unwrap().0,
        ctx.mint,
    ) && is_spending_account(ctx.user_token_account, ctx.signer, ctx.mint)
        && ctx.bumps.token_vault_account == vault.unwrap().1 && ctx.bumps.stake_info_account
        == record.unwrap().1 {
        Ok(())
    } else {
        Err(ErrorCode::AccountMismatch)
    }
}

fn spending_account_ok(account: &TokenAccount, owner: &Address, mint: &Mint) -> (b: bool)
    ensures
        b == is_spending_account(*account, *owner, *mint),
{
    account.mint.same(&mint.address) && account.authority.same(owner)
}

fn escrow_ok(account: &TokenAccount, escrow: &Address, record: &Address, mint: &Mint) -> (b: bool)
    ensures
        b == is_escrow(*account, escrow@, record@, *mint),
{
    account.address.same(escrow) && account.authority.same(record) && account.mint.same(
        &mint.address,
    )
}

fn vault_ok(account: &TokenAccount, vault: &Address, mint: &Mint) -> (b: bool)
    ensures
        b == is_vault(*account, vault@, *mint),
{
    account.address.same(vault) && account.authority.same(vault) && account.mint.same(
        &mint.address,
    )
}

/// Checks the accounts of `stake` against the derived stake record and
/// escrow.
pub fn check_stake_accounts(
    ctx: &Stake,
    record: Option<DerivedAuthority>,
    escrow: Option<DerivedAuthority>,
) -> (r: Result<(), ErrorCode>)
    ensures
        r == stake_accounts_checked(*ctx, derived_view(record), derived_view(escrow)),
{
    match (record, escrow) {
        (Some(rec), Some(esc)) => {
            if escrow_ok(&ctx.stake_account, &esc.address, &rec.address, &ctx.mint)
                && spending_account_ok(&ctx.user_token_account, &ctx.signer, &ctx.mint) {
                Ok(())
            } else {
                Err(ErrorCode::AccountMismatch)
            }
        },
        _ => Err(ErrorCode::InvalidAuthority),
    }
}

/// Checks the accounts of `destake` against the derived vault, stake record
/// and escrow.
pub fn check_destake_accounts(
    ctx: &DeStake,
    vault: Option<DerivedAuthority>,
    record: Option<DerivedAuthority>,
    escrow: Option<DerivedAuthority>,
) -> (r: Result<(), ErrorCode>)
    ensures
        r == destake_accounts_checked(
            *ctx,
            derived_view(vault),
            derived_view(record),
            derived_view(escrow),
        ),
{
    match (vault, record, escrow) {
        (Some(v), Some(rec), Some(esc)) => {
            if vault_ok(&ctx.token_vault_account, &v.address, &ctx.mint) && escrow_ok(
                &ctx.stake_account,
                &esc.address,
                &rec.address,
                &ctx.mint,
            ) && spending_account_ok(&ctx.user_token_account, &ctx.signer, &ctx.mint)
                && ctx.bumps.token_vault_account == v.bump && ctx.bumps.stake_info_account
                == rec.bump {
                Ok(())
            } else {
                Err(ErrorCode::AccountMismatch)
            }
        },
        _ => Err(ErrorCode::InvalidAuthority),
    }
}

/// Derives the caller's stake record and escrow under `program_id` and checks
/// the accounts of `stake` against them.
pub fn validate_stake(ctx: &Stake, program_id: &Address) -> (r: Result<(), ErrorCode>)
    ensures
        r == stake_accounts_checked(
            *ctx,
            found_address(stake_info_seeds(ctx.signer), program_id@),
            found_address(escrow_seeds(ctx.signer), program_id@),
        ),
{
    let record = find_stake_info(&ctx.signer, program_id);
    let escrow = find_escrow(&ctx.signer, program_id);
    check_stake_accounts(ctx, record, escrow)
}

/// Derives the vault and the caller's stake record and escrow under
/// `program_id` and checks the accounts of `destake` against them. On
/// accounts that pass, the program's signatures for the vault and for the
/// escrow's authority hold.
pub fn validate_destake(ctx: &DeStake, program_id: &Address) -> (r: Result<(), ErrorCode>)
    ensures
        r == destake_accounts_checked(
            *ctx,
            found_address(vault_seeds(), program_id@),
            found_address(stake_info_seeds(ctx.signer), program_id@),
            found_address(escrow_seeds(ctx.signer), program_id@),
        ),
        r.is_ok() ==> program_address(
            with_bump(vault_seeds(), ctx.bumps.token_vault_account),
            program_id@,
        ) == Some(ctx.token_vault_account.authority@),
        r.is_ok() ==> program_address(
            with_bump(stake_info_seeds(ctx.signer), ctx.bumps.stake_info_account),
            program_id@,
        ) == Some(ctx.stake_account.authority@),
{
    let vault = find_vault(program_id);
    let record = find_stake_info(&ctx.signer, program_id);
    let escrow = find_escrow(&ctx.signer, program_id);
    check_destake_accounts(ctx, vault, record, escrow)
}

} // verus!
