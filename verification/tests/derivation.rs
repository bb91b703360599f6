use solana_program::pubkey::Pubkey;
use staking_program::accounts::{bytes_of, Address, TokenAccount};
use staking_program::amount::{scale_factor, to_native};
use staking_program::authority::{
    check_derived, check_signer, find_escrow, find_stake_info, find_vault,
    stake_info_signer_seeds, vault_signer_seeds,
};
use staking_program::constants::{STAKE_INFO_SEED, TOKEN_SEED, VAULT_SEED};
use staking_program::state::{ErrorCode, StakeInfo};
use staking_program::token::transfer;

fn program() -> Address {
    Address { bytes: [7; 32] }
}

fn user() -> Address {
    Address { bytes: [1; 32] }
}

#[test]
fn tags_spell_their_names() {
    assert_eq!(&VAULT_SEED, b"vault");
    assert_eq!(&STAKE_INFO_SEED, b"stake_info");
    assert_eq!(&TOKEN_SEED, b"token");
}

#[test]
fn fresh_record_is_not_staked() {
    assert_eq!(StakeInfo::new(), StakeInfo { staked_at: 0, is_staked: false });
}

#[test]
fn derived_addresses_are_those_of_the_runtime() {
    let id = Pubkey::new_from_array([7; 32]);
    let owner = [1u8; 32];
    let (vault, vault_bump) = Pubkey::find_program_address(&[b"vault"], &id);
    let (record, record_bump) = Pubkey::find_program_address(&[b"stake_info", &owner], &id);
    let (escrow, escrow_bump) = Pubkey::find_program_address(&[b"token", &owner], &id);

    let found = find_vault(&program()).unwrap();
    assert_eq!((found.address.bytes, found.bump), (vault.to_bytes(), vault_bump));
    let found = find_stake_info(&user(), &program()).unwrap();
    assert_eq!((found.address.bytes, found.bump), (record.to_bytes(), record_bump));
    let found = find_escrow(&user(), &program()).unwrap();
    assert_eq!((found.address.bytes, found.bump), (escrow.to_bytes(), escrow_bump));
}

#[test]
fn derivation_is_reproducible_and_scoped() {
    assert_eq!(find_vault(&program()), find_vault(&program()));
    let mine = find_stake_info(&user(), &program()).unwrap();
    let theirs = find_stake_info(&Address { bytes: [4; 32] }, &program()).unwrap();
    assert_ne!(mine.address, theirs.address);
    assert_ne!(mine.address, find_escrow(&user(), &program()).unwrap().address);
    assert_ne!(mine.address, user());
    assert_ne!(find_vault(&program()).unwrap().address, program());
}

#[test]
fn signer_seeds_end_in_the_bump() {
    assert_eq!(vault_signer_seeds(254), vec![b"vault".to_vec(), vec![254u8]]);
    assert_eq!(
        stake_info_signer_seeds(&user(), 3),
        vec![b"stake_info".to_vec(), vec![1u8; 32], vec![3u8]]
    );
}

#[test]
fn found_address_passes_the_check() {
    let vault = find_vault(&program()).unwrap();
    assert_eq!(check_derived(&vault.address, &vault_signer_seeds(vault.bump), &program()), Ok(()));
    let record = find_stake_info(&user(), &program()).unwrap();
    assert_eq!(
        check_derived(&record.address, &stake_info_signer_seeds(&user(), record.bump), &program()),
        Ok(())
    );
}

#[test]
fn mismatch_fails_closed() {
    let vault = find_vault(&program()).unwrap();
    let seeds = vault_signer_seeds(vault.bump);
    assert_eq!(check_derived(&user(), &seeds, &program()), Err(ErrorCode::InvalidAuthority));
    assert_eq!(
        check_derived(&vault.address, &seeds, &Address { bytes: [8; 32] }),
        Err(ErrorCode::InvalidAuthority)
    );
    assert_eq!(
        check_derived(&vault.address, &vault_signer_seeds(vault.bump.wrapping_sub(1)), &program()),
        Err(ErrorCode::InvalidAuthority)
    );
    assert_eq!(
        check_derived(&vault.address, &stake_info_signer_seeds(&user(), vault.bump), &program()),
        Err(ErrorCode::InvalidAuthority)
    );
}

#[test]
fn overlong_seeds_sign_for_nothing() {
    let long = vec![vec![0u8; 33]];
    assert_eq!(check_derived(&user(), &long, &program()), Err(ErrorCode::InvalidAuthority));
    let many = vec![vec![0u8; 1]; 17];
    assert_eq!(check_derived(&user(), &many, &program()), Err(ErrorCode::InvalidAuthority));
}

#[test]
fn check_signer_compares_addresses() {
    assert_eq!(check_signer(&user(), Some(user())), Ok(()));
    assert_eq!(check_signer(&user(), Some(program())), Err(ErrorCode::InvalidAuthority));
    assert_eq!(check_signer(&user(), None), Err(ErrorCode::InvalidAuthority));
}

#[test]
fn addresses_compare_byte_by_byte() {
    let mut other = [1u8; 32];
    assert!(user().same(&Address { bytes: other }));
    other[31] = 0;
    assert!(!user().same(&Address { bytes: other }));
    assert_eq!(user().to_vec(), vec![1u8; 32]);
    assert_eq!(bytes_of(&[9u8, 8, 7]), vec![9u8, 8, 7]);
    assert_eq!(bytes_of(&[0u8; 0]), Vec::<u8>::new());
}

#[test]
fn scale_factor_is_a_power_of_ten() {
    assert_eq!(scale_factor(0), Some(1));
    assert_eq!(scale_factor(1), Some(10));
    assert_eq!(scale_factor(6), Some(1_000_000));
    assert_eq!(scale_factor(19), Some(10_000_000_000_000_000_000));
    assert_eq!(scale_factor(20), None);
    assert_eq!(scale_factor(255), None);
}

#[test]
fn to_native_scales_or_refuses() {
    assert_eq!(to_native(5, 6), Some(5_000_000));
    assert_eq!(to_native(100, 6), Some(100_000_000));
    assert_eq!(to_native(0, 6), Some(0));
    assert_eq!(to_native(0, 30), Some(0));
    assert_eq!(to_native(1, 19), Some(10_000_000_000_000_000_000));
    assert_eq!(to_native(2, 19), None);
    assert_eq!(to_native(1, 20), None);
    assert_eq!(to_native(u64::MAX, 0), Some(u64::MAX));
    assert_eq!(to_native(u64::MAX, 1), None);
}

fn account(authority: Address, amount: u64) -> TokenAccount {
    TokenAccount {
        address: Address { bytes: [5; 32] },
        mint: Address { bytes: [3; 32] },
        authority,
        amount,
    }
}

#[test]
fn transfer_moves_funds_whole() {
    let mut from = account(user(), 10);
    let mut to = account(program(), 1);
    assert_eq!(transfer(&mut from, &mut to, &Some(user()), 10), Ok(()));
    assert_eq!((from.amount, to.amount), (0, 11));
    assert_eq!(transfer(&mut from, &mut to, &Some(user()), 0), Ok(()));
    assert_eq!((from.amount, to.amount), (0, 11));
}

#[test]
fn transfer_refuses_and_moves_nothing() {
    let mut from = account(user(), 10);
    let mut to = account(program(), u64::MAX - 5);
    assert_eq!(transfer(&mut from, &mut to, &Some(program()), 1), Err(ErrorCode::InvalidAuthority));
    assert_eq!(transfer(&mut from, &mut to, &None, 1), Err(ErrorCode::InvalidAuthority));
    assert_eq!(transfer(&mut from, &mut to, &Some(user()), 11), Err(ErrorCode::InsufficientFunds));
    assert_eq!(transfer(&mut from, &mut to, &Some(user()), 6), Err(ErrorCode::Overflow));
    assert_eq!((from.amount, to.amount), (10, u64::MAX - 5));
    assert_eq!(transfer(&mut from, &mut to, &Some(user()), 5), Ok(()));
    assert_eq!((from.amount, to.amount), (5, u64::MAX));
}

#[test]
fn errors_have_their_texts() {
    assert_eq!(ErrorCode::AlreadyStaked.message(), "Tokens are already staked");
    assert_eq!(ErrorCode::NotStaked.message(), "Tokens not staked");
    assert_eq!(ErrorCode::ZeroAmount.message(), "No tokens to staked");
    assert_eq!(ErrorCode::Overflow.message(), "Amount does not fit in 64 bits");
    assert_eq!(ErrorCode::SlotBeforeStake.message(), "Slot lies before the stake");
    assert_eq!(ErrorCode::InsufficientFunds.message(), "Insufficient funds");
    assert_eq!(ErrorCode::InvalidAuthority.message(), "Authority does not control the account");
    assert_eq!(ErrorCode::AccountMismatch.message(), "Account is not the one expected");
}
