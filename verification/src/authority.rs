//! Derivation of the addresses that the program itself controls.
//!
//! A derived address is computed from a list of seeds and the program's own
//! address. No private key exists for it: the program signs for it by naming
//! the seeds, and the signature holds only if the seeds reconstruct the
//! address.

use vstd::prelude::*;
use solana_program::pubkey::Pubkey;
use crate::accounts::{bytes_of, Address};
use crate::constants::{STAKE_INFO_SEED, TOKEN_SEED, VAULT_SEED};
use crate::state::ErrorCode;

verus! {

/// The address that `seeds` and `program` reconstruct, if they reconstruct one.
pub uninterp spec fn program_address(seeds: Seq<Seq<u8>>, program: Seq<u8>) -> Option<Seq<u8>>;

/// The address and bump seed that a search from `seeds` and `program` finds, if
/// it finds any.
pub uninterp spec fn found_address(seeds: Seq<Seq<u8>>, program: Seq<u8>) -> Option<(Seq<u8>, u8)>;

/// Most seeds that a derivation takes, the bump seed included.
pub const MAX_SEEDS: usize = 16;

/// Most bytes in one seed.
pub const MAX_SEED_LEN: usize = 32;

/// A derived address with the bump seed that completes its seeds.
#[derive(Clone, Copy, Debug, PartialEq, Eq)]
pub struct DerivedAuthority {
    pub address: Address,
    pub bump: u8,
}

/// The byte strings that a list of seeds holds.
pub open spec fn seed_bytes(seeds: Seq<Vec<u8>>) -> Seq<Seq<u8>> {
    Seq::new(seeds.len(), |i: int| seeds[i]@)
}

/// `seeds` completed by a bump seed.
pub open spec fn with_bump(seeds: Seq<Seq<u8>>, bump: u8) -> Seq<Seq<u8>> {
    seeds.push(seq![bump])
}

/// Seeds of the shared reward vault.
pub open spec fn vault_seeds() -> Seq<Seq<u8>> {
    seq![VAULT_SEED@]
}

/// Seeds of the stake record of `user`.
pub open spec fn stake_info_seeds(user: Address) -> Seq<Seq<u8>> {
    seq![STAKE_INFO_SEED@, user@]
}

/// Seeds of the escrow account of `user`.
pub open spec fn escrow_seeds(user: Address) -> Seq<Seq<u8>> {
    seq![TOKEN_SEED@, user@]
}

/// What a search result says in plain values.
pub open spec fn derived_view(r: Option<DerivedAuthority>) -> Option<(Seq<u8>, u8)> {
    match r {
        Some(d) => Some((d.address@, d.bump)),
        None => None,
    }
}

/// What a reconstructed signer says in plain values.
pub open spec fn signer_view(r: Option<Address>) -> Option<Seq<u8>> {
    match r {
        Some(a) => Some(a@),
        None => None,
    }
}

/// Whether a derivation rejects `seeds` for their shape alone.
pub open spec fn seeds_too_long(seeds: Seq<Seq<u8>>) -> bool {
    seeds.len() > MAX_SEEDS || exists|i: int|
        0 <= i < seeds.len() && #[trigger] seeds[i].len() > MAX_SEED_LEN
}

/// Calls `Pubkey::create_program_address`. The contract names the address it
/// returns, `None` standing for each of its errors, and claims one fact of it:
/// more than sixteen seeds, or a seed of more than thirty-two bytes, give an
/// error.
#[verifier::external_body]
pub(crate) fn create_program_address(seeds: &Vec<Vec<u8>>, program_id: &Address) -> (r: Option<
    Address,
>)
    ensures
        signer_view(r) == program_address(seed_bytes(seeds@), program_id@),
        seeds_too_long(seed_bytes(seeds@)) ==> r.is_none(),
{
    let parts: Vec<&[u8]> = seeds.iter().map(|s| s.as_slice()).collect();
    match Pubkey::create_program_address(&parts, &Pubkey::new_from_array(program_id.bytes)) {
        Ok(key) => Some(Address { bytes: key.to_bytes() }),
        Err(_) => None,
    }
}

/// Calls `Pubkey::try_find_program_address`. The contract names what the
/// search returns and claims one fact of it: an address that it finds is the
/// one that the same seeds, completed by the bump seed found, reconstruct.
#[verifier::external_body]
fn try_find_program_address(seeds: &Vec<Vec<u8>>, program_id: &Address) -> (r: Option<
    DerivedAuthority,
>)
    ensures
        derived_view(r) == found_address(seed_bytes(seeds@), program_id@),
        r matches Some(d) ==> program_address(with_bump(seed_bytes(seeds@), d.bump), program_id@)
            == Some(d.address@),
{
    let parts: Vec<&[u8]> = seeds.iter().map(|s| s.as_slice()).collect();
    match Pubkey::try_find_program_address(&parts, &Pubkey::new_from_array(program_id.bytes)) {
        Some((key, bump)) => Some(
            DerivedAuthority { address: Address { bytes: key.to_bytes() }, bump },
        ),
        None => None,
    }
}

/// The seeds with which the program signs for the shared reward vault.
pub fn vault_signer_seeds(bump: u8) -> (seeds: Vec<Vec<u8>>)
    ensures
        seed_bytes(seeds@) == with_bump(vault_seeds(), bump),
{
    let mut seeds: Vec<Vec<u8>> = Vec::new();
    seeds.push(bytes_of(&VAULT_SEED));
    seeds.push(vec![bump]);
    assert(seeds@[1]@ =~= seq![bump]);
    assert(seed_bytes(seeds@) =~= with_bump(vault_seeds(), bump));
    seeds
}

/// The seeds with which the program signs for the stake record of `user`,
/// which is the authority of that user's escrow.
pub fn stake_info_signer_seeds(user: &Address, bump: u8) -> (seeds: Vec<Vec<u8>>)
    ensures
        seed_bytes(seeds@) == with_bump(stake_info_seeds(*user), bump),
{
    let mut seeds: Vec<Vec<u8>> = Vec::new();
    seeds.push(bytes_of(&STAKE_INFO_SEED));
    seeds.push(user.to_vec());
    seeds.push(vec![bump]);
    assert(seeds@[2]@ =~= seq![bump]);
    assert(seed_bytes(seeds@) =~= with_bump(stake_info_seeds(*user), bump));
    seeds
}

/// Derives the address of the shared reward vault, which is its own authority.
/// The address found is the one that the vault's signer seeds reconstruct.
pub fn find_vault(program_id: &Address) -> (r: Option<DerivedAuthority>)
    ensures
        derived_view(r) == found_address(vault_seeds(), program_id@),
        r matches Some(d) ==> program_address(with_bump(vault_seeds(), d.bump), program_id@)
            == Some(d.address@),
{
    let mut seeds: Vec<Vec<u8>> = Vec::new();
    seeds.push(bytes_of(&VAULT_SEED));
    assert(seed_bytes(seeds@) =~= vault_seeds());
    try_find_program_address(&seeds, program_id)
}

/// Derives the address of the stake record of `user`, the authority of that
/// user's escrow. The address found is the one that the record's signer seeds
/// reconstruct.
pub fn find_stake_info(user: &Address, program_id: &Address) -> (r: Option<DerivedAuthority>)
    ensures
        derived_view(r) == found_address(stake_info_seeds(*user), program_id@),
        r matches Some(d) ==> program_address(
            with_bump(stake_info_seeds(*user), d.bump),
            program_id@,
        ) == Some(d.address@),
{
    let mut seeds: Vec<Vec<u8>> = Vec::new();
    seeds.push(bytes_of(&STAKE_INFO_SEED));
    seeds.push(user.to_vec());
    assert(seed_bytes(seeds@) =~= stake_info_seeds(*user));
    try_find_program_address(&seeds, program_id)
}

/// Derives the address of the escrow account of `user`.
pub fn find_escrow(user: &Address, program_id: &Address) -> (r: Option<DerivedAuthority>)
    ensures
        derived_view(r) == found_address(escrow_seeds(*user), program_id@),
        r matches Some(d) ==> program_address(with_bump(escrow_seeds(*user), d.bump), program_id@)
            == Some(d.address@),
{
    let mut seeds: Vec<Vec<u8>> = Vec::new();
    seeds.push(bytes_of(&TOKEN_SEED));
    seeds.push(user.to_vec());
    assert(seed_bytes(seeds@) =~= escrow_seeds(*user));
    try_find_program_address(&seeds, program_id)
}

/// Accepts `claimed` only if `seeds` reconstruct exactly that address; any
/// mismatch, and any seeds that reconstruct nothing, are rejected.
pub fn check_derived(claimed: &Address, seeds: &Vec<Vec<u8>>, program_id: &Address) -> (r: Result<
    (),
    ErrorCode,
>)
    ensures
        r == derivation_checked(claimed@, program_address(seed_bytes(seeds@), program_id@)),
{
    let signer = create_program_address(seeds, program_id);
    check_signer(claimed, signer)
}

/// What `check_derived` answers once the seeds have been reconstructed.
pub open spec fn derivation_checked(claimed: Seq<u8>, reconstructed: Option<Seq<u8>>) -> Result<
    (),
    ErrorCode,
> {
    if reconstructed == Some(claimed) {
        Ok(())
    } else {
        Err(ErrorCode::InvalidAuthority)
    }
}

/// Accepts `claimed` only if it is the address that was reconstructed.
pub fn check_signer(claimed: &Address, reconstructed: Option<Address>) -> (r: Result<(), ErrorCode>)
    ensures
        r == derivation_checked(claimed@, signer_view(reconstructed)),
{
    match reconstructed {
        Some(address) => {
            if address.same(claimed) {
                Ok(())
            } else {
                Err(ErrorCode::InvalidAuthority)
            }
        },
        None => Err(ErrorCode::InvalidAuthority),
    }
}

} // verus!
