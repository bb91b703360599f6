//! The fixed tags from which the program's custody addresses are derived.

use vstd::prelude::*;

verus! {

/// Tag of the shared reward vault.
pub const VAULT_SEED: [u8; 5] = [118, 97, 117, 108, 116];

/// Tag of a user's stake record.
pub const STAKE_INFO_SEED: [u8; 10] = [115, 116, 97, 107, 101, 95, 105, 110, 102, 111];

/// Tag of a user's escrow account.
pub const TOKEN_SEED: [u8; 5] = [116, 111, 107, 101, 110];

} // verus!
