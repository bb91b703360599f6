//! Plain-value images of the accounts that the staking operations read and change.

use vstd::prelude::*;
use crate::state::StakeInfo;

verus! {

/// A 32-byte account address.
#[derive(Clone, Copy, Debug, PartialEq, Eq)]
pub struct Address {
    pub bytes: [u8; 32],
}

impl View for Address {
    type V = Seq<u8>;

    open spec fn view(&self) -> Seq<u8> {
        self.bytes@
    }
}

impl Address {
    /// Whether two addresses hold the same bytes.
    pub fn same(&self, other: &Address) -> (b: bool)
        ensures
            b == (*self == *other),
            b == (self@ == other@),
    {
        let mut i: usize = 0;
        while i < 32
            invariant
                i <= 32,
                forall|j: int| 0 <= j < i ==> self.bytes[j] == other.bytes[j],
            decreases 32 - i,
        {
            if self.bytes[i] != other.bytes[i] {
                return false;
            }
            i += 1;
        }
        assert(self.bytes@ =~= other.bytes@);
        assert(self.bytes =~= other.bytes);
        true
    }

    /// The address as a byte vector, in order.
    pub fn to_vec(&self) -> (v: Vec<u8>)
        ensures
            v@ == self@,
    {
        bytes_of(&self.bytes)
    }
}

/// The bytes of an array as a vector, in order.
pub fn bytes_of<const N: usize>(bytes: &[u8; N]) -> (v: Vec<u8>)
    ensures
        v@ == bytes@,
{
    let mut v: Vec<u8> = Vec::new();
    let mut i: usize = 0;
    while i < N
        invariant
            i <= N,
            v@.len() == i,
            forall|j: int| 0 <= j < i ==> v@[j] == bytes[j],
        decreases N - i,
    {
        v.push(bytes[i]);
        i += 1;
    }
    assert(v@ =~= bytes@);
    v
}

/// A token type: its address and its decimal precision.
#[derive(Clone, Copy, Debug, PartialEq, Eq)]
pub struct Mint {
    pub address: Address,
    pub decimals: u8,
}

/// A custody account of one token type.
#[derive(Clone, Copy, Debug, PartialEq, Eq)]
pub struct TokenAccount {
    pub address: Address,
    /// Token type held.
    pub mint: Address,
    /// The only address that may move funds out.
    pub authority: Address,
    /// Balance in native units.
    pub amount: u64,
}

/// One movement of funds that the token service is to carry out.
#[derive(Clone, Debug, PartialEq, Eq)]
pub struct TransferOrder {
    pub from: Address,
    pub to: Address,
    pub authority: Address,
    /// Native units to move.
    pub amount: u64,
    /// Seeds with which the program signs for `authority`; empty where the
    /// caller's own signature authorizes the movement.
    pub signer_seeds: Vec<Vec<u8>>,
}

/// Accounts of `initialize`.
#[derive(Clone, Copy, Debug, PartialEq, Eq)]
pub struct Initialize {
    pub signer: Address,
    /// The shared reward vault, `None` until it is created.
    pub token_vault_account: Option<TokenAccount>,
    pub mint: Mint,
}

/// Accounts of `stake`.
#[derive(Clone, Copy, Debug, PartialEq, Eq)]
pub struct Stake {
    pub signer: Address,
    pub stake_info_account: StakeInfo,
    /// The caller's escrow.
    pub stake_account: TokenAccount,
    /// The caller's spending account.
    pub user_token_account: TokenAccount,
    pub mint: Mint,
}

impl Stake {
    /// The record and the escrow agree: a stake is live exactly when the
    /// escrow holds funds.
    pub open spec fn wf(&self) -> bool {
        self.stake_info_account.is_staked <==> self.stake_account.amount > 0
    }
}

/// Bump seeds of the derived addresses that `destake` signs for.
#[derive(Clone, Copy, Debug, PartialEq, Eq)]
pub struct DeStakeBumps {
    pub token_vault_account: u8,
    pub stake_info_account: u8,
}

/// Accounts of `destake`.
#[derive(Clone, Copy, Debug, PartialEq, Eq)]
pub struct DeStake {
    pub signer: Address,
    /// The shared reward vault.
    pub token_vault_account: TokenAccount,
    pub stake_info_account: StakeInfo,
    /// The caller's escrow.
    pub stake_account: TokenAccount,
    /// The caller's spending account.
    pub user_token_account: TokenAccount,
    pub mint: Mint,
    pub bumps: DeStakeBumps,
}

impl DeStake {
    /// The record and the escrow agree: a stake is live exactly when the
    /// escrow holds funds.
    pub open spec fn wf(&self) -> bool {
        self.stake_info_account.is_staked <==> self.stake_account.amount > 0
    }
}

} // verus!
