//! The token program as the vault sees it: the accounts it reads, and the
//! accounts that each of its calls is handed.

use vstd::prelude::*;
use crate::state::Pubkey;

verus! {

/// A token account, as it stands when an operation begins.
#[derive(Clone, Copy, Debug, PartialEq, Eq)]
pub struct TokenAccount {
    /// The account's own identity.
    pub key: Pubkey,
    /// The mint whose token the account holds.
    pub mint: Pubkey,
    /// Who may spend from the account.
    pub owner: Pubkey,
    /// How much the account holds.
    pub amount: u64,
}

/// A mint, as it stands when an operation begins.
#[derive(Clone, Copy, Debug, PartialEq, Eq)]
pub struct Mint {
    /// The mint's own identity.
    pub key: Pubkey,
    /// How much of the token is outstanding.
    pub supply: u64,
}

/// The accounts of a transfer.
#[derive(Clone, Copy, Debug, PartialEq, Eq)]
pub struct Transfer {
    pub from: Pubkey,
    pub to: Pubkey,
    pub authority: Pubkey,
}

/// The accounts of a mint of new tokens.
#[derive(Clone, Copy, Debug, PartialEq, Eq)]
pub struct MintTo {
    pub mint: Pubkey,
    pub to: Pubkey,
    pub authority: Pubkey,
}

/// The accounts of a burn: `to` is the account burnt from.
#[derive(Clone, Copy, Debug, PartialEq, Eq)]
pub struct Burn {
    pub mint: Pubkey,
    pub to: Pubkey,
    pub authority: Pubkey,
}

/// The accounts of the closing of a token account.
#[derive(Clone, Copy, Debug, PartialEq, Eq)]
pub struct CloseAccount {
    pub account: Pubkey,
    pub destination: Pubkey,
    pub authority: Pubkey,
}

} // verus!
