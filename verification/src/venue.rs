//! The lending venue as the vault sees it: the accounts that each of its
//! calls is handed, and the amounts it is told.
//!
//! The accounts are references that the vault passes on as they came.

use vstd::prelude::*;
use crate::state::Pubkey;

verus! {

/// What an amount told to the venue is counted in.
#[derive(Clone, Copy, Debug, PartialEq, Eq, Structural)]
pub enum AmountUnits {
    Tokens,
    DepositNotes,
    LoanNotes,
}

/// An amount told to the venue.
#[derive(Clone, Copy, Debug, PartialEq, Eq, Structural)]
pub struct Amount {
    pub units: AmountUnits,
    pub value: u64,
}

impl Amount {
    /// `value`, counted in tokens of the asset.
    pub fn from_tokens(value: u64) -> (r: Self)
        ensures
            r == (Amount { units: AmountUnits::Tokens, value }),
    {
        Amount { units: AmountUnits::Tokens, value }
    }
}

/// The proof values that go with the posting of collateral.
#[derive(Clone, Copy, Debug, PartialEq, Eq, Structural)]
pub struct DepositCollateralBumpSeeds {
    pub collateral_account: u8,
    pub deposit_account: u8,
}

/// The accounts of the opening of an obligation.
#[derive(Clone, Copy, Debug, PartialEq, Eq)]
pub struct InitializeObligation {
    pub market: Pubkey,
    pub market_authority: Pubkey,
    pub borrower: Pubkey,
    pub obligation: Pubkey,
    pub token_program: Pubkey,
    pub system_program: Pubkey,
}

/// The accounts of the opening of a deposit-note account.
#[derive(Clone, Copy, Debug, PartialEq, Eq)]
pub struct InitializeDepositAccount {
    pub market: Pubkey,
    pub market_authority: Pubkey,
    pub reserve: Pubkey,
    pub deposit_note_mint: Pubkey,
    pub depositor: Pubkey,
    pub deposit_account: Pubkey,
    pub token_program: Pubkey,
    pub system_program: Pubkey,
    pub rent: Pubkey,
}

/// The accounts of the opening of a collateral account.
#[derive(Clone, Copy, Debug, PartialEq, Eq)]
pub struct InitializeCollateralAccount {
    pub market: Pubkey,
    pub market_authority: Pubkey,
    pub obligation: Pubkey,
    pub reserve: Pubkey,
    pub deposit_note_mint: Pubkey,
    pub owner: Pubkey,
    pub collateral_account: Pubkey,
    pub token_program: Pubkey,
    pub system_program: Pubkey,
    pub rent: Pubkey,
}

/// The accounts of the opening of a loan account.
#[derive(Clone, Copy, Debug, PartialEq, Eq)]
pub struct InitializeLoanAccount {
    pub market: Pubkey,
    pub market_authority: Pubkey,
    pub obligation: Pubkey,
    pub reserve: Pubkey,
    pub loan_note_mint: Pubkey,
    pub owner: Pubkey,
    pub loan_account: Pubkey,
    pub token_program: Pubkey,
    pub system_program: Pubkey,
    pub rent: Pubkey,
}

/// The accounts of the refreshing of a reserve.
#[derive(Clone, Copy, Debug, PartialEq, Eq)]
pub struct RefreshReserve {
    pub market: Pubkey,
    pub market_authority: Pubkey,
    pub reserve: Pubkey,
    pub fee_note_vault: Pubkey,
    pub deposit_note_mint: Pubkey,
    pub pyth_oracle_price: Pubkey,
    pub token_program: Pubkey,
}

/// The accounts of a deposit into the venue.
#[derive(Clone, Copy, Debug, PartialEq, Eq)]
pub struct Deposit {
    pub market: Pubkey,
    pub market_authority: Pubkey,
    pub reserve: Pubkey,
    pub vault: Pubkey,
    pub deposit_note_mint: Pubkey,
    pub depositor: Pubkey,
    pub deposit_account: Pubkey,
    pub deposit_source: Pubkey,
    pub token_program: Pubkey,
}

/// The accounts of the posting of deposit notes as collateral.
#[derive(Clone, Copy, Debug, PartialEq, Eq)]
pub struct DepositCollateral {
    pub market: Pubkey,
    pub market_authority: Pubkey,
    pub reserve: Pubkey,
    pub obligation: Pubkey,
    pub owner: Pubkey,
    pub deposit_account: Pubkey,
    pub collateral_account: Pubkey,
    pub token_program: Pubkey,
}

} // verus!
