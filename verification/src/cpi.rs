//! The calls that the vault asks its host to make, as values.

use vstd::prelude::*;
use crate::authority::AuthoritySeeds;
use crate::state::Pubkey;
use crate::token::{Burn, CloseAccount, MintTo, Transfer};
use crate::venue::{
    Amount, Deposit, DepositCollateral, DepositCollateralBumpSeeds, InitializeCollateralAccount,
    InitializeDepositAccount, InitializeLoanAccount, InitializeObligation, RefreshReserve,
};

verus! {

/// A call to another program: the program, the accounts handed to it, and
/// the authority that signs, where the vault signs.
#[derive(Debug, PartialEq, Eq)]
pub struct CpiContext<T> {
    pub program: Pubkey,
    pub accounts: T,
    pub signer: Option<AuthoritySeeds>,
}

impl<T: Copy> Clone for CpiContext<T> {
    fn clone(&self) -> (r: Self)
        ensures
            r == *self,
    {
        *self
    }
}

impl<T: Copy> Copy for CpiContext<T> {

}

impl<T> CpiContext<T> {
    /// A call that the vault does not sign.
    pub fn new(program: Pubkey, accounts: T) -> (r: Self)
        ensures
            r == (CpiContext { program, accounts, signer: None }),
    {
        CpiContext { program, accounts, signer: None }
    }

    /// A call that the vault signs as `signer`.
    pub fn new_with_signer(program: Pubkey, accounts: T, signer: AuthoritySeeds) -> (r: Self)
        ensures
            r == (CpiContext { program, accounts, signer: Some(signer) }),
    {
        CpiContext { program, accounts, signer: Some(signer) }
    }
}

/// One call of an operation's pipeline, with all that it is made with.
#[derive(Clone, Copy, Debug, PartialEq, Eq)]
#[allow(inconsistent_fields)]
pub enum Call {
    /// Moves `lamports` of operating balance from one account to another.
    SystemTransfer { program: Pubkey, from: Pubkey, to: Pubkey, lamports: u64 },
    /// Opens the vault's obligation with the lending venue.
    InitObligation { ctx: CpiContext<InitializeObligation>, bump: u8 },
    /// Opens the account that receives the venue's deposit notes.
    InitDepositAccount { ctx: CpiContext<InitializeDepositAccount>, bump: u8 },
    /// Opens the account that holds the collateral posted to the obligation.
    InitCollateralAccount { ctx: CpiContext<InitializeCollateralAccount>, bump: u8 },
    /// Opens the account that holds what is borrowed against the obligation.
    InitLoanAccount { ctx: CpiContext<InitializeLoanAccount>, bump: u8 },
    /// Moves `amount` of a token between two of its accounts.
    Transfer { ctx: CpiContext<Transfer>, amount: u64 },
    /// Mints `amount` of a token.
    MintTo { ctx: CpiContext<MintTo>, amount: u64 },
    /// Brings the venue's reserve up to date.
    RefreshReserve { ctx: CpiContext<RefreshReserve> },
    /// Deposits `amount` into the venue, against deposit notes.
    Deposit { ctx: CpiContext<Deposit>, bump: u8, amount: Amount },
    /// Posts `amount` of deposit notes as collateral.
    DepositCollateral {
        ctx: CpiContext<DepositCollateral>,
        bump: DepositCollateralBumpSeeds,
        amount: Amount,
    },
    /// Burns `amount` of a token.
    Burn { ctx: CpiContext<Burn>, amount: u64 },
    /// Closes a token account and returns what it was opened with.
    CloseAccount { ctx: CpiContext<CloseAccount> },
}

} // verus!
