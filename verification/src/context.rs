//! The accounts that each operation is handed, as they stand when the
//! operation begins, and the token calls that are made from them.

use vstd::prelude::*;
use crate::authority::AuthoritySeeds;
use crate::cpi::CpiContext;
use crate::error::ErrorCode;
use crate::state::{Pubkey, Vault};
use crate::token::{Burn, CloseAccount, Mint, MintTo, TokenAccount, Transfer};

verus! {

/// The accounts of the making of a vault.
#[derive(Clone, Copy, Debug, PartialEq, Eq)]
pub struct InitializeVault {
    /// Who makes the vault, pays for it, and becomes its admin.
    pub vault_admin: Pubkey,
    /// The record that is written.
    pub vault: Vault,
    /// The vault's derived authority, which holds the operating balance.
    pub vault_authority: Pubkey,
    pub redeemable_mint: Mint,
    pub vault_usdc: TokenAccount,
    pub usdc_mint: Mint,
    pub market: Pubkey,
    pub obligation: Pubkey,
    pub deposit_account: Pubkey,
    pub collateral_account: Pubkey,
    pub loan_account: Pubkey,
    pub deposit_note_mint: Pubkey,
    pub loan_note_mint: Pubkey,
    pub reserve: Pubkey,
    pub market_authority: Pubkey,
    pub system_program: Pubkey,
    pub token_program: Pubkey,
    pub jet_program: Pubkey,
    pub rent: Pubkey,
}

/// The accounts of the opening of a depositor's claim-token account.
#[derive(Clone, Copy, Debug, PartialEq, Eq)]
pub struct InitUserRedeemableTokenAccount {
    pub user_authority: Pubkey,
    pub user_redeemable: TokenAccount,
    pub vault: Vault,
    pub vault_authority: Pubkey,
    pub redeemable_mint: Mint,
    pub system_program: Pubkey,
    pub token_program: Pubkey,
    pub rent: Pubkey,
}

/// The accounts of a deposit.
#[derive(Clone, Copy, Debug, PartialEq, Eq)]
pub struct DepositVault {
    /// The depositor.
    pub user_authority: Pubkey,
    /// The depositor's account of the asset.
    pub user_usdc: TokenAccount,
    /// The depositor's account of the claim token.
    pub user_redeemable: TokenAccount,
    pub vault: Vault,
    pub vault_authority: Pubkey,
    pub usdc_mint: Mint,
    /// The claim token's mint; its supply is the claim supply.
    pub redeemable_mint: Mint,
    /// The pool's custody account; its amount is the pool balance.
    pub vault_usdc: TokenAccount,
    pub market: Pubkey,
    pub fee_note_vault: Pubkey,
    pub pyth_price_oracle: Pubkey,
    pub reserve: Pubkey,
    pub market_authority: Pubkey,
    pub jet_vault: Pubkey,
    pub deposit_account: Pubkey,
    pub deposit_note_mint: Pubkey,
    pub collateral_account: Pubkey,
    pub loan_note_mint: Pubkey,
    pub loan_account: Pubkey,
    pub obligation: Pubkey,
    pub token_program: Pubkey,
    pub jet_program: Pubkey,
}

/// The accounts of a withdrawal.
#[derive(Clone, Copy, Debug, PartialEq, Eq)]
pub struct WithdrawVault {
    /// The depositor.
    pub user_authority: Pubkey,
    /// The depositor's account of the asset.
    pub user_usdc: TokenAccount,
    /// The depositor's account of the claim token.
    pub user_redeemable: TokenAccount,
    pub vault: Vault,
    pub vault_authority: Pubkey,
    pub usdc_mint: Mint,
    /// The claim token's mint; its supply is the claim supply.
    pub redeemable_mint: Mint,
    /// The pool's custody account; its amount is the pool balance.
    pub vault_usdc: TokenAccount,
    pub vault_usdc_collateral: TokenAccount,
    pub vault_usdc_liabilities: TokenAccount,
    pub token_program: Pubkey,
}

/// The accounts of the replacing of a vault's schedule.
#[derive(Clone, Copy, Debug, PartialEq, Eq)]
pub struct RolloverVault {
    /// Who asks for the new schedule.
    pub vault_admin: Pubkey,
    pub vault: Vault,
}

/// What is wrong with the accounts of the asset that an operation was
/// handed, if anything: the depositor's account must be the depositor's own,
/// and it and the vault must name the mint that was handed in.
pub open spec fn asset_accounts_error(
    user_authority: Pubkey,
    user_usdc: TokenAccount,
    usdc_mint: Mint,
    vault: Vault,
) -> Option<ErrorCode> {
    if user_usdc.owner != user_authority {
        Some(ErrorCode::InvalidUserUsdcAccountOwner)
    } else if user_usdc.mint != usdc_mint.key || vault.usdc_mint != usdc_mint.key {
        Some(ErrorCode::InvalidUsdcMint)
    } else {
        None
    }
}

/// Tests the accounts of the asset that an operation was handed.
fn check_asset_accounts(
    user_authority: &Pubkey,
    user_usdc: &TokenAccount,
    usdc_mint: &Mint,
    vault: &Vault,
) -> (r: Result<(), ErrorCode>)
    ensures
        r == match asset_accounts_error(*user_authority, *user_usdc, *usdc_mint, *vault) {
            Some(e) => Err::<(), ErrorCode>(e),
            None => Ok::<(), ErrorCode>(()),
        },
{
    if user_usdc.owner != *user_authority {
        return Err(ErrorCode::InvalidUserUsdcAccountOwner);
    }
    if user_usdc.mint != usdc_mint.key {
        return Err(ErrorCode::InvalidUsdcMint);
    }
    if vault.usdc_mint != usdc_mint.key {
        return Err(ErrorCode::InvalidUsdcMint);
    }
    Ok(())
}

impl DepositVault {
    /// What is wrong with the accounts, if anything.
    pub open spec fn accounts_error(self) -> Option<ErrorCode> {
        asset_accounts_error(self.user_authority, self.user_usdc, self.usdc_mint, self.vault)
    }

    /// Refuses accounts that do not belong together: a depositor's asset
    /// account owned by someone else with `InvalidUserUsdcAccountOwner`, an
    /// asset account or a vault of another mint with `InvalidUsdcMint`.
    pub fn check_accounts(&self) -> (r: Result<(), ErrorCode>)
        ensures
            r == match self.accounts_error() {
                Some(e) => Err::<(), ErrorCode>(e),
                None => Ok::<(), ErrorCode>(()),
            },
    {
        check_asset_accounts(&self.user_authority, &self.user_usdc, &self.usdc_mint, &self.vault)
    }

    /// The transfer of the asset from the depositor to the pool, signed by
    /// the depositor.
    pub open spec fn spec_into_transfer_context(&self) -> CpiContext<Transfer> {
        CpiContext {
            program: self.token_program,
            accounts: Transfer {
                from: self.user_usdc.key,
                to: self.vault_usdc.key,
                authority: self.user_authority,
            },
            signer: None,
        }
    }

    /// The transfer of the asset from the depositor to the pool, signed by
    /// the depositor.
    #[verifier::when_used_as_spec(spec_into_transfer_context)]
    pub fn into_transfer_context(&self) -> (r: CpiContext<Transfer>)
        ensures
            r == self.spec_into_transfer_context(),
    {
        let cpi_accounts = Transfer {
            from: self.user_usdc.key,
            to: self.vault_usdc.key,
            authority: self.user_authority,
        };
        let cpi_program = self.token_program;
        CpiContext::new(cpi_program, cpi_accounts)
    }

    /// The minting of claim tokens to the depositor, signed by `signer` as
    /// the vault's authority.
    pub open spec fn spec_into_mint_to_context(&self, signer: AuthoritySeeds) -> CpiContext<
        MintTo,
    > {
        CpiContext {
            program: self.token_program,
            accounts: MintTo {
                mint: self.redeemable_mint.key,
                to: self.user_redeemable.key,
                authority: self.vault_authority,
            },
            signer: Some(signer),
        }
    }

    /// The minting of claim tokens to the depositor, signed by `signer` as
    /// the vault's authority.
    #[verifier::when_used_as_spec(spec_into_mint_to_context)]
    pub fn into_mint_to_context(&self, signer: AuthoritySeeds) -> (r: CpiContext<MintTo>)
        ensures
            r == self.spec_into_mint_to_context(signer),
    {
        let cpi_accounts = MintTo {
            mint: self.redeemable_mint.key,
            to: self.user_redeemable.key,
            authority: self.vault_authority,
        };
        let cpi_program = self.token_program;
        CpiContext::new_with_signer(cpi_program, cpi_accounts, signer)
    }
}

impl WithdrawVault {
    /// What is wrong with the accounts, if anything.
    pub open spec fn accounts_error(self) -> Option<ErrorCode> {
        asset_accounts_error(self.user_authority, self.user_usdc, self.usdc_mint, self.vault)
    }

    /// Refuses accounts that do not belong together: a depositor's asset
    /// account owned by someone else with `InvalidUserUsdcAccountOwner`, an
    /// asset account or a vault of another mint with `InvalidUsdcMint`.
    pub fn check_accounts(&self) -> (r: Result<(), ErrorCode>)
        ensures
            r == match self.accounts_error() {
                Some(e) => Err::<(), ErrorCode>(e),
                None => Ok::<(), ErrorCode>(()),
            },
    {
        check_asset_accounts(&self.user_authority, &self.user_usdc, &self.usdc_mint, &self.vault)
    }

    /// The burning of the depositor's claim tokens, on the depositor's
    /// authority.
    pub open spec fn spec_into_burn_context(&self, signer: AuthoritySeeds) -> CpiContext<Burn> {
        CpiContext {
            program: self.token_program,
            accounts: Burn {
                mint: self.redeemable_mint.key,
                to: self.user_redeemable.key,
                authority: self.user_authority,
            },
            signer: Some(signer),
        }
    }

    /// The burning of the depositor's claim tokens, on the depositor's
    /// authority.
    #[verifier::when_used_as_spec(spec_into_burn_context)]
    pub fn into_burn_context(&self, signer: AuthoritySeeds) -> (r: CpiContext<Burn>)
        ensures
            r == self.spec_into_burn_context(signer),
    {
        let cpi_accounts = Burn {
            mint: self.redeemable_mint.key,
            to: self.user_redeemable.key,
            authority: self.user_authority,
        };
        let cpi_program = self.token_program;
        CpiContext::new_with_signer(cpi_program, cpi_accounts, signer)
    }

    /// The transfer of the asset from the pool to the depositor, signed by
    /// `signer` as the vault's authority.
    pub open spec fn spec_into_transfer_context(&self, signer: AuthoritySeeds) -> CpiContext<
        Transfer,
    > {
        CpiContext {
            program: self.token_program,
            accounts: Transfer {
                from: self.vault_usdc.key,
                to: self.user_usdc.key,
                authority: self.vault_authority,
            },
            signer: Some(signer),
        }
    }

    /// The transfer of the asset from the pool to the depositor, signed by
    /// `signer` as the vault's authority.
    #[verifier::when_used_as_spec(spec_into_transfer_context)]
    pub fn into_transfer_context(&self, signer: AuthoritySeeds) -> (r: CpiContext<Transfer>)
        ensures
            r == self.spec_into_transfer_context(signer),
    {
        let cpi_accounts = Transfer {
            from: self.vault_usdc.key,
            to: self.user_usdc.key,
            authority: self.vault_authority,
        };
        let cpi_program = self.token_program;
        CpiContext::new_with_signer(cpi_program, cpi_accounts, signer)
    }

    /// The closing of the depositor's claim-token account, which returns
    /// what it was opened with to the depositor, signed by `signer` as the
    /// vault's authority.
    pub open spec fn spec_into_close_account_context(
        &self,
        signer: AuthoritySeeds,
    ) -> CpiContext<CloseAccount> {
        CpiContext {
            program: self.token_program,
            accounts: CloseAccount {
                account: self.user_redeemable.key,
                destination: self.user_authority,
                authority: self.vault_authority,
            },
            signer: Some(signer),
        }
    }

    /// The closing of the depositor's claim-token account, which returns
    /// what it was opened with to the depositor, signed by `signer` as the
    /// vault's authority.
    #[verifier::when_used_as_spec(spec_into_close_account_context)]
    pub fn into_close_account_context(&self, signer: AuthoritySeeds) -> (r: CpiContext<
        CloseAccount,
    >)
        ensures
            r == self.spec_into_close_account_context(signer),
    {
        let cpi_accounts = CloseAccount {
            account: self.user_redeemable.key,
            destination: self.user_authority,
            authority: self.vault_authority,
        };
        let cpi_program = self.token_program;
        CpiContext::new_with_signer(cpi_program, cpi_accounts, signer)
    }
}

impl RolloverVault {
    /// Refuses a caller who is not the vault's admin, with
    /// `InvalidVaultAdmin`.
    pub fn check_accounts(&self) -> (r: Result<(), ErrorCode>)
        ensures
            self.vault.vault_admin == self.vault_admin ==> r == Ok::<(), ErrorCode>(()),
            self.vault.vault_admin != self.vault_admin ==> r == Err::<(), ErrorCode>(
                ErrorCode::InvalidVaultAdmin,
            ),
    {
        if self.vault.vault_admin != self.vault_admin {
            return Err(ErrorCode::InvalidVaultAdmin);
        }
        Ok(())
    }
}

} // verus!
