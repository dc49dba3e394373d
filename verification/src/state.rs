//! The vault's durable record and the values it is made of.

use vstd::prelude::*;

verus! {

/// The identity of an account: thirty-two bytes that the vault compares and
/// hands on, and never looks into.
#[derive(Clone, Copy, Debug)]
pub struct Pubkey {
    pub bytes: [u8; 32],
}

impl PartialEq for Pubkey {
    fn eq(&self, other: &Self) -> (r: bool) {
        let mut i: usize = 0;
        while i < 32
            invariant
                i <= 32,
                forall|j: int| 0 <= j < i ==> self.bytes[j] == other.bytes[j],
            decreases 32 - i,
        {
            if self.bytes[i] != other.bytes[i] {
                return false;
            }
            i = i + 1;
        }
        proof {
            assert(self.bytes =~= other.bytes);
        }
        true
    }
}

impl vstd::std_specs::cmp::PartialEqSpecImpl for Pubkey {
    open spec fn obeys_eq_spec() -> bool {
        true
    }

    open spec fn eq_spec(&self, other: &Self) -> bool {
        *self == *other
    }
}

impl Eq for Pubkey {

}

impl Default for Pubkey {
    fn default() -> (r: Self)
        ensures
            r.bytes@ == Seq::new(32, |i: int| 0u8),
    {
        Pubkey { bytes: [0u8; 32] }
    }
}

/// The six instants of an epoch, in seconds, and the spacing between
/// successive epochs.
#[derive(Clone, Copy, Debug, PartialEq, Eq, Structural)]
pub struct EpochTimes {
    pub start_epoch: i64,
    pub end_deposits: i64,
    pub start_auction: i64,
    pub end_auction: i64,
    pub start_settlement: i64,
    pub end_epoch: i64,
    pub epoch_cadence: u64,
}

impl EpochTimes {
    /// The schedule with every field zero.
    pub open spec fn zero() -> Self {
        EpochTimes {
            start_epoch: 0,
            end_deposits: 0,
            start_auction: 0,
            end_auction: 0,
            start_settlement: 0,
            end_epoch: 0,
            epoch_cadence: 0,
        }
    }
}

impl Default for EpochTimes {
    fn default() -> (r: Self)
        ensures
            r == Self::zero(),
    {
        EpochTimes {
            start_epoch: 0,
            end_deposits: 0,
            start_auction: 0,
            end_auction: 0,
            start_settlement: 0,
            end_epoch: 0,
            epoch_cadence: 0,
        }
    }
}

/// The proof values of the accounts that are derived from the vault's name.
/// They are computed once, when the vault is made, and stored as they came.
#[derive(Clone, Copy, Debug, PartialEq, Eq, Structural)]
pub struct VaultBumps {
    pub vault: u8,
    pub vault_authority: u8,
    pub redeemable_mint: u8,
    pub vault_usdc: u8,
    pub mint_authority: u8,
    pub obligation: u8,
    pub deposit_account: u8,
    pub collateral_account: u8,
    pub loan_account: u8,
}

impl VaultBumps {
    /// The proof values with every field zero.
    pub open spec fn zero() -> Self {
        VaultBumps {
            vault: 0,
            vault_authority: 0,
            redeemable_mint: 0,
            vault_usdc: 0,
            mint_authority: 0,
            obligation: 0,
            deposit_account: 0,
            collateral_account: 0,
            loan_account: 0,
        }
    }
}

impl Default for VaultBumps {
    fn default() -> (r: Self)
        ensures
            r == Self::zero(),
    {
        VaultBumps {
            vault: 0,
            vault_authority: 0,
            redeemable_mint: 0,
            vault_usdc: 0,
            mint_authority: 0,
            obligation: 0,
            deposit_account: 0,
            collateral_account: 0,
            loan_account: 0,
        }
    }
}

/// The proof values that a deposit brings for the accounts it touches.
#[derive(Clone, Copy, Debug, PartialEq, Eq, Structural)]
pub struct _DepositVaultBumps {
    pub loan_account: u8,
    pub deposit_account: u8,
    pub user_redeemable_account: u8,
    pub collateral_account: u8,
    pub obligation: u8,
}

impl Default for _DepositVaultBumps {
    fn default() -> (r: Self)
        ensures
            r == (_DepositVaultBumps {
                loan_account: 0,
                deposit_account: 0,
                user_redeemable_account: 0,
                collateral_account: 0,
                obligation: 0,
            }),
    {
        _DepositVaultBumps {
            loan_account: 0,
            deposit_account: 0,
            user_redeemable_account: 0,
            collateral_account: 0,
            obligation: 0,
        }
    }
}

/// The length of a vault's stored name, in bytes.
pub const VAULT_NAME_LEN: usize = 20;

/// The vault's durable record: one for each pool.
#[derive(Clone, Copy, Debug, PartialEq, Eq)]
pub struct Vault {
    /// The name, filled up with spaces to its fixed length.
    pub vault_name: [u8; 20],
    pub bumps: VaultBumps,
    pub vault_admin: Pubkey,
    pub usdc_mint: Pubkey,
    pub redeemable_mint: Pubkey,
    pub vault_usdc: Pubkey,
    pub epoch_times: EpochTimes,
}

impl Default for Vault {
    fn default() -> (r: Self)
        ensures
            r.vault_name@ == Seq::new(20, |i: int| 0u8),
            r.bumps == VaultBumps::zero(),
            r.vault_admin.bytes@ == Seq::new(32, |i: int| 0u8),
            r.usdc_mint.bytes@ == Seq::new(32, |i: int| 0u8),
            r.redeemable_mint.bytes@ == Seq::new(32, |i: int| 0u8),
            r.vault_usdc.bytes@ == Seq::new(32, |i: int| 0u8),
            r.epoch_times == EpochTimes::zero(),
    {
        Vault {
            vault_name: [0u8; 20],
            bumps: VaultBumps::default(),
            vault_admin: Pubkey::default(),
            usdc_mint: Pubkey::default(),
            redeemable_mint: Pubkey::default(),
            vault_usdc: Pubkey::default(),
            epoch_times: EpochTimes::default(),
        }
    }
}

} // verus!
