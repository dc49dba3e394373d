//! What can go wrong, by code and by kind.

use vstd::prelude::*;

verus! {

/// The reason an operation was refused.
#[derive(Clone, Copy, Debug, PartialEq, Eq, Structural)]
pub enum ErrorCode {
    AccountNotMutable,
    UnsupportedKind,
    ProductStrikeUninitialized,
    InvalidProductMarketKey,
    MarketNotLive,
    ProductDirty,
    InvalidOptionKind,
    /// The epoch does not start after the current instant.
    VaultFuture,
    /// The six instants are not strictly increasing, or the cadence is
    /// shorter than the epoch.
    SeqTimes,
    /// The current instant is not after the start of the epoch.
    StartEpochTime,
    /// The current instant is after the end of deposits.
    EndDepositsTime,
    StartAuctionTime,
    EndAuctionTime,
    StartSettlementTime,
    EndEpochTime,
    /// The epoch that is to be replaced has not ended.
    EpochNotOver,
    /// The depositor holds less of the asset than is to be deposited.
    InsufficientUsdcBalance,
    /// The depositor holds fewer claim tokens than are to be withdrawn.
    InsufficientRedeemableBalance,
    UsdcNotEqRedeem,
    InvalidNonce,
    /// An account of the asset belongs to another mint than the vault's.
    InvalidUsdcMint,
    /// The depositor's asset account is owned by someone else.
    InvalidUserUsdcAccountOwner,
    /// The caller is not the vault's admin.
    InvalidVaultAdmin,
    /// A share amount does not fit in sixty-four bits.
    Overflow,
    /// A share price was asked for while its denominator is zero.
    DivisionByZero,
}

/// The families that the codes fall into.
#[derive(Clone, Copy, Debug, PartialEq, Eq, Structural)]
pub enum ErrorKind {
    /// A schedule was refused when it was handed in.
    InvalidSchedule,
    /// An operation came outside its window of the epoch.
    PhaseViolation,
    /// An account holds less than the operation needs.
    InsufficientBalance,
    /// The share ledger's result cannot be represented.
    Overflow,
    /// The share ledger would divide by zero.
    DivisionByZero,
    /// An admin action by someone else than the admin.
    UnauthorizedAdmin,
    /// An account that does not belong where it was handed in.
    UnauthorizedOwner,
    /// Any other failure.
    Other,
}

impl ErrorCode {
    /// The family of this code.
    pub open spec fn spec_kind(self) -> ErrorKind {
        match self {
            ErrorCode::VaultFuture | ErrorCode::SeqTimes => ErrorKind::InvalidSchedule,
            ErrorCode::StartEpochTime
            | ErrorCode::EndDepositsTime
            | ErrorCode::StartAuctionTime
            | ErrorCode::EndAuctionTime
            | ErrorCode::StartSettlementTime
            | ErrorCode::EndEpochTime
            | ErrorCode::EpochNotOver => ErrorKind::PhaseViolation,
            ErrorCode::InsufficientUsdcBalance
            | ErrorCode::InsufficientRedeemableBalance => ErrorKind::InsufficientBalance,
            ErrorCode::Overflow => ErrorKind::Overflow,
            ErrorCode::DivisionByZero => ErrorKind::DivisionByZero,
            ErrorCode::InvalidVaultAdmin => ErrorKind::UnauthorizedAdmin,
            ErrorCode::InvalidUsdcMint
            | ErrorCode::InvalidUserUsdcAccountOwner => ErrorKind::UnauthorizedOwner,
            _ => ErrorKind::Other,
        }
    }

    /// The family of this code.
    #[verifier::when_used_as_spec(spec_kind)]
    pub fn kind(self) -> (r: ErrorKind)
        ensures
            r == self.spec_kind(),
    {
        match self {
            ErrorCode::VaultFuture | ErrorCode::SeqTimes => ErrorKind::InvalidSchedule,
            ErrorCode::StartEpochTime
            | ErrorCode::EndDepositsTime
            | ErrorCode::StartAuctionTime
            | ErrorCode::EndAuctionTime
            | ErrorCode::StartSettlementTime
            | ErrorCode::EndEpochTime
            | ErrorCode::EpochNotOver => ErrorKind::PhaseViolation,
            ErrorCode::InsufficientUsdcBalance
            | ErrorCode::InsufficientRedeemableBalance => ErrorKind::InsufficientBalance,
            ErrorCode::Overflow => ErrorKind::Overflow,
            ErrorCode::DivisionByZero => ErrorKind::DivisionByZero,
            ErrorCode::InvalidVaultAdmin => ErrorKind::UnauthorizedAdmin,
            ErrorCode::InvalidUsdcMint
            | ErrorCode::InvalidUserUsdcAccountOwner => ErrorKind::UnauthorizedOwner,
            _ => ErrorKind::Other,
        }
    }

    /// The sentence shown to the user.
    pub open spec fn spec_message(self) -> Seq<char> {
        match self {
            ErrorCode::AccountNotMutable => "Account not mutable"@,
            ErrorCode::UnsupportedKind => "Unsupported kind"@,
            ErrorCode::ProductStrikeUninitialized => "Product strike uninitialized"@,
            ErrorCode::InvalidProductMarketKey => "Invalid product market key"@,
            ErrorCode::MarketNotLive => "Market not live"@,
            ErrorCode::ProductDirty => "Product dirty"@,
            ErrorCode::InvalidOptionKind => "Invalid option kind, must be Call or Put"@,
            ErrorCode::VaultFuture => "Epoch must start in the future"@,
            ErrorCode::SeqTimes => "Epoch times are non-sequential"@,
            ErrorCode::StartEpochTime => "Epoch has not started"@,
            ErrorCode::EndDepositsTime => "Deposits period has ended"@,
            ErrorCode::StartAuctionTime => "Auction has not started"@,
            ErrorCode::EndAuctionTime => "Auction period has ended"@,
            ErrorCode::StartSettlementTime => "Settlement has not started"@,
            ErrorCode::EndEpochTime => "Epoch has ended"@,
            ErrorCode::EpochNotOver => "Epoch has not finished yet"@,
            ErrorCode::InsufficientUsdcBalance => "Insufficient USDC balance"@,
            ErrorCode::InsufficientRedeemableBalance => "Insufficient redeemable token balance"@,
            ErrorCode::UsdcNotEqRedeem => "USDC total and redeemable total don't match"@,
            ErrorCode::InvalidNonce => "Given nonce is invalid"@,
            ErrorCode::InvalidUsdcMint => "Invalid USDC mint"@,
            ErrorCode::InvalidUserUsdcAccountOwner => "Invalid user USDC account owner"@,
            ErrorCode::InvalidVaultAdmin => "Invalid vault admin"@,
            ErrorCode::Overflow => "Share amount out of range"@,
            ErrorCode::DivisionByZero => "Share price undefined"@,
        }
    }

    /// The sentence shown to the user.
    pub fn message(self) -> (r: &'static str)
        ensures
            r@ == self.spec_message(),
    {
        match self {
            ErrorCode::AccountNotMutable => "Account not mutable",
            ErrorCode::UnsupportedKind => "Unsupported kind",
            ErrorCode::ProductStrikeUninitialized => "Product strike uninitialized",
            ErrorCode::InvalidProductMarketKey => "Invalid product market key",
            ErrorCode::MarketNotLive => "Market not live",
            ErrorCode::ProductDirty => "Product dirty",
            ErrorCode::InvalidOptionKind => "Invalid option kind, must be Call or Put",
            ErrorCode::VaultFuture => "Epoch must start in the future",
            ErrorCode::SeqTimes => "Epoch times are non-sequential",
            ErrorCode::StartEpochTime => "Epoch has not started",
            ErrorCode::EndDepositsTime => "Deposits period has ended",
            ErrorCode::StartAuctionTime => "Auction has not started",
            ErrorCode::EndAuctionTime => "Auction period has ended",
            ErrorCode::StartSettlementTime => "Settlement has not started",
            ErrorCode::EndEpochTime => "Epoch has ended",
            ErrorCode::EpochNotOver => "Epoch has not finished yet",
            ErrorCode::InsufficientUsdcBalance => "Insufficient USDC balance",
            ErrorCode::InsufficientRedeemableBalance => "Insufficient redeemable token balance",
            ErrorCode::UsdcNotEqRedeem => "USDC total and redeemable total don't match",
            ErrorCode::InvalidNonce => "Given nonce is invalid",
            ErrorCode::InvalidUsdcMint => "Invalid USDC mint",
            ErrorCode::InvalidUserUsdcAccountOwner => "Invalid user USDC account owner",
            ErrorCode::InvalidVaultAdmin => "Invalid vault admin",
            ErrorCode::Overflow => "Share amount out of range",
            ErrorCode::DivisionByZero => "Share price undefined",
        }
    }
}

} // verus!
