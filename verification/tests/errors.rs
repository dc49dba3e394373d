use vault::error::{ErrorCode, ErrorKind};

#[test]
fn messages_are_the_sentences_shown_to_the_user() {
    assert_eq!(ErrorCode::AccountNotMutable.message(), "Account not mutable");
    assert_eq!(ErrorCode::UnsupportedKind.message(), "Unsupported kind");
    assert_eq!(ErrorCode::ProductStrikeUninitialized.message(), "Product strike uninitialized");
    assert_eq!(ErrorCode::InvalidProductMarketKey.message(), "Invalid product market key");
    assert_eq!(ErrorCode::MarketNotLive.message(), "Market not live");
    assert_eq!(ErrorCode::ProductDirty.message(), "Product dirty");
    assert_eq!(
        ErrorCode::InvalidOptionKind.message(),
        "Invalid option kind, must be Call or Put"
    );
    assert_eq!(ErrorCode::VaultFuture.message(), "Epoch must start in the future");
    assert_eq!(ErrorCode::SeqTimes.message(), "Epoch times are non-sequential");
    assert_eq!(ErrorCode::StartEpochTime.message(), "Epoch has not started");
    assert_eq!(ErrorCode::EndDepositsTime.message(), "Deposits period has ended");
    assert_eq!(ErrorCode::StartAuctionTime.message(), "Auction has not started");
    assert_eq!(ErrorCode::EndAuctionTime.message(), "Auction period has ended");
    assert_eq!(ErrorCode::StartSettlementTime.message(), "Settlement has not started");
    assert_eq!(ErrorCode::EndEpochTime.message(), "Epoch has ended");
    assert_eq!(ErrorCode::EpochNotOver.message(), "Epoch has not finished yet");
    assert_eq!(ErrorCode::InsufficientUsdcBalance.message(), "Insufficient USDC balance");
    assert_eq!(
        ErrorCode::InsufficientRedeemableBalance.message(),
        "Insufficient redeemable token balance"
    );
    assert_eq!(
        ErrorCode::UsdcNotEqRedeem.message(),
        "USDC total and redeemable total don't match"
    );
    assert_eq!(ErrorCode::InvalidNonce.message(), "Given nonce is invalid");
    assert_eq!(ErrorCode::InvalidUsdcMint.message(), "Invalid USDC mint");
    assert_eq!(
        ErrorCode::InvalidUserUsdcAccountOwner.message(),
        "Invalid user USDC account owner"
    );
    assert_eq!(ErrorCode::InvalidVaultAdmin.message(), "Invalid vault admin");
    assert_eq!(ErrorCode::Overflow.message(), "Share amount out of range");
    assert_eq!(ErrorCode::DivisionByZero.message(), "Share price undefined");
}

#[test]
fn every_code_has_its_kind() {
    assert_eq!(ErrorCode::VaultFuture.kind(), ErrorKind::InvalidSchedule);
    assert_eq!(ErrorCode::SeqTimes.kind(), ErrorKind::InvalidSchedule);
    assert_eq!(ErrorCode::StartEpochTime.kind(), ErrorKind::PhaseViolation);
    assert_eq!(ErrorCode::EndDepositsTime.kind(), ErrorKind::PhaseViolation);
    assert_eq!(ErrorCode::StartAuctionTime.kind(), ErrorKind::PhaseViolation);
    assert_eq!(ErrorCode::EndAuctionTime.kind(), ErrorKind::PhaseViolation);
    assert_eq!(ErrorCode::StartSettlementTime.kind(), ErrorKind::PhaseViolation);
    assert_eq!(ErrorCode::EndEpochTime.kind(), ErrorKind::PhaseViolation);
    assert_eq!(ErrorCode::EpochNotOver.kind(), ErrorKind::PhaseViolation);
    assert_eq!(ErrorCode::InsufficientUsdcBalance.kind(), ErrorKind::InsufficientBalance);
    assert_eq!(ErrorCode::InsufficientRedeemableBalance.kind(), ErrorKind::InsufficientBalance);
    assert_eq!(ErrorCode::Overflow.kind(), ErrorKind::Overflow);
    assert_eq!(ErrorCode::DivisionByZero.kind(), ErrorKind::DivisionByZero);
    assert_eq!(ErrorCode::InvalidVaultAdmin.kind(), ErrorKind::UnauthorizedAdmin);
    assert_eq!(ErrorCode::InvalidUsdcMint.kind(), ErrorKind::UnauthorizedOwner);
    assert_eq!(ErrorCode::InvalidUserUsdcAccountOwner.kind(), ErrorKind::UnauthorizedOwner);
    assert_eq!(ErrorCode::AccountNotMutable.kind(), ErrorKind::Other);
    assert_eq!(ErrorCode::UnsupportedKind.kind(), ErrorKind::Other);
    assert_eq!(ErrorCode::ProductStrikeUninitialized.kind(), ErrorKind::Other);
    assert_eq!(ErrorCode::InvalidProductMarketKey.kind(), ErrorKind::Other);
    assert_eq!(ErrorCode::MarketNotLive.kind(), ErrorKind::Other);
    assert_eq!(ErrorCode::ProductDirty.kind(), ErrorKind::Other);
    assert_eq!(ErrorCode::InvalidOptionKind.kind(), ErrorKind::Other);
    assert_eq!(ErrorCode::UsdcNotEqRedeem.kind(), ErrorKind::Other);
    assert_eq!(ErrorCode::InvalidNonce.kind(), ErrorKind::Other);
}
