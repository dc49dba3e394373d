//! The epoch phase gate: which schedules are accepted, and which operations
//! are legal at which instant.
//!
//! Every function takes the current instant as an argument; none reads a
//! clock.

use vstd::prelude::*;
use crate::error::ErrorCode;
use crate::state::{EpochTimes, Vault};

verus! {

/// The windows of an epoch, in the order in which time passes through them.
#[derive(Clone, Copy, Debug, PartialEq, Eq, Structural)]
pub enum EpochPhase {
    /// Up to and including the start of the epoch.
    PreStart,
    /// After the start, up to and including the end of deposits.
    DepositWindow,
    /// After the end of deposits, up to and including the end of the auction.
    AuctionWindow,
    /// After the end of the auction, up to and including the end of the
    /// epoch.
    SettlementWindow,
    /// After the end of the epoch.
    Closed,
}

impl EpochPhase {
    /// The place of the phase in the order of an epoch.
    pub open spec fn rank(self) -> nat {
        match self {
            EpochPhase::PreStart => 0,
            EpochPhase::DepositWindow => 1,
            EpochPhase::AuctionWindow => 2,
            EpochPhase::SettlementWindow => 3,
            EpochPhase::Closed => 4,
        }
    }
}

impl EpochTimes {
    /// The six instants are strictly increasing, and the cadence is no
    /// shorter than the span from the first to the last.
    pub open spec fn is_sequential(self) -> bool {
        &&& self.start_epoch < self.end_deposits
        &&& self.end_deposits < self.start_auction
        &&& self.start_auction < self.end_auction
        &&& self.end_auction < self.start_settlement
        &&& self.start_settlement < self.end_epoch
        &&& self.epoch_cadence >= self.end_epoch - self.start_epoch
    }

    /// The schedule is sequential and starts after `now`.
    pub open spec fn is_valid_at(self, now: i64) -> bool {
        self.start_epoch > now && self.is_sequential()
    }

    /// The instant lies in the window in which deposits and withdrawals are
    /// taken: after the start, and no later than the end of deposits.
    pub open spec fn accepts_deposits_at(self, now: i64) -> bool {
        self.start_epoch < now && now <= self.end_deposits
    }

    /// The phase that the epoch is in at `now`.
    pub open spec fn spec_phase(self, now: i64) -> EpochPhase {
        if now <= self.start_epoch {
            EpochPhase::PreStart
        } else if now <= self.end_deposits {
            EpochPhase::DepositWindow
        } else if now <= self.end_auction {
            EpochPhase::AuctionWindow
        } else if now <= self.end_epoch {
            EpochPhase::SettlementWindow
        } else {
            EpochPhase::Closed
        }
    }

    /// The phase that the epoch is in at `now`.
    #[verifier::when_used_as_spec(spec_phase)]
    pub fn phase(self, now: i64) -> (r: EpochPhase)
        ensures
            r == self.spec_phase(now),
    {
        if now <= self.start_epoch {
            EpochPhase::PreStart
        } else if now <= self.end_deposits {
            EpochPhase::DepositWindow
        } else if now <= self.end_auction {
            EpochPhase::AuctionWindow
        } else if now <= self.end_epoch {
            EpochPhase::SettlementWindow
        } else {
            EpochPhase::Closed
        }
    }
}

/// Accepts a schedule that is handed in at `now`.
///
/// A schedule that does not start after `now` is refused with `VaultFuture`;
/// one that does, but whose instants are out of order or whose cadence is
/// shorter than the epoch, with `SeqTimes`.
pub fn validate_epoch_times(epoch_times: EpochTimes, now: i64) -> (r: Result<(), ErrorCode>)
    ensures
        r is Ok <==> epoch_times.is_valid_at(now),
        epoch_times.start_epoch <= now ==> r == Err::<(), ErrorCode>(ErrorCode::VaultFuture),
        epoch_times.start_epoch > now && !epoch_times.is_sequential() ==> r == Err::<
            (),
            ErrorCode,
        >(ErrorCode::SeqTimes),
{
    if epoch_times.start_epoch <= now {
        return Err(ErrorCode::VaultFuture);
    }
    if !(epoch_times.start_epoch < epoch_times.end_deposits && epoch_times.end_deposits
        < epoch_times.start_auction && epoch_times.start_auction < epoch_times.end_auction
        && epoch_times.end_auction < epoch_times.start_settlement && epoch_times.start_settlement
        < epoch_times.end_epoch && epoch_times.epoch_cadence as i128 >= epoch_times.end_epoch as i128
        - epoch_times.start_epoch as i128) {
        return Err(ErrorCode::SeqTimes);
    }
    Ok(())
}

/// Lets a deposit or a withdrawal through while the vault takes them.
///
/// Up to and including the start of the epoch the operation is refused with
/// `StartEpochTime`, after the end of deposits with `EndDepositsTime`.
pub fn deposit_withdraw_phase(vault: &Vault, now: i64) -> (r: Result<(), ErrorCode>)
    ensures
        r is Ok <==> vault.epoch_times.accepts_deposits_at(now),
        now <= vault.epoch_times.start_epoch ==> r == Err::<(), ErrorCode>(
            ErrorCode::StartEpochTime,
        ),
        now > vault.epoch_times.start_epoch && now > vault.epoch_times.end_deposits ==> r == Err::<
            (),
            ErrorCode,
        >(ErrorCode::EndDepositsTime),
{
    if now <= vault.epoch_times.start_epoch {
        return Err(ErrorCode::StartEpochTime);
    } else if now > vault.epoch_times.end_deposits {
        return Err(ErrorCode::EndDepositsTime);
    }
    Ok(())
}

/// Deposits and withdrawals are taken exactly in the deposit window, and
/// are refused as too early exactly before it.
pub proof fn lemma_gate_matches_phase(times: EpochTimes, now: i64)
    ensures
        times.accepts_deposits_at(now) <==> times.spec_phase(now) == EpochPhase::DepositWindow,
        now <= times.start_epoch <==> times.spec_phase(now) == EpochPhase::PreStart,
{
}

/// Time never takes an epoch back to an earlier phase.
pub proof fn lemma_phase_never_goes_back(times: EpochTimes, earlier: i64, later: i64)
    requires
        times.is_sequential(),
        earlier <= later,
    ensures
        times.spec_phase(earlier).rank() <= times.spec_phase(later).rank(),
{
}

/// A schedule that is accepted at `now` is in its first phase at `now`: no
/// deposit is taken before the start that it names.
pub proof fn lemma_accepted_schedule_is_pre_start(times: EpochTimes, now: i64)
    requires
        times.is_valid_at(now),
    ensures
        times.spec_phase(now) == EpochPhase::PreStart,
        !times.accepts_deposits_at(now),
{
}

} // verus!
