//! The vault's operations: what each one checks, what it writes to the
//! vault's record, and the calls that it asks for, in their mandatory order.
//!
//! Every test that the vault itself can make is made before the first call
//! is asked for: an operation that is refused asks for no call and writes
//! nothing. The calls of one that is accepted are made one after the other
//! as the pipeline names them, and the first that fails ends the operation.
//! The vault asks for no call that would undo an earlier one: its host
//! makes the calls of one operation in one transaction, so that a failure
//! undoes them all, and no claim token stays minted without its backing.

use vstd::prelude::*;
use vstd::utf8::encode_utf8;
use crate::authority::AuthoritySeeds;
use crate::context::{
    DepositVault, InitUserRedeemableTokenAccount, InitializeVault, RolloverVault, WithdrawVault,
};
use crate::cpi::{Call, CpiContext};
use crate::epoch::{deposit_withdraw_phase, validate_epoch_times, EpochPhase};
use crate::error::{ErrorCode, ErrorKind};
use crate::ledger::{claim_for_deposit, claim_minted, underlying_for_claim, underlying_owed};
use crate::name::{lemma_strip_of_padded_name, pad_name, padded_name};
use crate::strip::is_whitespace;
use crate::state::{EpochTimes, Vault, VaultBumps, _DepositVaultBumps, VAULT_NAME_LEN};
use crate::venue::{
    Amount, AmountUnits, Deposit, DepositCollateral, DepositCollateralBumpSeeds,
    InitializeCollateralAccount, InitializeDepositAccount, InitializeLoanAccount,
    InitializeObligation, RefreshReserve,
};

verus! {

/// The authority that signs while the vault is made: named by the first
/// `name_len` bytes of the stored name, which are the name as it was handed
/// in.
pub open spec fn bootstrap_signer(vault: Vault, name_len: nat) -> AuthoritySeeds {
    AuthoritySeeds {
        vault_name: vault.vault_name,
        from: 0,
        to: name_len as usize,
        bump: vault.bumps.vault_authority,
    }
}

/// While a vault is made, its calls are signed for by the name as it was
/// handed in. Where that name neither begins nor ends with whitespace, they
/// are signed for as every later call is.
pub proof fn lemma_bootstrap_signer(vault: Vault, name: Seq<u8>)
    requires
        name.len() <= VAULT_NAME_LEN,
        vault.vault_name@ == pad_name(name),
    ensures
        bootstrap_signer(vault, name.len()).wf(),
        bootstrap_signer(vault, name.len()).name() == name,
        (name.len() > 0 ==> !is_whitespace(name[0]) && !is_whitespace(name[name.len() - 1]))
            ==> bootstrap_signer(vault, name.len()) == AuthoritySeeds::spec_of_vault(vault),
{
    assert(pad_name(name).subrange(0, name.len() as int) =~= name);
    if name.len() > 0 ==> !is_whitespace(name[0]) && !is_whitespace(name[name.len() - 1]) {
        lemma_strip_of_padded_name(name);
    }
}

/// The calls that make a vault's position with the lending venue, once its
/// record is written: the operating balance goes to the vault's authority;
/// then the obligation, the deposit-note account, the collateral account
/// and the loan account are opened, each with its own proof value.
pub open spec fn bootstrap_calls(
    ctx: InitializeVault,
    vault_lamports: u64,
    signer: AuthoritySeeds,
) -> Seq<Call> {
    seq![
        Call::SystemTransfer {
            program: ctx.system_program,
            from: ctx.vault_admin,
            to: ctx.vault_authority,
            lamports: vault_lamports,
        },
        Call::InitObligation {
            ctx: CpiContext {
                program: ctx.jet_program,
                accounts: InitializeObligation {
                    market: ctx.market,
                    market_authority: ctx.market_authority,
                    borrower: ctx.vault_authority,
                    obligation: ctx.obligation,
                    token_program: ctx.token_program,
                    system_program: ctx.system_program,
                },
                signer: Some(signer),
            },
            bump: ctx.vault.bumps.obligation,
        },
        Call::InitDepositAccount {
            ctx: CpiContext {
                program: ctx.jet_program,
                accounts: InitializeDepositAccount {
                    market: ctx.market,
                    market_authority: ctx.market_authority,
                    reserve: ctx.reserve,
                    deposit_note_mint: ctx.deposit_note_mint,
                    depositor: ctx.vault_authority,
                    deposit_account: ctx.deposit_account,
                    token_program: ctx.token_program,
                    system_program: ctx.system_program,
                    rent: ctx.rent,
                },
                signer: Some(signer),
            },
            bump: ctx.vault.bumps.deposit_account,
        },
        Call::InitCollateralAccount {
            ctx: CpiContext {
                program: ctx.jet_program,
                accounts: InitializeCollateralAccount {
                    market: ctx.market,
                    market_authority: ctx.market_authority,
                    obligation: ctx.obligation,
                    reserve: ctx.reserve,
                    deposit_note_mint: ctx.deposit_note_mint,
                    owner: ctx.vault_authority,
                    collateral_account: ctx.collateral_account,
                    token_program: ctx.token_program,
                    system_program: ctx.system_program,
                    rent: ctx.rent,
                },
                signer: Some(signer),
            },
            bump: ctx.vault.bumps.collateral_account,
        },
        Call::InitLoanAccount {
            ctx: CpiContext {
                program: ctx.jet_program,
                accounts: InitializeLoanAccount {
                    market: ctx.market,
                    market_authority: ctx.market_authority,
                    obligation: ctx.obligation,
                    reserve: ctx.reserve,
                    loan_note_mint: ctx.loan_note_mint,
                    owner: ctx.vault_authority,
                    loan_account: ctx.loan_account,
                    token_program: ctx.token_program,
                    system_program: ctx.system_program,
                    rent: ctx.rent,
                },
                signer: Some(signer),
            },
            bump: ctx.vault.bumps.loan_account,
        },
    ]
}

/// Makes a vault: accepts its schedule at `now`, writes its record, and asks
/// for the calls that fund its authority and open its position with the
/// lending venue.
///
/// A schedule that is not accepted leaves the record as it was, and no call
/// is asked for.
pub fn initialize_vault(
    ctx: &mut InitializeVault,
    vault_name: String,
    vault_lamports: u64,
    bumps: VaultBumps,
    epoch_times: EpochTimes,
    now: i64,
) -> (r: Result<Vec<Call>, ErrorCode>)
    requires
        encode_utf8(vault_name@).len() <= VAULT_NAME_LEN,
    ensures
        r is Ok <==> epoch_times.is_valid_at(now),
        r matches Err(e) ==> {
            &&& e.spec_kind() == ErrorKind::InvalidSchedule
            &&& e == if epoch_times.start_epoch <= now {
                ErrorCode::VaultFuture
            } else {
                ErrorCode::SeqTimes
            }
            &&& *final(ctx) == *old(ctx)
        },
        r matches Ok(calls) ==> {
            &&& final(ctx).vault.vault_name@ == pad_name(encode_utf8(vault_name@))
            &&& final(ctx).vault.bumps == bumps
            &&& final(ctx).vault.vault_admin == old(ctx).vault_admin
            &&& final(ctx).vault.usdc_mint == old(ctx).usdc_mint.key
            &&& final(ctx).vault.redeemable_mint == old(ctx).redeemable_mint.key
            &&& final(ctx).vault.vault_usdc == old(ctx).vault_usdc.key
            &&& final(ctx).vault.epoch_times == epoch_times
            &&& *final(ctx) == (InitializeVault { vault: final(ctx).vault, ..*old(ctx) })
            &&& calls@ == bootstrap_calls(
                *final(ctx),
                vault_lamports,
                bootstrap_signer(final(ctx).vault, encode_utf8(vault_name@).len()),
            )
        },
{
    match validate_epoch_times(epoch_times, now) {
        Err(e) => {
            return Err(e);
        },
        Ok(()) => {},
    }
    let name_bytes: &[u8] = vault_name.as_str().as_bytes();
    let name_data: [u8; 20] = padded_name(name_bytes);
    ctx.vault =
    Vault {
        vault_name: name_data,
        bumps,
        vault_admin: ctx.vault_admin,
        usdc_mint: ctx.usdc_mint.key,
        redeemable_mint: ctx.redeemable_mint.key,
        vault_usdc: ctx.vault_usdc.key,
        epoch_times,
    };
    let signer = AuthoritySeeds {
        vault_name: name_data,
        from: 0,
        to: name_bytes.len(),
        bump: bumps.vault_authority,
    };
    let mut calls: Vec<Call> = Vec::new();
    calls.push(
        Call::SystemTransfer {
            program: ctx.system_program,
            from: ctx.vault_admin,
            to: ctx.vault_authority,
            lamports: vault_lamports,
        },
    );
    calls.push(
        Call::InitObligation {
            ctx: CpiContext::new_with_signer(
                ctx.jet_program,
                InitializeObligation {
                    market: ctx.market,
                    market_authority: ctx.market_authority,
                    borrower: ctx.vault_authority,
                    obligation: ctx.obligation,
                    token_program: ctx.token_program,
                    system_program: ctx.system_program,
                },
                signer,
            ),
            bump: bumps.obligation,
        },
    );
    calls.push(
        Call::InitDepositAccount {
            ctx: CpiContext::new_with_signer(
                ctx.jet_program,
                InitializeDepositAccount {
                    market: ctx.market,
                    market_authority: ctx.market_authority,
                    reserve: ctx.reserve,
                    deposit_note_mint: ctx.deposit_note_mint,
                    depositor: ctx.vault_authority,
                    deposit_account: ctx.deposit_account,
                    token_program: ctx.token_program,
                    system_program: ctx.system_program,
                    rent: ctx.rent,
                },
                signer,
            ),
            bump: bumps.deposit_account,
        },
    );
    calls.push(
        Call::InitCollateralAccount {
            ctx: CpiContext::new_with_signer(
                ctx.jet_program,
                InitializeCollateralAccount {
                    market: ctx.market,
                    market_authority: ctx.market_authority,
                    obligation: ctx.obligation,
                    reserve: ctx.reserve,
                    deposit_note_mint: ctx.deposit_note_mint,
                    owner: ctx.vault_authority,
                    collateral_account: ctx.collateral_account,
                    token_program: ctx.token_program,
                    system_program: ctx.system_program,
                    rent: ctx.rent,
                },
                signer,
            ),
            bump: bumps.collateral_account,
        },
    );
    calls.push(
        Call::InitLoanAccount {
            ctx: CpiContext::new_with_signer(
                ctx.jet_program,
                InitializeLoanAccount {
                    market: ctx.market,
                    market_authority: ctx.market_authority,
                    obligation: ctx.obligation,
                    reserve: ctx.reserve,
                    loan_note_mint: ctx.loan_note_mint,
                    owner: ctx.vault_authority,
                    loan_account: ctx.loan_account,
                    token_program: ctx.token_program,
                    system_program: ctx.system_program,
                    rent: ctx.rent,
                },
                signer,
            ),
            bump: bumps.loan_account,
        },
    );
    proof {
        assert(calls@ =~= bootstrap_calls(
            *ctx,
            vault_lamports,
            bootstrap_signer(ctx.vault, encode_utf8(vault_name@).len()),
        ));
    }
    Ok(calls)
}

/// Lets the opening of a depositor's claim-token account through while the
/// vault takes deposits at `now`.
pub fn initialize_user_redeemable_token_account(
    ctx: &InitUserRedeemableTokenAccount,
    now: i64,
) -> (r: Result<(), ErrorCode>)
    ensures
        r is Ok <==> ctx.vault.epoch_times.accepts_deposits_at(now),
        now <= ctx.vault.epoch_times.start_epoch ==> r == Err::<(), ErrorCode>(
            ErrorCode::StartEpochTime,
        ),
        now > ctx.vault.epoch_times.start_epoch && now > ctx.vault.epoch_times.end_deposits ==> r
            == Err::<(), ErrorCode>(ErrorCode::EndDepositsTime),
{
    deposit_withdraw_phase(&ctx.vault, now)
}

/// The calls of a deposit of `usdc_amount` for which `minted` claim tokens
/// are due, in their mandatory order: the asset goes from the depositor to
/// the pool; the claim tokens are minted to the depositor; the venue's
/// reserve is refreshed; the principal is deposited into the venue; and the
/// deposit notes are posted as collateral.
pub open spec fn deposit_calls(
    ctx: DepositVault,
    bumps: _DepositVaultBumps,
    usdc_amount: u64,
    minted: u64,
) -> Seq<Call> {
    let signer = AuthoritySeeds::spec_of_vault(ctx.vault);
    seq![
        Call::Transfer { ctx: ctx.spec_into_transfer_context(), amount: usdc_amount },
        Call::MintTo { ctx: ctx.spec_into_mint_to_context(signer), amount: minted },
        Call::RefreshReserve {
            ctx: CpiContext {
                program: ctx.jet_program,
                accounts: RefreshReserve {
                    market: ctx.market,
                    market_authority: ctx.market_authority,
                    reserve: ctx.reserve,
                    fee_note_vault: ctx.fee_note_vault,
                    deposit_note_mint: ctx.deposit_note_mint,
                    pyth_oracle_price: ctx.pyth_price_oracle,
                    token_program: ctx.token_program,
                },
                signer: Some(signer),
            },
        },
        Call::Deposit {
            ctx: CpiContext {
                program: ctx.jet_program,
                accounts: Deposit {
                    market: ctx.market,
                    market_authority: ctx.market_authority,
                    reserve: ctx.reserve,
                    vault: ctx.jet_vault,
                    deposit_note_mint: ctx.deposit_note_mint,
                    depositor: ctx.vault_authority,
                    deposit_account: ctx.deposit_account,
                    deposit_source: ctx.vault_usdc.key,
                    token_program: ctx.token_program,
                },
                signer: Some(signer),
            },
            bump: bumps.deposit_account,
            amount: Amount { units: AmountUnits::Tokens, value: usdc_amount },
        },
        Call::DepositCollateral {
            ctx: CpiContext {
                program: ctx.jet_program,
                accounts: DepositCollateral {
                    market: ctx.market,
                    market_authority: ctx.market_authority,
                    reserve: ctx.reserve,
                    obligation: ctx.obligation,
                    owner: ctx.vault_authority,
                    deposit_account: ctx.deposit_account,
                    collateral_account: ctx.collateral_account,
                    token_program: ctx.token_program,
                },
                signer: Some(signer),
            },
            bump: DepositCollateralBumpSeeds {
                collateral_account: bumps.collateral_account,
                deposit_account: bumps.deposit_account,
            },
            amount: Amount { units: AmountUnits::Tokens, value: usdc_amount },
        },
    ]
}

/// What a deposit of `usdc_amount` at `now` comes to: the error with which
/// it is refused, or the calls that it asks for.
///
/// The phase gate comes first, then the accounts, then the depositor's
/// balance, then the share ledger on the pool balance and the claim supply
/// as they stand.
pub open spec fn deposit_outcome(
    ctx: DepositVault,
    bumps: _DepositVaultBumps,
    usdc_amount: u64,
    now: i64,
) -> Result<Seq<Call>, ErrorCode> {
    let supply = ctx.redeemable_mint.supply as nat;
    let pool = ctx.vault_usdc.amount as nat;
    if now <= ctx.vault.epoch_times.start_epoch {
        Err(ErrorCode::StartEpochTime)
    } else if now > ctx.vault.epoch_times.end_deposits {
        Err(ErrorCode::EndDepositsTime)
    } else if ctx.accounts_error() is Some {
        Err(ctx.accounts_error()->0)
    } else if ctx.user_usdc.amount < usdc_amount {
        Err(ErrorCode::InsufficientUsdcBalance)
    } else if supply > 0 && pool == 0 {
        Err(ErrorCode::DivisionByZero)
    } else if claim_for_deposit(usdc_amount as nat, supply, pool) > u64::MAX {
        Err(ErrorCode::Overflow)
    } else {
        Ok(
            deposit_calls(
                ctx,
                bumps,
                usdc_amount,
                claim_for_deposit(usdc_amount as nat, supply, pool) as u64,
            ),
        )
    }
}

/// Takes a deposit of `usdc_amount` at `now`, or refuses it.
///
/// An accepted deposit asks for the transfer of the asset to the pool, for
/// the minting of the claim tokens that the share ledger gives for it, and
/// for the deposit of the principal with the lending venue.
pub fn deposit_vault(ctx: &DepositVault, bumps: _DepositVaultBumps, usdc_amount: u64, now: i64) -> (r:
    Result<Vec<Call>, ErrorCode>)
    ensures
        match r {
            Ok(calls) => deposit_outcome(*ctx, bumps, usdc_amount, now) == Ok::<
                Seq<Call>,
                ErrorCode,
            >(calls@),
            Err(e) => deposit_outcome(*ctx, bumps, usdc_amount, now) == Err::<Seq<Call>, ErrorCode>(
                e,
            ),
        },
        !ctx.vault.epoch_times.accepts_deposits_at(now) ==> r is Err && r->Err_0.spec_kind()
            == ErrorKind::PhaseViolation,
        ctx.vault.epoch_times.accepts_deposits_at(now) && r is Err ==> r->Err_0.spec_kind()
            != ErrorKind::PhaseViolation,
{
    match deposit_withdraw_phase(&ctx.vault, now) {
        Err(e) => {
            return Err(e);
        },
        Ok(()) => {},
    }
    match ctx.check_accounts() {
        Err(e) => {
            return Err(e);
        },
        Ok(()) => {},
    }
    if ctx.user_usdc.amount < usdc_amount {
        return Err(ErrorCode::InsufficientUsdcBalance);
    }
    let redeemable_amount: u64 = match claim_minted(
        usdc_amount,
        ctx.redeemable_mint.supply,
        ctx.vault_usdc.amount,
    ) {
        Err(e) => {
            return Err(e);
        },
        Ok(minted) => minted,
    };
    let signer = AuthoritySeeds::of_vault(&ctx.vault);
    let mut calls: Vec<Call> = Vec::new();
    calls.push(Call::Transfer { ctx: ctx.into_transfer_context(), amount: usdc_amount });
    calls.push(Call::MintTo { ctx: ctx.into_mint_to_context(signer), amount: redeemable_amount });
    calls.push(
        Call::RefreshReserve {
            ctx: CpiContext::new_with_signer(
                ctx.jet_program,
                RefreshReserve {
                    market: ctx.market,
                    market_authority: ctx.market_authority,
                    reserve: ctx.reserve,
                    fee_note_vault: ctx.fee_note_vault,
                    deposit_note_mint: ctx.deposit_note_mint,
                    pyth_oracle_price: ctx.pyth_price_oracle,
                    token_program: ctx.token_program,
                },
                signer,
            ),
        },
    );
    calls.push(
        Call::Deposit {
            ctx: CpiContext::new_with_signer(
                ctx.jet_program,
                Deposit {
                    market: ctx.market,
                    market_authority: ctx.market_authority,
                    reserve: ctx.reserve,
                    vault: ctx.jet_vault,
                    deposit_note_mint: ctx.deposit_note_mint,
                    depositor: ctx.vault_authority,
                    deposit_account: ctx.deposit_account,
                    deposit_source: ctx.vault_usdc.key,
                    token_program: ctx.token_program,
                },
                signer,
            ),
            bump: bumps.deposit_account,
            amount: Amount::from_tokens(usdc_amount),
        },
    );
    calls.push(
        Call::DepositCollateral {
            ctx: CpiContext::new_with_signer(
                ctx.jet_program,
                DepositCollateral {
                    market: ctx.market,
                    market_authority: ctx.market_authority,
                    reserve: ctx.reserve,
                    obligation: ctx.obligation,
                    owner: ctx.vault_authority,
                    deposit_account: ctx.deposit_account,
                    collateral_account: ctx.collateral_account,
                    token_program: ctx.token_program,
                },
                signer,
            ),
            bump: DepositCollateralBumpSeeds {
                collateral_account: bumps.collateral_account,
                deposit_account: bumps.deposit_account,
            },
            amount: Amount::from_tokens(usdc_amount),
        },
    );
    proof {
        assert(calls@ =~= deposit_calls(*ctx, bumps, usdc_amount, redeemable_amount));
    }
    Ok(calls)
}

/// The calls of a withdrawal of `redeemable_amount` claim tokens for which
/// `owed` of the asset is due, in their mandatory order: the claim tokens
/// are burnt before the asset leaves the pool.
pub open spec fn withdraw_calls(ctx: WithdrawVault, redeemable_amount: u64, owed: u64) -> Seq<
    Call,
> {
    let signer = AuthoritySeeds::spec_of_vault(ctx.vault);
    seq![
        Call::Burn { ctx: ctx.spec_into_burn_context(signer), amount: redeemable_amount },
        Call::Transfer { ctx: ctx.spec_into_transfer_context(signer), amount: owed },
    ]
}

/// What a withdrawal of `redeemable_amount` claim tokens at `now` comes to:
/// the error with which it is refused, or the calls that it asks for.
///
/// The phase gate comes first, then the accounts, then the depositor's
/// claim balance, then the share ledger on the pool balance and the claim
/// supply as they stand.
pub open spec fn withdraw_outcome(ctx: WithdrawVault, redeemable_amount: u64, now: i64) -> Result<
    Seq<Call>,
    ErrorCode,
> {
    let supply = ctx.redeemable_mint.supply as nat;
    let pool = ctx.vault_usdc.amount as nat;
    if now <= ctx.vault.epoch_times.start_epoch {
        Err(ErrorCode::StartEpochTime)
    } else if now > ctx.vault.epoch_times.end_deposits {
        Err(ErrorCode::EndDepositsTime)
    } else if ctx.accounts_error() is Some {
        Err(ctx.accounts_error()->0)
    } else if ctx.user_redeemable.amount < redeemable_amount {
        Err(ErrorCode::InsufficientRedeemableBalance)
    } else if supply == 0 {
        Err(ErrorCode::DivisionByZero)
    } else if underlying_for_claim(redeemable_amount as nat, supply, pool) > u64::MAX {
        Err(ErrorCode::Overflow)
    } else {
        Ok(
            withdraw_calls(
                ctx,
                redeemable_amount,
                underlying_for_claim(redeemable_amount as nat, supply, pool) as u64,
            ),
        )
    }
}

/// Takes a withdrawal of `redeemable_amount` claim tokens at `now`, or
/// refuses it.
///
/// An accepted withdrawal asks for the burning of the claim tokens and then
/// for the transfer of what the share ledger gives for them. Once both are
/// made, `close_if_empty` says whether the depositor's claim-token account
/// is to be closed.
pub fn withdraw_vault(ctx: &WithdrawVault, _bump: u8, redeemable_amount: u64, now: i64) -> (r:
    Result<Vec<Call>, ErrorCode>)
    ensures
        match r {
            Ok(calls) => withdraw_outcome(*ctx, redeemable_amount, now) == Ok::<
                Seq<Call>,
                ErrorCode,
            >(calls@),
            Err(e) => withdraw_outcome(*ctx, redeemable_amount, now) == Err::<Seq<Call>, ErrorCode>(
                e,
            ),
        },
        !ctx.vault.epoch_times.accepts_deposits_at(now) ==> r is Err && r->Err_0.spec_kind()
            == ErrorKind::PhaseViolation,
        ctx.vault.epoch_times.accepts_deposits_at(now) && r is Err ==> r->Err_0.spec_kind()
            != ErrorKind::PhaseViolation,
        ctx.vault.epoch_times.accepts_deposits_at(now) && ctx.accounts_error() is None
            && ctx.user_redeemable.amount < redeemable_amount ==> r == Err::<Vec<Call>, ErrorCode>(
            ErrorCode::InsufficientRedeemableBalance,
        ),
{
    match deposit_withdraw_phase(&ctx.vault, now) {
        Err(e) => {
            return Err(e);
        },
        Ok(()) => {},
    }
    match ctx.check_accounts() {
        Err(e) => {
            return Err(e);
        },
        Ok(()) => {},
    }
    if ctx.user_redeemable.amount < redeemable_amount {
        return Err(ErrorCode::InsufficientRedeemableBalance);
    }
    let usdc_amount: u64 = match underlying_owed(
        redeemable_amount,
        ctx.redeemable_mint.supply,
        ctx.vault_usdc.amount,
    ) {
        Err(e) => {
            return Err(e);
        },
        Ok(owed) => owed,
    };
    let signer = AuthoritySeeds::of_vault(&ctx.vault);
    let mut calls: Vec<Call> = Vec::new();
    calls.push(Call::Burn { ctx: ctx.into_burn_context(signer), amount: redeemable_amount });
    calls.push(Call::Transfer { ctx: ctx.into_transfer_context(signer), amount: usdc_amount });
    proof {
        assert(calls@ =~= withdraw_calls(*ctx, redeemable_amount, usdc_amount));
    }
    Ok(calls)
}

/// The last step of a withdrawal, on the accounts as they stand after its
/// calls were made: a claim-token account that the withdrawal has emptied is
/// closed, and what it was opened with goes back to the depositor; one that
/// still holds claim tokens stays.
pub fn close_if_empty(ctx: &WithdrawVault) -> (r: Option<Call>)
    ensures
        ctx.user_redeemable.amount == 0 ==> r == Some(
            Call::CloseAccount {
                ctx: ctx.spec_into_close_account_context(AuthoritySeeds::spec_of_vault(ctx.vault)),
            },
        ),
        ctx.user_redeemable.amount != 0 ==> r is None,
{
    if ctx.user_redeemable.amount == 0 {
        let signer = AuthoritySeeds::of_vault(&ctx.vault);
        Some(Call::CloseAccount { ctx: ctx.into_close_account_context(signer) })
    } else {
        None
    }
}

/// What the replacing of a vault's schedule at `now` comes to.
pub open spec fn rollover_outcome(ctx: RolloverVault, epoch_times: EpochTimes, now: i64) -> Result<
    (),
    ErrorCode,
> {
    if ctx.vault.vault_admin != ctx.vault_admin {
        Err(ErrorCode::InvalidVaultAdmin)
    } else if now <= ctx.vault.epoch_times.end_epoch {
        Err(ErrorCode::EpochNotOver)
    } else if epoch_times.start_epoch <= now {
        Err(ErrorCode::VaultFuture)
    } else if !epoch_times.is_sequential() {
        Err(ErrorCode::SeqTimes)
    } else {
        Ok(())
    }
}

/// Replaces the schedule of a vault whose epoch has ended, which takes the
/// vault from the last phase of one epoch to the first phase of the next.
///
/// A caller who is not the vault's admin is refused with
/// `InvalidVaultAdmin`; a vault whose epoch has not ended at `now` with
/// `EpochNotOver`; and a schedule that would not be accepted for a new vault
/// at `now` as it would be there. A refusal leaves the record as it was.
pub fn rollover_vault(ctx: &mut RolloverVault, epoch_times: EpochTimes, now: i64) -> (r: Result<
    (),
    ErrorCode,
>)
    ensures
        r == rollover_outcome(*old(ctx), epoch_times, now),
        r is Ok ==> *final(ctx) == (RolloverVault {
            vault: Vault { epoch_times, ..old(ctx).vault },
            ..*old(ctx)
        }),
        r is Err ==> *final(ctx) == *old(ctx),
        old(ctx).vault.vault_admin != old(ctx).vault_admin ==> r is Err && r->Err_0.spec_kind()
            == ErrorKind::UnauthorizedAdmin,
        r is Ok && old(ctx).vault.epoch_times.is_sequential()
            ==> old(ctx).vault.epoch_times.spec_phase(now) == EpochPhase::Closed,
        r is Ok ==> final(ctx).vault.epoch_times.spec_phase(now) == EpochPhase::PreStart,
{
    match ctx.check_accounts() {
        Err(e) => {
            return Err(e);
        },
        Ok(()) => {},
    }
    if now <= ctx.vault.epoch_times.end_epoch {
        return Err(ErrorCode::EpochNotOver);
    }
    match validate_epoch_times(epoch_times, now) {
        Err(e) => {
            return Err(e);
        },
        Ok(()) => {},
    }
    ctx.vault.epoch_times = epoch_times;
    Ok(())
}

} // verus!
