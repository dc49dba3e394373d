//! The share ledger: how many claim tokens a deposit is worth, and how much
//! of the pool a claim is worth.
//!
//! Both directions round down, so that what rounding loses stays in the pool.

use vstd::prelude::*;
use crate::error::ErrorCode;

verus! {

/// The claim tokens due for `amount` of the asset, while `claim_supply` claim
/// tokens stand against `pool_balance` of the asset.
///
/// The first depositor is paid one for one; later ones at the price of the
/// moment, rounded down. With a supply but no pool there is no price, and the
/// value is of no significance.
pub open spec fn claim_for_deposit(amount: nat, claim_supply: nat, pool_balance: nat) -> nat {
    if claim_supply == 0 {
        amount
    } else if pool_balance == 0 {
        0
    } else {
        (amount * claim_supply) / pool_balance
    }
}

/// The asset due for `claim` claim tokens, while `claim_supply` claim tokens
/// stand against `pool_balance` of the asset, rounded down. Without a supply
/// there is no price, and the value is of no significance.
pub open spec fn underlying_for_claim(claim: nat, claim_supply: nat, pool_balance: nat) -> nat {
    if claim_supply == 0 {
        0
    } else {
        (claim * pool_balance) / claim_supply
    }
}

/// The product of two sixty-four-bit numbers fits in twice the width.
proof fn lemma_product_fits(a: u64, b: u64)
    ensures
        a * b <= u128::MAX,
{
    assert(a * b <= 0xffff_ffff_ffff_ffff * 0xffff_ffff_ffff_ffff) by (nonlinear_arith)
        requires
            0 <= a <= 0xffff_ffff_ffff_ffff,
            0 <= b <= 0xffff_ffff_ffff_ffff,
    ;
}

/// A quotient rounded down, times its divisor, does not exceed the dividend.
proof fn lemma_floor_times_divisor(x: nat, d: nat)
    requires
        d > 0,
    ensures
        (x / d) * d <= x,
        x < (x / d) * d + d,
{
    vstd::arithmetic::div_mod::lemma_fundamental_div_mod(x as int, d as int);
    vstd::arithmetic::div_mod::lemma_mod_bound(x as int, d as int);
    assert((x / d) * d == d * (x / d)) by (nonlinear_arith);
}

/// Of two dividends the smaller has the smaller quotient, and a multiple of
/// the divisor has the multiplier as its quotient.
proof fn lemma_quotient_below(x: nat, a: nat, d: nat)
    requires
        d > 0,
        x <= a * d,
    ensures
        x / d <= a,
{
    vstd::arithmetic::div_mod::lemma_div_is_ordered(x as int, (a * d) as int, d as int);
    vstd::arithmetic::div_mod::lemma_div_by_multiple(a as int, d as int);
}

/// The first depositor is paid one claim token for each unit of the asset.
pub proof fn lemma_first_depositor_parity(amount: nat, pool_balance: nat)
    ensures
        claim_for_deposit(amount, 0, pool_balance) == amount,
{
}

/// At a price of one, both directions are exact.
pub proof fn lemma_exact_at_par(amount: nat, balance: nat)
    requires
        balance > 0,
    ensures
        claim_for_deposit(amount, balance, balance) == amount,
        underlying_for_claim(amount, balance, balance) == amount,
{
    vstd::arithmetic::div_mod::lemma_div_by_multiple(amount as int, balance as int);
}

/// A deposit that is withdrawn at once returns no more than was deposited,
/// whether the claim is priced before the deposit has reached the pool or
/// after it; what rounding loses stays in the pool.
pub proof fn lemma_round_trip_no_gain(amount: nat, claim_supply: nat, pool_balance: nat)
    requires
        pool_balance > 0,
        claim_supply > 0,
    ensures
        underlying_for_claim(
            claim_for_deposit(amount, claim_supply, pool_balance),
            claim_supply,
            pool_balance,
        ) <= amount,
        underlying_for_claim(
            claim_for_deposit(amount, claim_supply, pool_balance),
            claim_supply + claim_for_deposit(amount, claim_supply, pool_balance),
            pool_balance + amount,
        ) <= amount,
{
    let minted = claim_for_deposit(amount, claim_supply, pool_balance);
    lemma_floor_times_divisor(amount * claim_supply, pool_balance);
    assert(minted * pool_balance <= amount * claim_supply);
    lemma_quotient_below(minted * pool_balance, amount, claim_supply);
    assert(minted * (pool_balance + amount) <= amount * (claim_supply + minted))
        by (nonlinear_arith)
        requires
            minted * pool_balance <= amount * claim_supply,
    ;
    lemma_quotient_below(minted * (pool_balance + amount), amount, claim_supply + minted);
}

/// What a deposit that is withdrawn at once loses is dust: less than one
/// unit of the asset more than the price of one claim token, whether the
/// claim is priced before the deposit has reached the pool or after it
/// (stated with the fractions multiplied out).
pub proof fn lemma_round_trip_dust(amount: nat, claim_supply: nat, pool_balance: nat)
    requires
        pool_balance > 0,
        claim_supply > 0,
    ensures
        ({
            let minted = claim_for_deposit(amount, claim_supply, pool_balance);
            let back = underlying_for_claim(minted, claim_supply, pool_balance);
            (amount - back) * claim_supply < pool_balance + claim_supply
        }),
        ({
            let minted = claim_for_deposit(amount, claim_supply, pool_balance);
            let back = underlying_for_claim(minted, claim_supply + minted, pool_balance + amount);
            (amount - back) * (claim_supply + minted) < pool_balance + claim_supply + minted
        }),
{
    let minted = claim_for_deposit(amount, claim_supply, pool_balance);
    let back = underlying_for_claim(minted, claim_supply, pool_balance);
    let later = underlying_for_claim(minted, claim_supply + minted, pool_balance + amount);
    lemma_floor_times_divisor(amount * claim_supply, pool_balance);
    lemma_floor_times_divisor(minted * pool_balance, claim_supply);
    assert((amount - back) * claim_supply < pool_balance + claim_supply) by (nonlinear_arith)
        requires
            amount * claim_supply < minted * pool_balance + pool_balance,
            minted * pool_balance < back * claim_supply + claim_supply,
    ;
    lemma_floor_times_divisor(minted * (pool_balance + amount), claim_supply + minted);
    assert((amount - later) * (claim_supply + minted) < pool_balance + claim_supply + minted)
        by (nonlinear_arith)
        requires
            amount * claim_supply < minted * pool_balance + pool_balance,
            minted * (pool_balance + amount) < later * (claim_supply + minted) + (claim_supply
                + minted),
    ;
}

/// A deposit never lowers the price of a claim token: the pool per claim
/// token after it is at least the pool per claim token before it (stated
/// with the two fractions multiplied out).
pub proof fn lemma_deposit_keeps_price(amount: nat, claim_supply: nat, pool_balance: nat)
    requires
        pool_balance > 0,
        claim_supply > 0,
    ensures
        pool_balance * (claim_supply + claim_for_deposit(amount, claim_supply, pool_balance))
            <= (pool_balance + amount) * claim_supply,
{
    let minted = claim_for_deposit(amount, claim_supply, pool_balance);
    lemma_floor_times_divisor(amount * claim_supply, pool_balance);
    assert(pool_balance * (claim_supply + minted) <= (pool_balance + amount) * claim_supply)
        by (nonlinear_arith)
        requires
            minted * pool_balance <= amount * claim_supply,
    ;
}

/// A holder of no more than the whole supply is owed no more than the whole
/// pool, so that no withdrawal can leave the pool in debt.
pub proof fn lemma_owed_within_pool(claim: nat, claim_supply: nat, pool_balance: nat)
    requires
        claim <= claim_supply,
    ensures
        underlying_for_claim(claim, claim_supply, pool_balance) <= pool_balance,
{
    if claim_supply > 0 {
        assert(claim * pool_balance <= pool_balance * claim_supply) by (nonlinear_arith)
            requires
                claim <= claim_supply,
        ;
        lemma_quotient_below(claim * pool_balance, pool_balance, claim_supply);
    }
}

/// `floor(a * b / d)`, computed in twice the width.
///
/// Fails with `DivisionByZero` where `d` is zero, and with `Overflow` where
/// the quotient does not fit in sixty-four bits.
fn mul_div(a: u64, b: u64, d: u64) -> (r: Result<u64, ErrorCode>)
    ensures
        d == 0 ==> r == Err::<u64, ErrorCode>(ErrorCode::DivisionByZero),
        d != 0 && (a * b) / (d as int) > u64::MAX ==> r == Err::<u64, ErrorCode>(
            ErrorCode::Overflow,
        ),
        d != 0 && (a * b) / (d as int) <= u64::MAX ==> r == Ok::<u64, ErrorCode>(
            ((a * b) / (d as int)) as u64,
        ),
{
    proof {
        lemma_product_fits(a, b);
    }
    let product: u128 = match (a as u128).checked_mul(b as u128) {
        Some(p) => p,
        None => {
            return Err(ErrorCode::Overflow);
        },
    };
    let quotient: u128 = match product.checked_div(d as u128) {
        Some(q) => q,
        None => {
            return Err(ErrorCode::DivisionByZero);
        },
    };
    if quotient > u64::MAX as u128 {
        Err(ErrorCode::Overflow)
    } else {
        Ok(quotient as u64)
    }
}

/// The claim tokens to mint for a deposit of `deposit_amount`.
///
/// Fails with `DivisionByZero` where claim tokens are outstanding against an
/// empty pool, and with `Overflow` where the amount does not fit in
/// sixty-four bits.
pub fn claim_minted(deposit_amount: u64, claim_supply: u64, pool_balance: u64) -> (r: Result<
    u64,
    ErrorCode,
>)
    ensures
        claim_supply == 0 ==> r == Ok::<u64, ErrorCode>(deposit_amount),
        claim_supply > 0 && pool_balance == 0 ==> r == Err::<u64, ErrorCode>(
            ErrorCode::DivisionByZero,
        ),
        !(claim_supply > 0 && pool_balance == 0) && claim_for_deposit(
            deposit_amount as nat,
            claim_supply as nat,
            pool_balance as nat,
        ) > u64::MAX ==> r == Err::<u64, ErrorCode>(ErrorCode::Overflow),
        !(claim_supply > 0 && pool_balance == 0) && claim_for_deposit(
            deposit_amount as nat,
            claim_supply as nat,
            pool_balance as nat,
        ) <= u64::MAX ==> r == Ok::<u64, ErrorCode>(
            claim_for_deposit(deposit_amount as nat, claim_supply as nat, pool_balance as nat) as u64,
        ),
{
    if claim_supply == 0 {
        Ok(deposit_amount)
    } else {
        mul_div(deposit_amount, claim_supply, pool_balance)
    }
}

/// The asset to pay out for `withdraw_claim_amount` claim tokens.
///
/// Fails with `DivisionByZero` where no claim token is outstanding, and with
/// `Overflow` where the amount does not fit in sixty-four bits.
pub fn underlying_owed(withdraw_claim_amount: u64, claim_supply: u64, pool_balance: u64) -> (r:
    Result<u64, ErrorCode>)
    ensures
        claim_supply == 0 ==> r == Err::<u64, ErrorCode>(ErrorCode::DivisionByZero),
        claim_supply > 0 && underlying_for_claim(
            withdraw_claim_amount as nat,
            claim_supply as nat,
            pool_balance as nat,
        ) > u64::MAX ==> r == Err::<u64, ErrorCode>(ErrorCode::Overflow),
        claim_supply > 0 && underlying_for_claim(
            withdraw_claim_amount as nat,
            claim_supply as nat,
            pool_balance as nat,
        ) <= u64::MAX ==> r == Ok::<u64, ErrorCode>(
            underlying_for_claim(
                withdraw_claim_amount as nat,
                claim_supply as nat,
                pool_balance as nat,
            ) as u64,
        ),
{
    mul_div(withdraw_claim_amount, pool_balance, claim_supply)
}

} // verus!
