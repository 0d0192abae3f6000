//! What holds of premiums and share prices, whatever the amounts.

use vstd::prelude::*;
use vstd::arithmetic::div_mod::{lemma_div_is_ordered, lemma_fundamental_div_mod};
use vstd::arithmetic::mul::lemma_mul_inequality;

use crate::math;
use crate::pool::model;
use crate::pool::model::{BPS, PRECISION};
use crate::pool::types::{CoverageType, PolicyParams, PoolConfig};

verus! {

/// Division of what is not negative rounds down: the quotient times the divisor is at most the
/// dividend, and less than one divisor away from it.
proof fn lemma_quot_rounds_down(a: int, b: int)
    requires
        0 <= a,
        0 < b,
    ensures
        0 <= math::quot(a, b),
        math::quot(a, b) * b <= a < math::quot(a, b) * b + b,
{
    lemma_fundamental_div_mod(a, b);
    assert(math::quot(a, b) * b == b * (a / b)) by (nonlinear_arith)
        requires
            math::quot(a, b) == a / b,
    ;
    assert(0 <= a / b) by (nonlinear_arith)
        requires
            0 <= a,
            0 < b,
    ;
}

/// Division of what is not negative keeps order.
proof fn lemma_quot_is_ordered(a: int, a2: int, b: int)
    requires
        0 <= a <= a2,
        0 < b,
    ensures
        0 <= math::quot(a, b) <= math::quot(a2, b),
{
    lemma_div_is_ordered(a, a2, b);
    lemma_quot_rounds_down(a, b);
}

/// The steps of a premium, in order, for two policies of which the second asks for no less
/// coverage and no less time.
proof fn lemma_premium_steps(config: PoolConfig, low: PolicyParams, high: PolicyParams)
    requires
        0 <= low.coverage_amount <= high.coverage_amount,
        low.duration_days <= high.duration_days,
        low.coverage_type == high.coverage_type,
    ensures
        0 <= model::premium(config, low) <= model::premium(config, high),
{
    let rate = config.base_premium_rate_bps as int;
    lemma_mul_inequality(low.coverage_amount as int, high.coverage_amount as int, rate);
    assert(0 <= low.coverage_amount * rate) by (nonlinear_arith)
        requires
            0 <= low.coverage_amount,
            0 <= rate,
    ;
    lemma_quot_is_ordered(low.coverage_amount * rate, high.coverage_amount * rate, BPS as int);
    let (base, base2) = (model::annual_base(config, low), model::annual_base(config, high));
    let (time, time2) = (
        model::duration_factor(low.duration_days),
        model::duration_factor(high.duration_days),
    );
    assert(0 <= time <= time2);
    assert(0 <= base * time <= base2 * time2) by (nonlinear_arith)
        requires
            0 <= base <= base2,
            0 <= time <= time2,
    ;
    lemma_quot_is_ordered(base * time, base2 * time2, PRECISION as int);
    let risk = model::risk_percent(low.coverage_type);
    let (part, part2) = (model::duration_base(config, low), model::duration_base(config, high));
    assert(0 <= part * risk <= part2 * risk) by (nonlinear_arith)
        requires
            0 <= part <= part2,
            0 <= risk,
    ;
    lemma_quot_is_ordered(part * risk, part2 * risk, 100);
}

/// A premium is never negative.
pub proof fn premium_is_never_negative(config: PoolConfig, params: PolicyParams)
    requires
        params.coverage_amount >= 0,
    ensures
        model::premium(config, params) >= 0,
{
    lemma_premium_steps(config, params, params);
}

/// A policy that covers nothing, or lasts no time, costs nothing.
pub proof fn premium_is_zero_when_coverage_or_duration_is_zero(
    config: PoolConfig,
    params: PolicyParams,
)
    requires
        params.coverage_amount == 0 || params.duration_days == 0,
    ensures
        model::premium(config, params) == 0,
{
    let rate = config.base_premium_rate_bps as int;
    let base = model::annual_base(config, params);
    let time = model::duration_factor(params.duration_days);
    assert(params.coverage_amount == 0 ==> params.coverage_amount * rate == 0)
        by (nonlinear_arith);
    assert(params.coverage_amount == 0 ==> base == 0);
    assert(base == 0 || time == 0 ==> base * time == 0) by (nonlinear_arith);
    assert(base * time == 0);
    assert(model::duration_base(config, params) == 0);
    assert(model::duration_base(config, params) * model::risk_percent(params.coverage_type) == 0);
}

/// More coverage never costs less.
pub proof fn premium_is_monotonic_in_coverage_amount(
    config: PoolConfig,
    params: PolicyParams,
    higher: i128,
)
    requires
        0 <= params.coverage_amount <= higher,
    ensures
        model::premium(config, params) <= model::premium(
            config,
            (PolicyParams { coverage_amount: higher, ..params }),
        ),
{
    lemma_premium_steps(config, params, PolicyParams { coverage_amount: higher, ..params });
}

/// A longer policy never costs less.
pub proof fn premium_is_monotonic_in_duration(config: PoolConfig, params: PolicyParams, longer: u32)
    requires
        0 <= params.coverage_amount,
        params.duration_days <= longer,
    ensures
        model::premium(config, params) <= model::premium(
            config,
            (PolicyParams { duration_days: longer, ..params }),
        ),
{
    lemma_premium_steps(config, params, PolicyParams { duration_days: longer, ..params });
}

/// The categories are ranked by risk: for the same coverage and time, a flight costs no more than
/// a depeg, a depeg no more than a crash, a crash no more than a liquidation, and a liquidation
/// no more than a smart contract.
pub proof fn premium_follows_risk(config: PoolConfig, params: PolicyParams)
    requires
        0 <= params.coverage_amount,
    ensures
        ({
            let price = |t: CoverageType|
                model::premium(config, PolicyParams { coverage_type: t, ..params });
            price(CoverageType::FlightDelay) <= price(CoverageType::StablecoinDepeg) <= price(
                CoverageType::MarketCrash,
            ) <= price(CoverageType::LiquidationShield) <= price(CoverageType::SmartContractRisk)
        }),
{
    let rate = config.base_premium_rate_bps as int;
    let base = model::annual_base(config, params);
    let time = model::duration_factor(params.duration_days);
    assert(0 <= params.coverage_amount * rate) by (nonlinear_arith)
        requires
            0 <= params.coverage_amount,
            0 <= rate,
    ;
    lemma_quot_rounds_down(params.coverage_amount * rate, BPS as int);
    assert(0 <= base * time) by (nonlinear_arith)
        requires
            0 <= base,
            0 <= time,
    ;
    lemma_quot_rounds_down(base * time, PRECISION as int);
    let part = model::duration_base(config, params);
    lemma_quot_is_ordered(part * 80, part * 100, 100);
    lemma_quot_is_ordered(part * 100, part * 150, 100);
    lemma_quot_is_ordered(part * 150, part * 200, 100);
    lemma_quot_is_ordered(part * 200, part * 300, 100);
}

/// A deposit never mints shares worth more than what was deposited, and it is short of that by
/// less than one share.
pub proof fn minting_creates_no_value(capital: int, shares: int, amount: int)
    requires
        capital > 0,
        shares > 0,
        amount >= 0,
    ensures
        model::minted(capital, shares, amount) >= 0,
        model::minted(capital, shares, amount) * capital <= amount * shares,
        amount * shares < (model::minted(capital, shares, amount) + 1) * capital,
{
    assert(0 <= amount * shares) by (nonlinear_arith)
        requires
            0 <= amount,
            0 <= shares,
    ;
    lemma_quot_rounds_down(amount * shares, capital);
    let m = model::minted(capital, shares, amount);
    assert((m + 1) * capital == m * capital + capital) by (nonlinear_arith);
}

/// Into a pool without shares or without capital, a deposit mints one share per unit.
pub proof fn first_deposit_is_one_to_one(capital: int, shares: int, amount: int)
    requires
        capital == 0 || shares == 0,
    ensures
        model::minted(capital, shares, amount) == amount,
{
}

/// A deposit never lowers the capital behind a share. (`a / b <= c / d` is written as
/// `a * d <= c * b`.)
pub proof fn deposit_dilutes_nobody(capital: int, shares: int, amount: int)
    requires
        capital > 0,
        shares > 0,
        amount >= 0,
    ensures
        capital * (shares + model::minted(capital, shares, amount)) <= (capital + amount) * shares,
{
    minting_creates_no_value(capital, shares, amount);
    let m = model::minted(capital, shares, amount);
    assert(capital * (shares + m) == capital * shares + m * capital) by (nonlinear_arith);
    assert((capital + amount) * shares == capital * shares + amount * shares) by (nonlinear_arith);
}

/// What a withdrawal pays is not negative, is no more than its part of the capital, and so never
/// more than the capital. It is short of its part by less than one unit.
pub proof fn withdrawal_pays_at_most_its_part(capital: int, total_shares: int, shares: int)
    requires
        capital >= 0,
        total_shares > 0,
        0 <= shares <= total_shares,
    ensures
        0 <= model::redeemed(capital, total_shares, shares) <= capital,
        model::redeemed(capital, total_shares, shares) * total_shares <= shares * capital,
        shares * capital < (model::redeemed(capital, total_shares, shares) + 1) * total_shares,
{
    assert(0 <= shares * capital) by (nonlinear_arith)
        requires
            0 <= shares,
            0 <= capital,
    ;
    lemma_quot_rounds_down(shares * capital, total_shares);
    let out = model::redeemed(capital, total_shares, shares);
    assert((out + 1) * total_shares == out * total_shares + total_shares) by (nonlinear_arith);
    assert(out <= capital) by (nonlinear_arith)
        requires
            out * total_shares <= shares * capital,
            0 <= shares <= total_shares,
            0 < total_shares,
            0 <= capital,
    ;
}

/// A withdrawal never lowers the capital behind a share that stays. (`a / b <= c / d` is written
/// as `a * d <= c * b`.)
pub proof fn withdrawal_hurts_nobody(capital: int, total_shares: int, shares: int)
    requires
        capital >= 0,
        total_shares > 0,
        0 <= shares <= total_shares,
    ensures
        capital * (total_shares - shares) <= (capital - model::redeemed(
            capital,
            total_shares,
            shares,
        )) * total_shares,
{
    withdrawal_pays_at_most_its_part(capital, total_shares, shares);
    let out = model::redeemed(capital, total_shares, shares);
    assert(capital * (total_shares - shares) == capital * total_shares - shares * capital)
        by (nonlinear_arith);
    assert((capital - out) * total_shares == capital * total_shares - out * total_shares)
        by (nonlinear_arith);
}

/// Whoever withdraws all shares of the pool gets all of its capital.
pub proof fn last_withdrawal_takes_everything(capital: int, total_shares: int)
    requires
        capital >= 0,
        total_shares > 0,
    ensures
        model::redeemed(capital, total_shares, total_shares) == capital,
{
    assert(0 <= total_shares * capital) by (nonlinear_arith)
        requires
            0 < total_shares,
            0 <= capital,
    ;
    lemma_quot_rounds_down(total_shares * capital, total_shares);
    let out = model::redeemed(capital, total_shares, total_shares);
    assert(out == capital) by (nonlinear_arith)
        requires
            out * total_shares <= total_shares * capital < out * total_shares + total_shares,
            0 < total_shares,
    ;
}

/// Whoever deposits and withdraws the same shares at once gets back no more than they paid in,
/// and exactly that where the pool was empty.
pub proof fn deposit_then_withdrawal_gains_nothing(capital: int, shares: int, amount: int)
    requires
        capital >= 0,
        shares >= 0,
        shares == 0 ==> capital == 0,
        amount > 0,
    ensures
        ({
            let m = model::minted(capital, shares, amount);
            let back = model::redeemed(capital + amount, shares + m, m);
            &&& 0 <= m
            &&& 0 <= back <= amount
            &&& shares == 0 ==> back == amount
        }),
{
    let m = model::minted(capital, shares, amount);
    if shares == 0 {
        last_withdrawal_takes_everything(amount, amount);
    } else {
        if capital > 0 {
            minting_creates_no_value(capital, shares, amount);
        }
        assert(m * capital <= amount * shares) by (nonlinear_arith)
            requires
                capital == 0 || m * capital <= amount * shares,
                0 < amount,
                0 < shares,
        ;
        withdrawal_pays_at_most_its_part(capital + amount, shares + m, m);
        let back = model::redeemed(capital + amount, shares + m, m);
        assert(back <= amount) by (nonlinear_arith)
            requires
                back * (shares + m) <= m * (capital + amount),
                m * capital <= amount * shares,
                0 < shares,
                0 <= m,
        ;
    }
}

} // verus!
