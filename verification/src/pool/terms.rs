//! What the pool's calls come to in plain numbers: prices, levels, times, and who gets what.

use vstd::prelude::*;

use crate::address::Address;
use crate::math;
use crate::pool::contract::RefractPool;
use crate::pool::model;
use crate::pool::model::PoolState;
use crate::pool::types::{
    CoverageType, OracleData, Policy, PolicyParams, PolicyRegistration, PolicyStatus, PoolConfig,
    PoolEffect, PoolError, PoolEvent, PoolStats, RegistryCoverageType, Settings,
};

verus! {

/// Whether `x` is a value of type `i128`.
pub open spec fn is_i128(x: int) -> bool {
    -0x8000_0000_0000_0000_0000_0000_0000_0000 <= x < 0x8000_0000_0000_0000_0000_0000_0000_0000
}

proof fn lemma_minted(capital: int, shares: int, amount: int, minted: int)
    requires
        shares == 0 || capital == 0 ==> minted == amount,
        shares != 0 && capital != 0 ==> math::is_quotient(amount * shares, capital, minted),
    ensures
        minted == model::minted(capital, shares, amount),
{
    if shares != 0 && capital != 0 {
        math::there_is_one_quotient(amount * shares, capital, minted);
    }
}

proof fn lemma_redeemed(capital: int, total: int, shares: int, out: int)
    requires
        math::is_quotient(shares * capital, total, out),
        total != 0,
    ensures
        out == model::redeemed(capital, total, shares),
{
    math::there_is_one_quotient(shares * capital, total, out);
}

// ── Beginnings ─────────────────────────────────────────────────────────────────

/// A new pool holds nothing. Initialization wires it to the three addresses given and sets a base
/// rate of 3%, a cap of 80%, policies of 10 to 5,000 USDC and no lockup.
pub proof fn a_pool_starts_empty(s: PoolState, admin: Address, token: Address, registry: Address)
    ensures
        model::new_pool() == (PoolState {
            settings: None,
            total_capital: 0,
            total_coverage: 0,
            total_premiums: 0,
            total_shares: 0,
            next_policy_id: 0,
            shares: Map::empty(),
            last_deposits: Map::empty(),
            policies: Map::empty(),
            user_policies: Map::empty(),
            oracle_data: Map::empty(),
        }),
        s.initialized(admin, token, registry) == (PoolState {
            settings: Some(
                Settings {
                    admin,
                    usdc_token: token,
                    policy_registry: registry,
                    config: PoolConfig {
                        base_premium_rate_bps: 300,
                        max_utilization_bps: 8_000,
                        min_coverage: 100_000_000,
                        max_coverage: 50_000_000_000,
                        lockup_days: 0,
                    },
                },
            ),
            total_capital: 0,
            total_coverage: 0,
            total_premiums: 0,
            total_shares: 0,
            next_policy_id: 0,
            ..s
        }),
{
}

/// A result and its exact form are the same result.
pub proof fn exact_results_are_results(r: Result<i128, PoolError>)
    ensures
        r is Ok <==> model::exact(r) is Ok,
        r matches Ok(x) ==> model::exact(r)->Ok_0 == x,
        r matches Err(e) ==> model::exact(r)->Err_0 == e,
{
}

// ── Premiums ───────────────────────────────────────────────────────────────────

/// The premium is in proportion to the coverage, the base rate, the days and the risk: it is at
/// most `coverage * rate / 10_000 * days / 365 * risk / 100`, and short of that by less than
/// `risk / 100 * (days / 365 + coverage * rate / 10^11 + 1) + 1`, which is what rounding can
/// take. (Both sides are multiplied by `365 * 10^13`.)
pub proof fn premium_is_in_proportion(config: PoolConfig, params: PolicyParams)
    requires
        params.coverage_amount >= 0,
    ensures
        ({
            let yearly = params.coverage_amount * config.base_premium_rate_bps;
            let days = params.duration_days as int;
            let risk = match params.coverage_type {
                CoverageType::StablecoinDepeg => 100int,
                CoverageType::MarketCrash => 150,
                CoverageType::LiquidationShield => 200,
                CoverageType::SmartContractRisk => 300,
                CoverageType::FlightDelay => 80,
            };
            let price = model::premium(config, params) * 3_650_000_000_000_000;
            &&& price <= yearly * days * risk * 10_000_000
            &&& price > yearly * days * risk * 10_000_000 - risk * days * 100_000_000_000 - 365
                * risk * yearly - 36_500_000_000_000 * risk - 3_650_000_000_000_000
        }),
{
    let rate = config.base_premium_rate_bps as int;
    let yearly = params.coverage_amount * rate;
    assert(yearly >= 0) by (nonlinear_arith)
        requires
            params.coverage_amount >= 0,
            rate >= 0,
            yearly == params.coverage_amount * rate,
    ;
    let days = params.duration_days as int;
    let scaled = days * 10_000_000;
    let risk = model::risk_percent(params.coverage_type);
    let base = model::annual_base(config, params);
    let time = model::duration_factor(params.duration_days);
    let part = model::duration_base(config, params);
    let price = model::premium(config, params);
    assert(base * 10_000 <= yearly < base * 10_000 + 10_000);
    assert(time * 365 <= scaled < time * 365 + 365);
    assert(base >= 0 && time >= 0);
    assert(base * time >= 0) by (nonlinear_arith)
        requires
            base >= 0,
            time >= 0,
    ;
    assert(part * 10_000_000 <= base * time < part * 10_000_000 + 10_000_000);
    assert(part >= 0);
    assert(part * risk >= 0) by (nonlinear_arith)
        requires
            part >= 0,
            risk >= 0,
    ;
    assert(price * 100 <= part * risk < price * 100 + 100);
    // In the product of the yearly base and the time, each factor is short by less than one.
    assert(base * time * 3_650_000 <= yearly * scaled) by (nonlinear_arith)
        requires
            0 <= base * 10_000 <= yearly,
            0 <= time * 365 <= scaled,
    ;
    assert(base * time * 3_650_000 >= yearly * scaled - 10_000 * scaled - 365 * yearly)
        by (nonlinear_arith)
        requires
            0 <= yearly - base * 10_000 <= 10_000,
            0 <= scaled - time * 365 <= 365,
            base >= 0,
            time >= 0,
    ;
    let whole = yearly * scaled;
    assert(part * 36_500_000_000_000 <= whole);
    assert(part * 36_500_000_000_000 > whole - 10_000 * scaled - 365 * yearly
        - 36_500_000_000_000);
    let slack = 10_000 * scaled + 365 * yearly + 36_500_000_000_000;
    assert(part * risk * 36_500_000_000_000 <= whole * risk) by (nonlinear_arith)
        requires
            part * 36_500_000_000_000 <= whole,
            risk >= 0,
    ;
    assert(part * risk * 36_500_000_000_000 >= (whole - slack) * risk) by (nonlinear_arith)
        requires
            part * 36_500_000_000_000 >= whole - slack,
            risk >= 0,
    ;
    assert((whole - slack) * risk == whole * risk - slack * risk) by (nonlinear_arith);
    assert(slack * risk == risk * days * 100_000_000_000 + 365 * risk * yearly
        + 36_500_000_000_000 * risk) by (nonlinear_arith)
        requires
            slack == 10_000 * (days * 10_000_000) + 365 * yearly + 36_500_000_000_000,
    ;
    assert(whole * risk == yearly * days * risk * 10_000_000) by (nonlinear_arith)
        requires
            whole == yearly * (days * 10_000_000),
    ;
}

/// The premium is rounded toward zero four times: the yearly base to a whole unit, the years to a
/// ten-millionth, their product to a whole unit, and so is what the risk makes of it.
pub proof fn premium_is_rounded_step_by_step(
    config: PoolConfig,
    params: PolicyParams,
    base: int,
    years: int,
    part: int,
    risk: int,
    price: int,
)
    requires
        risk == (match params.coverage_type {
            CoverageType::StablecoinDepeg => 100int,
            CoverageType::MarketCrash => 150,
            CoverageType::LiquidationShield => 200,
            CoverageType::SmartContractRisk => 300,
            CoverageType::FlightDelay => 80,
        }),
        math::is_quotient(params.coverage_amount * config.base_premium_rate_bps, 10_000, base),
        math::is_quotient(params.duration_days * 10_000_000, 365, years),
        math::is_quotient(base * years, 10_000_000, part),
        math::is_quotient(part * risk, 100, price),
    ensures
        model::premium(config, params) == price,
        model::premium_fits(config, params) <==> {
            &&& is_i128(params.coverage_amount * config.base_premium_rate_bps)
            &&& is_i128(base * years)
            &&& is_i128(part * risk)
        },
{
    math::there_is_one_quotient(
        params.coverage_amount * config.base_premium_rate_bps,
        10_000,
        base,
    );
    math::there_is_one_quotient(params.duration_days * 10_000_000, 365, years);
    math::there_is_one_quotient(base * years, 10_000_000, part);
    math::there_is_one_quotient(part * risk, 100, price);
}

/// A policy is quoted exactly where the pool is initialized, the size is between the smallest and
/// the largest, and all coverage together stays within the part of the capital that may be
/// underwritten, rounded toward zero. The quote is the premium.
pub proof fn a_quote_is_given_exactly_where_there_is_room(
    s: PoolState,
    params: PolicyParams,
    room: int,
)
    requires
        math::is_quotient(
            s.total_capital * s.settings->0.config.max_utilization_bps,
            10_000,
            room,
        ),
    ensures
        ({
            let config = s.settings->0.config;
            let quote = s.premium_quote(params);
            let sized = config.min_coverage <= params.coverage_amount <= config.max_coverage;
            &&& quote is Ok <==> s.settings is Some && sized && s.total_coverage
                + params.coverage_amount <= room
            &&& quote matches Ok(price) ==> price == model::premium(config, params)
            &&& quote matches Err(e) ==> e == (if s.settings is None {
                PoolError::NotInitialized
            } else {
                PoolError::InsufficientCapacity
            })
            &&& s.total_capital >= 0 ==> (quote is Ok <==> s.settings is Some && sized && (
            s.total_coverage + params.coverage_amount) * 10_000 <= s.total_capital
                * config.max_utilization_bps)
        }),
{
    let bps = s.settings->0.config.max_utilization_bps as int;
    math::there_is_one_quotient(s.total_capital * bps, 10_000, room);
    if s.total_capital >= 0 {
        assert(s.total_capital * bps >= 0) by (nonlinear_arith)
            requires
                s.total_capital >= 0,
                bps >= 0,
        ;
    }
}

/// A quote can be computed wherever each number on the way is an `i128`. What is refused for its
/// size needs none of them.
pub proof fn a_quote_overflows_only_where_a_number_does(s: PoolState, params: PolicyParams)
    ensures
        ({
            let config = s.settings->0.config;
            let sized = config.min_coverage <= params.coverage_amount <= config.max_coverage;
            s.premium_quote_fits(params) <==> (s.settings is Some && sized ==> {
                &&& is_i128(s.total_coverage + params.coverage_amount)
                &&& is_i128(s.total_capital * config.max_utilization_bps)
                &&& s.premium_quote(params) is Ok ==> model::premium_fits(config, params)
            })
        }),
{
}

// ── Deposits and withdrawals ───────────────────────────────────────────────────

/// A deposit of anything but nothing into an initialized pool mints its worth in shares: one for
/// one where there is no capital or no share yet, else in proportion, rounded toward zero.
pub proof fn a_deposit_mints_its_worth(s: PoolState, amount: int, minted: int)
    requires
        s.total_shares == 0 || s.total_capital == 0 ==> minted == amount,
        s.total_shares != 0 && s.total_capital != 0 ==> math::is_quotient(
            amount * s.total_shares,
            s.total_capital,
            minted,
        ),
    ensures
        s.share_quote(amount) == (if s.settings is None {
            Err(PoolError::NotInitialized)
        } else if amount <= 0 {
            Err(PoolError::ZeroAmount)
        } else {
            Ok(minted)
        }),
{
    lemma_minted(s.total_capital, s.total_shares, amount, minted);
}

/// A deposit adds the amount to the capital and the minted shares to the total and to the
/// provider's own, takes the time down, and touches nothing else. It collects the amount from the
/// provider.
pub proof fn a_deposit_is_booked(
    s: PoolState,
    provider: Address,
    amount: i128,
    now: u64,
    minted: int,
)
    requires
        s.share_quote(amount as int) == Ok::<int, PoolError>(minted),
        s.provide_fits(provider, amount as int),
    ensures
        ({
            let held = if s.shares.contains_key(provider) {
                s.shares[provider]
            } else {
                0
            };
            s.provided(provider, amount as int, now) == (PoolState {
                total_capital: s.total_capital + amount,
                total_shares: s.total_shares + minted,
                shares: s.shares.insert(provider, held + minted),
                last_deposits: s.last_deposits.insert(provider, now),
                ..s
            })
        }),
        is_i128(minted),
        s.provide_effects(provider, amount) == seq![
            PoolEffect::RequireAuth { address: provider },
            PoolEffect::Collect { token: s.settings->0.usdc_token, from: provider, amount },
            PoolEffect::Publish {
                event: PoolEvent::Provided { provider, amount, shares: minted as i128 },
            },
        ],
{
}

/// A deposit can be recorded wherever each number on the way is an `i128`.
pub proof fn a_deposit_overflows_only_where_a_number_does(
    s: PoolState,
    provider: Address,
    amount: int,
    minted: int,
)
    requires
        s.total_shares == 0 || s.total_capital == 0 ==> minted == amount,
        s.total_shares != 0 && s.total_capital != 0 ==> math::is_quotient(
            amount * s.total_shares,
            s.total_capital,
            minted,
        ),
    ensures
        ({
            let held = if s.shares.contains_key(provider) {
                s.shares[provider]
            } else {
                0
            };
            let worth = s.total_shares == 0 || s.total_capital == 0 || is_i128(
                amount * s.total_shares,
            ) && is_i128(minted);
            &&& s.share_quote_fits(amount) <==> (s.settings is Some && amount > 0 ==> worth)
            &&& s.provide_fits(provider, amount) <==> (s.settings is Some && amount > 0 ==> {
                &&& worth
                &&& is_i128(s.total_capital + amount)
                &&& is_i128(s.total_shares + minted)
                &&& is_i128(held + minted)
            })
        }),
{
    lemma_minted(s.total_capital, s.total_shares, amount, minted);
}

/// Who holds what is what is on record: nothing, where nothing is.
pub proof fn holdings_are_on_record(s: PoolState, user: Address)
    ensures
        s.shares.contains_key(user) ==> s.shares_of(user) == s.shares[user],
        !s.shares.contains_key(user) ==> s.shares_of(user) == 0,
        s.user_policies.contains_key(user) ==> s.policies_of(user) == s.user_policies[user],
        !s.user_policies.contains_key(user) ==> s.policies_of(user) == Seq::<u64>::empty(),
{
}

/// A deposit is locked for the configured days of 86,400 seconds each, counted from the
/// provider's latest deposit. Whoever never deposited is not locked.
pub proof fn a_lockup_lasts_the_configured_days(s: PoolState, provider: Address, now: u64)
    ensures
        !s.last_deposits.contains_key(provider) ==> s.lockup_end(provider) is None && !s.locked(
            provider,
            now,
        ) && s.lockup_end_fits(provider),
        s.last_deposits.contains_key(provider) ==> {
            let end = s.last_deposits[provider] + s.settings->0.config.lockup_days * 86_400;
            &&& s.lockup_end(provider) == Some(end)
            &&& s.locked(provider, now) <==> now < end
            &&& s.lockup_end_fits(provider) <==> s.settings is Some && end
                < 0x1_0000_0000_0000_0000
        },
{
}

/// A withdrawal, previewed or not, pays the part of the capital that the shares are of all shares,
/// rounded toward zero, and nothing where there are no shares. It is refused where it would leave capital of which more than the
/// cap is underwritten. `used` is what part of the capital that is left would be, in basis points,
/// rounded toward zero.
pub proof fn a_withdrawal_pays_its_worth(s: PoolState, shares: int, out: int, used: int)
    requires
        s.settings is Some,
        s.total_shares == 0 ==> out == 0,
        s.total_shares != 0 ==> math::is_quotient(
            shares * s.total_capital,
            s.total_shares,
            out,
        ),
        s.total_capital > out ==> math::is_quotient(
            s.total_coverage * 10_000,
            s.total_capital - out,
            used,
        ),
    ensures
        ({
            let config = s.settings->0.config;
            let locked = s.total_capital > out && used > config.max_utilization_bps;
            &&& s.redemption(shares) == (if shares > s.total_shares {
                Err(PoolError::InsufficientShares)
            } else if locked {
                Err(PoolError::CapitalLocked)
            } else {
                Ok(out)
            })
            &&& s.total_coverage >= 0 && s.total_capital > out ==> (locked <==> s.total_coverage
                * 10_000 >= (config.max_utilization_bps + 1) * (s.total_capital - out))
            &&& s.redemption_fits(shares) <==> (shares <= s.total_shares ==> {
                &&& s.total_shares != 0 ==> is_i128(shares * s.total_capital) && is_i128(out)
                &&& is_i128(s.total_capital - out)
                &&& s.total_capital > out ==> is_i128(s.total_coverage * 10_000)
            })
        }),
{
    if s.total_shares != 0 {
        lemma_redeemed(s.total_capital, s.total_shares, shares, out);
    }
    let left = s.total_capital - out;
    if left > 0 {
        math::there_is_one_quotient(s.total_coverage * 10_000, left, used);
        let cap = s.settings->0.config.max_utilization_bps as int;
        if s.total_coverage >= 0 {
            assert(used > cap <==> s.total_coverage * 10_000 >= (cap + 1) * left)
                by (nonlinear_arith)
                requires
                    left > 0,
                    0 <= s.total_coverage * 10_000 - used * left < left,
            ;
        }
    }
}

/// Only a provider who has the shares, and whose lockup is over, withdraws. Every refusal has its
/// own reason, in this order: no pool, no shares asked for, too few held, the lockup, and what
/// refuses the preview.
pub proof fn a_withdrawal_is_for_those_who_hold_the_shares(
    s: PoolState,
    provider: Address,
    shares: int,
    now: u64,
)
    ensures
        ({
            let held = if s.shares.contains_key(provider) {
                s.shares[provider]
            } else {
                0
            };
            let end = s.last_deposits[provider] + s.settings->0.config.lockup_days * 86_400;
            let locked = s.last_deposits.contains_key(provider) && now < end;
            &&& s.withdrawal_quote(shares) == (if s.settings is None {
                Err(PoolError::NotInitialized)
            } else if shares <= 0 {
                Err(PoolError::ZeroAmount)
            } else {
                s.redemption(shares)
            })
            &&& s.withdrawal(provider, shares, now) == (if s.settings is None {
                Err(PoolError::NotInitialized)
            } else if shares <= 0 {
                Err(PoolError::ZeroAmount)
            } else if held < shares {
                Err(PoolError::InsufficientShares)
            } else if locked {
                Err(PoolError::LockupActive)
            } else {
                s.redemption(shares)
            })
            &&& s.withdrawal_quote_fits(shares) <==> (s.settings is Some && shares > 0
                ==> s.redemption_fits(shares))
            &&& s.withdraw_fits(provider, shares, now) <==> (s.settings is Some && 0 < shares
                <= held ==> {
                &&& s.last_deposits.contains_key(provider) ==> end < 0x1_0000_0000_0000_0000
                &&& !locked ==> s.redemption_fits(shares)
            })
        }),
{
}

/// A withdrawal takes what it pays from the capital and the shares from the total and from the
/// provider's own, and touches nothing else. What it pays goes to the provider.
pub proof fn a_withdrawal_is_booked(
    s: PoolState,
    provider: Address,
    shares: i128,
    now: u64,
    out: i128,
)
    requires
        s.withdrawal(provider, shares as int, now) == Ok::<int, PoolError>(out as int),
    ensures
        s.shares.contains_key(provider),
        s.withdrawn(provider, shares as int, out as int) == (PoolState {
            total_capital: s.total_capital - out,
            total_shares: s.total_shares - shares,
            shares: s.shares.insert(provider, s.shares[provider] - shares),
            ..s
        }),
        s.withdraw_effects(provider, shares, out) == seq![
            PoolEffect::RequireAuth { address: provider },
            PoolEffect::Pay { token: s.settings->0.usdc_token, to: provider, amount: out },
            PoolEffect::Publish {
                event: PoolEvent::Withdrawn { provider, shares, amount: out },
            },
        ],
{
}

// ── Purchases ──────────────────────────────────────────────────────────────────

/// A category keeps its name in the registry.
pub proof fn categories_keep_their_names(t: CoverageType)
    ensures
        model::registry_name(t) == (match t {
            CoverageType::StablecoinDepeg => RegistryCoverageType::StablecoinDepeg,
            CoverageType::MarketCrash => RegistryCoverageType::MarketCrash,
            CoverageType::LiquidationShield => RegistryCoverageType::LiquidationShield,
            CoverageType::SmartContractRisk => RegistryCoverageType::SmartContractRisk,
            CoverageType::FlightDelay => RegistryCoverageType::FlightDelay,
        }),
{
}

/// A policy starts when it is bought and lasts exactly the days bought, of 86,400 seconds each. It
/// is the holder's, has the next id and the terms asked for, and cost the quote.
pub proof fn a_policy_is_what_was_bought(
    s: PoolState,
    holder: Address,
    params: PolicyParams,
    now: u64,
)
    requires
        s.premium_quote(params) is Ok,
        s.buy_fits(holder, params, now),
    ensures
        ({
            let policy = s.bought(holder, params, now).policies[s.next_policy_id];
            &&& policy.start_time == now
            &&& policy.end_time - policy.start_time == params.duration_days * 86_400
            &&& policy.premium_paid == s.premium_quote(params)->Ok_0
            &&& policy == (Policy {
                id: s.next_policy_id,
                holder,
                coverage_type: params.coverage_type,
                coverage_amount: params.coverage_amount,
                premium_paid: policy.premium_paid,
                trigger_threshold: params.trigger_threshold,
                start_time: now,
                end_time: policy.end_time,
                status: PolicyStatus::Active,
                payout_at: None,
            })
        }),
        model::policy_end(now, params.duration_days) == now + params.duration_days * 86_400,
{
}

/// A sale adds its premium to the capital and to the premiums and its coverage to the coverage,
/// files the policy, counts its id, lists it last among the holder's, and touches nothing else.
pub proof fn a_sale_is_booked(s: PoolState, holder: Address, params: PolicyParams, now: u64)
    requires
        s.premium_quote(params) is Ok,
        s.buy_fits(holder, params, now),
    ensures
        ({
            let next = s.bought(holder, params, now);
            let id = s.next_policy_id;
            let price = s.premium_quote(params)->Ok_0;
            let listed = if s.user_policies.contains_key(holder) {
                s.user_policies[holder]
            } else {
                Seq::empty()
            };
            &&& next.next_policy_id == id + 1
            &&& next == (PoolState {
                total_capital: s.total_capital + price,
                total_premiums: s.total_premiums + price,
                total_coverage: s.total_coverage + params.coverage_amount,
                next_policy_id: next.next_policy_id,
                policies: s.policies.insert(id, next.policies[id]),
                user_policies: s.user_policies.insert(holder, listed.push(id)),
                ..s
            })
        }),
{
    let next = s.bought(holder, params, now);
    assert(next.policies =~= s.policies.insert(
        s.next_policy_id,
        next.policies[s.next_policy_id],
    ));
}

/// A sale collects the premium from the holder and has the pool's registry index the policy with
/// the terms that the pool has filed it with.
pub proof fn a_sale_is_charged_and_registered(
    s: PoolState,
    holder: Address,
    params: PolicyParams,
    now: u64,
)
    ensures
        ({
            let policy = s.bought(holder, params, now).policies[s.next_policy_id];
            let name = match params.coverage_type {
                CoverageType::StablecoinDepeg => RegistryCoverageType::StablecoinDepeg,
                CoverageType::MarketCrash => RegistryCoverageType::MarketCrash,
                CoverageType::LiquidationShield => RegistryCoverageType::LiquidationShield,
                CoverageType::SmartContractRisk => RegistryCoverageType::SmartContractRisk,
                CoverageType::FlightDelay => RegistryCoverageType::FlightDelay,
            };
            s.buy_effects(holder, params, now) == seq![
                PoolEffect::RequireAuth { address: holder },
                PoolEffect::Collect {
                    token: s.settings->0.usdc_token,
                    from: holder,
                    amount: policy.premium_paid,
                },
                PoolEffect::RegisterPolicy {
                    registry: s.settings->0.policy_registry,
                    registration: PolicyRegistration {
                        policy_id: s.next_policy_id,
                        holder,
                        coverage_type: name,
                        coverage_amount: params.coverage_amount,
                        premium: policy.premium_paid,
                        expires_at: policy.end_time,
                    },
                },
                PoolEffect::Publish {
                    event: PoolEvent::Bought {
                        holder,
                        id: s.next_policy_id,
                        coverage_amount: params.coverage_amount,
                        premium: policy.premium_paid,
                        end_time: policy.end_time,
                    },
                },
            ]
        }),
{
}

/// A sale can be recorded wherever the quote can be computed, the totals stay `i128`s, the end is
/// a time, and there is an id left and room in the holder's list.
pub proof fn a_sale_overflows_only_where_a_number_does(
    s: PoolState,
    holder: Address,
    params: PolicyParams,
    now: u64,
)
    ensures
        ({
            let listed = if s.user_policies.contains_key(holder) {
                s.user_policies[holder]
            } else {
                Seq::empty()
            };
            s.buy_fits(holder, params, now) <==> {
                &&& s.premium_quote_fits(params)
                &&& s.premium_quote(params) matches Ok(price) ==> {
                    &&& now + params.duration_days * 86_400 < 0x1_0000_0000_0000_0000
                    &&& is_i128(s.total_capital + price)
                    &&& is_i128(s.total_premiums + price)
                    &&& s.next_policy_id < 0xffff_ffff_ffff_ffff
                    &&& listed.len() < 0xffff_ffff
                }
            }
        }),
{
}

// ── Settlement ─────────────────────────────────────────────────────────────────

/// A claim is paid exactly where the policy is active and has not ended, and the latest reading of
/// its own category is less than 30 minutes old and meets the policy's own threshold: a stablecoin
/// below one dollar less a thousand ten-millionths for each basis point of it, a return below its
/// negative, a liquidation or an exploit at all, a delay above it. It pays the coverage. Every refusal has its own reason, in this order: no policy, settled, ended, and no
/// trigger.
pub proof fn a_claim_is_paid_exactly_where_the_trigger_is_met(s: PoolState, id: u64, now: u64)
    ensures
        ({
            let policy = s.policies[id];
            let reading = s.oracle_data[policy.coverage_type];
            let (value, threshold) = (reading.value as int, policy.trigger_threshold as int);
            let met = match policy.coverage_type {
                CoverageType::StablecoinDepeg => value < 10_000_000 - 1_000 * threshold,
                CoverageType::MarketCrash => value < -threshold,
                CoverageType::LiquidationShield => value > 0,
                CoverageType::SmartContractRisk => value > 0,
                CoverageType::FlightDelay => value > threshold,
            };
            let paid = {
                &&& s.policies.contains_key(id)
                &&& policy.status == PolicyStatus::Active
                &&& now <= policy.end_time
                &&& s.oracle_data.contains_key(policy.coverage_type)
                &&& now < reading.updated_at + 1_800
                &&& met
            };
            &&& s.claim(id, now) is Ok <==> paid
            &&& s.claim(id, now) matches Ok(payout) ==> payout == policy.coverage_amount
            &&& s.claim(id, now) matches Err(e) ==> e == (if !s.policies.contains_key(id) {
                PoolError::PolicyNotFound
            } else if policy.status != PolicyStatus::Active {
                PoolError::AlreadyClaimed
            } else if now > policy.end_time {
                PoolError::PolicyExpired
            } else {
                PoolError::PolicyNotTriggered
            })
        }),
{
    let t = s.policies[id].trigger_threshold as int;
    math::there_is_one_quotient(t * 10_000_000, 10_000, 1_000 * t);
}

/// A depeg policy with a threshold of `t` basis points is paid at any fresh price below one dollar
/// less `t` basis points, and at no other.
pub proof fn a_depeg_policy_pays_below_its_own_level(s: PoolState, id: u64, now: u64)
    requires
        s.policies.contains_key(id),
        s.policies[id].status == PolicyStatus::Active,
        s.policies[id].coverage_type == CoverageType::StablecoinDepeg,
        now <= s.policies[id].end_time,
        s.oracle_data.contains_key(CoverageType::StablecoinDepeg),
        now < s.oracle_data[CoverageType::StablecoinDepeg].updated_at + 1_800,
    ensures
        s.claim(id, now) is Ok <==> s.oracle_data[CoverageType::StablecoinDepeg].value < 10_000_000
            - 1_000 * s.policies[id].trigger_threshold,
{
    a_claim_is_paid_exactly_where_the_trigger_is_met(s, id, now);
}

/// A claim takes its payout from the capital and from the coverage, neither of which goes below
/// zero, marks the policy as claimed at that time, and touches nothing else. The payout goes to the
/// holder, and the pool's registry is told.
pub proof fn a_claim_is_booked(s: PoolState, id: u64, now: u64)
    requires
        s.claim(id, now) is Ok,
    ensures
        ({
            let policy = s.policies[id];
            let next = s.claimed(id, now);
            let (capital, coverage) = (
                s.total_capital - policy.coverage_amount,
                s.total_coverage - policy.coverage_amount,
            );
            &&& next.total_capital == if capital < 0 {
                0
            } else {
                capital
            }
            &&& next.total_coverage == if coverage < 0 {
                0
            } else {
                coverage
            }
            &&& next == (PoolState {
                total_capital: next.total_capital,
                total_coverage: next.total_coverage,
                policies: s.policies.insert(
                    id,
                    Policy { status: PolicyStatus::Claimed, payout_at: Some(now), ..policy },
                ),
                ..s
            })
            &&& s.claim_effects(id, now) == seq![
                PoolEffect::Pay {
                    token: s.settings->0.usdc_token,
                    to: policy.holder,
                    amount: policy.coverage_amount,
                },
                PoolEffect::DeactivatePolicy {
                    registry: s.settings->0.policy_registry,
                    policy_id: id,
                },
                PoolEffect::Publish {
                    event: PoolEvent::Claimed {
                        holder: policy.holder,
                        id,
                        payout: policy.coverage_amount,
                        at: now,
                    },
                },
            ]
        }),
{
}

/// A claim can be settled wherever the reading is not from the future, the level of the trigger is
/// an `i128`, and so are the totals less the payout.
pub proof fn a_claim_overflows_only_where_a_number_does(s: PoolState, id: u64, now: u64)
    ensures
        ({
            let policy = s.policies[id];
            let t = policy.trigger_threshold as int;
            let open = s.policies.contains_key(id) && policy.status == PolicyStatus::Active && now
                <= policy.end_time;
            s.claim_fits(id, now) <==> {
                &&& open && s.oracle_data.contains_key(policy.coverage_type) ==> {
                    &&& s.oracle_data[policy.coverage_type].updated_at <= now
                    &&& policy.coverage_type == CoverageType::StablecoinDepeg ==> is_i128(
                        t * 10_000_000,
                    )
                    &&& policy.coverage_type == CoverageType::MarketCrash ==> is_i128(-t)
                }
                &&& s.claim(id, now) is Ok ==> {
                    &&& s.settings is Some
                    &&& is_i128(s.total_capital - policy.coverage_amount)
                    &&& is_i128(s.total_coverage - policy.coverage_amount)
                }
            }
        }),
{
}

/// A policy is swept exactly where it is active and its end has passed. Every refusal has its own
/// reason, in this order: no policy, settled, and not ended.
pub proof fn a_sweep_is_for_policies_that_have_ended(s: PoolState, id: u64, now: u64)
    ensures
        s.expiry(id, now) == (if !s.policies.contains_key(id) {
            Err(PoolError::PolicyNotFound)
        } else if s.policies[id].status != PolicyStatus::Active {
            Err(PoolError::AlreadyClaimed)
        } else if now <= s.policies[id].end_time {
            Err(PoolError::PolicyNotYetExpired)
        } else {
            Ok(())
        }),
        s.expire_fits(id, now) <==> (s.policies.contains_key(id) && s.policies[id].status
            == PolicyStatus::Active && now > s.policies[id].end_time ==> is_i128(
            s.total_coverage - s.policies[id].coverage_amount,
        )),
{
}

/// A sweep takes the policy's coverage from the coverage, which does not go below zero, marks the
/// policy as expired, and touches nothing else: no money moves. The pool's registry is told.
pub proof fn a_sweep_is_booked(s: PoolState, id: u64, now: u64)
    requires
        s.expiry(id, now) is Ok,
    ensures
        ({
            let policy = s.policies[id];
            let next = s.expired(id);
            let coverage = s.total_coverage - policy.coverage_amount;
            let event = PoolEffect::Publish {
                event: PoolEvent::Expired { holder: policy.holder, id, at: now },
            };
            &&& next.total_coverage == if coverage < 0 {
                0
            } else {
                coverage
            }
            &&& next == (PoolState {
                total_coverage: next.total_coverage,
                policies: s.policies.insert(
                    id,
                    Policy { status: PolicyStatus::Expired, ..policy },
                ),
                ..s
            })
            &&& s.settings matches Some(settings) ==> s.expire_effects(id, now) == seq![
                PoolEffect::DeactivatePolicy { registry: settings.policy_registry, policy_id: id },
                event,
            ]
            &&& s.settings is None ==> s.expire_effects(id, now) == seq![event]
        }),
{
}

// ── Administration ─────────────────────────────────────────────────────────────

/// An admin-only call goes through exactly where the caller is the admin.
pub proof fn admin_calls_are_for_the_admin(s: PoolState, caller: Address)
    ensures
        s.admin_check(caller) is Ok <==> s.settings is Some && s.settings->0.admin == caller,
        s.admin_check(caller) matches Err(e) ==> e == (if s.settings is None {
            PoolError::NotInitialized
        } else {
            PoolError::Unauthorized
        }),
{
}

/// Each admin-only call changes what it names, to what was given, and nothing else.
pub proof fn admin_calls_change_what_they_name(
    s: PoolState,
    address: Address,
    config: PoolConfig,
    t: CoverageType,
    value: i128,
    now: u64,
)
    requires
        s.settings is Some,
    ensures
        ({
            let old = s.settings->0;
            &&& s.with_registry(address) == (PoolState {
                settings: Some(
                    Settings {
                        admin: old.admin,
                        usdc_token: old.usdc_token,
                        policy_registry: address,
                        config: old.config,
                    },
                ),
                ..s
            })
            &&& s.with_admin(address) == (PoolState {
                settings: Some(
                    Settings {
                        admin: address,
                        usdc_token: old.usdc_token,
                        policy_registry: old.policy_registry,
                        config: old.config,
                    },
                ),
                ..s
            })
            &&& s.with_config(config) == (PoolState {
                settings: Some(
                    Settings {
                        admin: old.admin,
                        usdc_token: old.usdc_token,
                        policy_registry: old.policy_registry,
                        config,
                    },
                ),
                ..s
            })
            &&& s.with_reading(t, value, now) == (PoolState {
                oracle_data: s.oracle_data.insert(t, OracleData { value, updated_at: now }),
                ..s
            })
        }),
{
}

// ── Views ──────────────────────────────────────────────────────────────────────

/// Looking ids up goes id by id, in order: each gives its policy, or nothing where there is none.
pub proof fn policies_are_looked_up_one_by_one(s: PoolState, ids: Seq<u64>, id: u64)
    ensures
        s.policies_with(Seq::empty()) == Seq::<Policy>::empty(),
        s.policies_with(ids.push(id)) == s.policies_with(ids) + (if s.policies.contains_key(id) {
            seq![s.policies[id]]
        } else {
            seq![]
        }),
{
    assert(ids.push(id).drop_last() =~= ids);
    assert(s.policies_with(ids.push(id)) =~= s.policies_with(ids) + (
    if s.policies.contains_key(id) {
        seq![s.policies[id]]
    } else {
        seq![]
    }));
}

/// The summary gives the totals as they are. Utilization is the coverage per capital in basis
/// points and the share price the capital per share scaled by 1e7, both rounded toward zero. The
/// yield estimate is the part of the base rate that is in use. The capacity is what may be
/// underwritten less what is, and never negative. A pool without capital is not in use, and a pool
/// without shares has a price of one.
pub proof fn a_summary_sums_up(s: PoolState, stats: PoolStats, used: int, price: int, room: int)
    requires
        s.summed_up_by(stats),
        s.total_capital != 0 ==> math::is_quotient(
            s.total_coverage * 10_000,
            s.total_capital,
            used,
        ),
        s.total_capital == 0 ==> used == 0,
        s.total_shares != 0 ==> math::is_quotient(
            s.total_capital * 10_000_000,
            s.total_shares,
            price,
        ),
        s.total_shares == 0 ==> price == 10_000_000,
        s.settings is Some ==> math::is_quotient(
            s.total_capital * s.settings->0.config.max_utilization_bps,
            10_000,
            room,
        ),
        s.settings is None ==> room == 0,
    ensures
        stats.total_capital == s.total_capital,
        stats.total_coverage == s.total_coverage,
        stats.total_shares == s.total_shares,
        stats.utilization_bps == used % 0x1_0000_0000,
        stats.share_price == price,
        ({
            let rate = if s.settings is Some {
                s.settings->0.config.base_premium_rate_bps as int
            } else {
                0
            };
            stats.apy_estimate_bps * 10_000 <= rate * stats.utilization_bps < (
            stats.apy_estimate_bps + 1) * 10_000
        }),
        stats.available_capacity == if room < s.total_coverage {
            0
        } else {
            room - s.total_coverage
        },
{
    lemma_figures(s, used, price, room);
    let rate = s.stats_config().base_premium_rate_bps as int;
    assert(rate * stats.utilization_bps >= 0) by (nonlinear_arith)
        requires
            rate >= 0,
    ;
}

/// A summary can be computed wherever each number on the way is an `i128`, or a `u32` for the
/// yield estimate.
pub proof fn a_summary_overflows_only_where_a_number_does(
    s: PoolState,
    used: int,
    price: int,
    room: int,
)
    requires
        s.settings is Some,
        s.total_capital != 0 ==> math::is_quotient(
            s.total_coverage * 10_000,
            s.total_capital,
            used,
        ),
        s.total_capital == 0 ==> used == 0,
        s.total_shares != 0 ==> math::is_quotient(
            s.total_capital * 10_000_000,
            s.total_shares,
            price,
        ),
        s.total_shares == 0 ==> price == 10_000_000,
        math::is_quotient(
            s.total_capital * s.settings->0.config.max_utilization_bps,
            10_000,
            room,
        ),
    ensures
        ({
            let config = s.settings->0.config;
            s.stats_fit() <==> {
                &&& s.total_capital != 0 ==> is_i128(s.total_coverage * 10_000) && is_i128(used)
                &&& s.total_shares != 0 ==> is_i128(s.total_capital * 10_000_000) && is_i128(price)
                &&& config.base_premium_rate_bps * (used % 0x1_0000_0000) < 0x1_0000_0000
                &&& is_i128(s.total_capital * config.max_utilization_bps)
                &&& is_i128(room - s.total_coverage)
            }
        }),
{
    lemma_figures(s, used, price, room);
}

/// The figures that the summary goes by.
proof fn lemma_figures(s: PoolState, used: int, price: int, room: int)
    requires
        s.total_capital != 0 ==> math::is_quotient(
            s.total_coverage * 10_000,
            s.total_capital,
            used,
        ),
        s.total_capital == 0 ==> used == 0,
        s.total_shares != 0 ==> math::is_quotient(
            s.total_capital * 10_000_000,
            s.total_shares,
            price,
        ),
        s.total_shares == 0 ==> price == 10_000_000,
        s.settings is Some ==> math::is_quotient(
            s.total_capital * s.settings->0.config.max_utilization_bps,
            10_000,
            room,
        ),
        s.settings is None ==> room == 0,
    ensures
        s.utilization() == used,
        s.share_price() == price,
        model::coverage_cap(s.stats_config(), s.total_capital) == room,
{
    if s.total_capital != 0 {
        math::there_is_one_quotient(s.total_coverage * 10_000, s.total_capital, used);
    }
    if s.total_shares != 0 {
        math::there_is_one_quotient(s.total_capital * 10_000_000, s.total_shares, price);
    }
    let bps = s.stats_config().max_utilization_bps as int;
    assert(s.total_capital * 0 == 0) by (nonlinear_arith);
    math::there_is_one_quotient(s.total_capital * bps, 10_000, room);
}

/// The state of a pool is what its fields hold.
pub proof fn a_pools_state_is_what_its_fields_hold(pool: RefractPool, user: Address)
    ensures
        pool@.settings == pool.settings,
        pool@.total_capital == pool.total_capital,
        pool@.total_coverage == pool.total_coverage,
        pool@.total_premiums == pool.total_premiums,
        pool@.total_shares == pool.total_shares,
        pool@.next_policy_id == pool.next_policy_id,
        pool@.shares.dom() == pool.shares@.dom(),
        pool.shares@.contains_key(user) ==> pool@.shares[user] == pool.shares@[user],
        pool@.last_deposits == pool.last_deposits@,
        pool@.policies == pool.policies@,
        pool@.user_policies.dom() == pool.user_policies@.dom(),
        pool.user_policies@.contains_key(user) ==> pool@.user_policies[user]
            == pool.user_policies@[user]@,
        pool@.oracle_data == pool.oracle_data@,
{
    assert(pool@.shares.dom() =~= pool.shares@.dom());
    assert(pool@.user_policies.dom() =~= pool.user_policies@.dom());
}

// ── Call after call ────────────────────────────────────────────────────────────

/// A policy bought for some days is open for exactly those days: it cannot be swept before they
/// are over, and a claim is refused as too late only after.
pub proof fn a_policy_is_open_for_the_days_bought(
    s: PoolState,
    holder: Address,
    params: PolicyParams,
    now: u64,
    later: u64,
)
    requires
        s.premium_quote(params) is Ok,
        s.buy_fits(holder, params, now),
    ensures
        ({
            let next = s.bought(holder, params, now);
            let id = s.next_policy_id;
            let over = later > now + params.duration_days * 86_400;
            &&& next.expiry(id, later) is Ok <==> over
            &&& next.expiry(id, later) == Err::<(), PoolError>(PoolError::PolicyNotYetExpired)
                <==> !over
            &&& next.claim(id, later) == Err::<int, PoolError>(PoolError::PolicyExpired) <==> over
        }),
{
}

/// A policy that is bought, and for whose category a reading is then set, pays its coverage within
/// 30 minutes of the reading and before its own end exactly where the reading meets the threshold
/// that it was bought with.
pub proof fn a_reading_settles_what_was_bought(
    s: PoolState,
    holder: Address,
    params: PolicyParams,
    now: u64,
    value: i128,
    read_at: u64,
    later: u64,
)
    requires
        s.premium_quote(params) is Ok,
        s.buy_fits(holder, params, now),
        read_at <= later < read_at + 1_800,
        later <= now + params.duration_days * 86_400,
    ensures
        ({
            let next = s.bought(holder, params, now).with_reading(
                params.coverage_type,
                value,
                read_at,
            );
            let threshold = params.trigger_threshold;
            let met = match params.coverage_type {
                CoverageType::StablecoinDepeg => value + 1_000 * threshold < 10_000_000,
                CoverageType::MarketCrash => value + threshold < 0,
                CoverageType::LiquidationShield => value > 0,
                CoverageType::SmartContractRisk => value > 0,
                CoverageType::FlightDelay => value > threshold,
            };
            next.claim(s.next_policy_id, later) == (if met {
                Ok(params.coverage_amount as int)
            } else {
                Err(PoolError::PolicyNotTriggered)
            })
        }),
{
    let next = s.bought(holder, params, now).with_reading(params.coverage_type, value, read_at);
    a_claim_is_paid_exactly_where_the_trigger_is_met(next, s.next_policy_id, later);
}

/// A deposit can be withdrawn from the end of the lockup on, and not before: until then it is
/// refused as locked.
pub proof fn a_deposit_is_locked_for_the_configured_days(
    s: PoolState,
    provider: Address,
    amount: int,
    now: u64,
    shares: int,
    later: u64,
)
    requires
        s.share_quote(amount) is Ok,
        0 < shares <= s.provided(provider, amount, now).shares[provider],
    ensures
        s.provided(provider, amount, now).withdrawal(provider, shares, later) == Err::<
            int,
            PoolError,
        >(PoolError::LockupActive) <==> later < now + s.settings->0.config.lockup_days * 86_400,
{
}

} // verus!
