//! The pool as mathematics: its state, its prices, and what each call makes of the state.

use vstd::prelude::*;

use crate::address::Address;
use crate::math;
use crate::pool::types::{
    CoverageType, OracleData, Policy, PolicyParams, PolicyRegistration, PolicyStatus, PoolConfig,
    PoolEffect, PoolError, PoolEvent, PoolStats, RegistryCoverageType, Settings,
};

verus! {

/// Fixed-point scale of amounts and prices.
pub const PRECISION: i128 = 10_000_000;

/// Basis points in a whole.
pub const BPS: i128 = 10_000;

/// Seconds in a day.
pub const SECONDS_PER_DAY: u64 = 86_400;

/// From this age on, in seconds, an oracle reading settles no claim.
pub const MAX_READING_AGE: u64 = 1_800;

/// The state of the pool.
#[verifier::ext_equal]
pub struct PoolState {
    /// `None` until the pool is initialized.
    pub settings: Option<Settings>,
    pub total_capital: int,
    pub total_coverage: int,
    pub total_premiums: int,
    pub total_shares: int,
    pub next_policy_id: u64,
    pub shares: Map<Address, int>,
    pub last_deposits: Map<Address, u64>,
    pub policies: Map<u64, Policy>,
    pub user_policies: Map<Address, Seq<u64>>,
    pub oracle_data: Map<CoverageType, OracleData>,
}

/// A result with its amount taken as a mathematical integer.
pub open spec fn exact(r: Result<i128, PoolError>) -> Result<int, PoolError> {
    match r {
        Ok(x) => Ok(x as int),
        Err(e) => Err(e),
    }
}

/// The configuration that a pool starts with: 3% base rate, 80% utilization, policies of 10 to
/// 5,000 USDC, deposits that may leave at once.
pub open spec fn default_config() -> PoolConfig {
    PoolConfig {
        base_premium_rate_bps: 300,
        max_utilization_bps: 8_000,
        min_coverage: 100_000_000,
        max_coverage: 50_000_000_000,
        lockup_days: 0,
    }
}

/// The state of a pool that nobody has initialized.
pub open spec fn new_pool() -> PoolState {
    PoolState {
        settings: None,
        total_capital: 0,
        total_coverage: 0,
        total_premiums: 0,
        total_shares: 0,
        next_policy_id: 0,
        shares: Map::empty(),
        last_deposits: Map::empty(),
        policies: Map::empty(),
        user_policies: Map::empty(),
        oracle_data: Map::empty(),
    }
}

/// How a coverage category weighs on the premium, in percent.
pub open spec fn risk_percent(t: CoverageType) -> int {
    match t {
        CoverageType::StablecoinDepeg => 100,
        CoverageType::MarketCrash => 150,
        CoverageType::LiquidationShield => 200,
        CoverageType::SmartContractRisk => 300,
        CoverageType::FlightDelay => 80,
    }
}

/// A year's premium at the base rate.
pub open spec fn annual_base(config: PoolConfig, params: PolicyParams) -> int {
    math::quot(params.coverage_amount * config.base_premium_rate_bps, BPS as int)
}

/// The policy's duration in years, scaled by `PRECISION`.
pub open spec fn duration_factor(days: u32) -> int {
    (days * PRECISION) / 365
}

/// The premium for the part of a year that the policy lasts, before its risk is weighed.
pub open spec fn duration_base(config: PoolConfig, params: PolicyParams) -> int {
    math::quot(
        annual_base(config, params) * duration_factor(params.duration_days),
        PRECISION as int,
    )
}

/// The premium: coverage × base rate × years × risk, each step rounded toward zero.
pub open spec fn premium(config: PoolConfig, params: PolicyParams) -> int {
    math::quot(duration_base(config, params) * risk_percent(params.coverage_type), 100)
}

/// Whether the premium's steps stay within an `i128`.
pub open spec fn premium_fits(config: PoolConfig, params: PolicyParams) -> bool {
    &&& math::fits(params.coverage_amount * config.base_premium_rate_bps)
    &&& math::fits(annual_base(config, params) * duration_factor(params.duration_days))
    &&& math::fits(duration_base(config, params) * risk_percent(params.coverage_type))
}

/// The shares that a deposit of `amount` mints.
pub open spec fn minted(capital: int, shares: int, amount: int) -> int {
    if shares == 0 || capital == 0 {
        amount
    } else {
        math::quot(amount * shares, capital)
    }
}

/// Whether minting stays within an `i128`.
pub open spec fn minted_fits(capital: int, shares: int, amount: int) -> bool {
    ||| shares == 0 || capital == 0
    ||| math::fits(amount * shares) && math::fits(minted(capital, shares, amount))
}

/// The capital that `shares` out of `total_shares` are worth.
pub open spec fn redeemed(capital: int, total_shares: int, shares: int) -> int {
    math::quot(shares * capital, total_shares)
}

/// The coverage that `capital` may underwrite.
pub open spec fn coverage_cap(config: PoolConfig, capital: int) -> int {
    math::quot(capital * config.max_utilization_bps, BPS as int)
}

/// The reading below which a stablecoin counts as depegged.
pub open spec fn depeg_price(threshold: int) -> int {
    PRECISION - math::quot(threshold * PRECISION, BPS as int)
}

/// Whether a reading of `value` meets a policy's trigger.
pub open spec fn trigger_met(t: CoverageType, threshold: int, value: int) -> bool {
    match t {
        CoverageType::StablecoinDepeg => value < depeg_price(threshold),
        CoverageType::MarketCrash => value < -threshold,
        CoverageType::LiquidationShield => value > 0,
        CoverageType::SmartContractRisk => value > 0,
        CoverageType::FlightDelay => value > threshold,
    }
}

/// Whether the trigger's level is an `i128`.
pub open spec fn trigger_fits(t: CoverageType, threshold: int) -> bool {
    match t {
        CoverageType::StablecoinDepeg => math::fits(threshold * PRECISION),
        CoverageType::MarketCrash => math::fits(-threshold),
        _ => true,
    }
}

/// The registry's name for a coverage category.
pub open spec fn registry_name(t: CoverageType) -> RegistryCoverageType {
    match t {
        CoverageType::StablecoinDepeg => RegistryCoverageType::StablecoinDepeg,
        CoverageType::MarketCrash => RegistryCoverageType::MarketCrash,
        CoverageType::LiquidationShield => RegistryCoverageType::LiquidationShield,
        CoverageType::SmartContractRisk => RegistryCoverageType::SmartContractRisk,
        CoverageType::FlightDelay => RegistryCoverageType::FlightDelay,
    }
}

/// When a policy bought at `now` ends.
pub open spec fn policy_end(now: u64, days: u32) -> int {
    now + days * SECONDS_PER_DAY
}

impl PoolState {
    /// The shares that `user` holds.
    pub open spec fn shares_of(self, user: Address) -> int {
        if self.shares.contains_key(user) {
            self.shares[user]
        } else {
            0
        }
    }

    /// The ids of the policies that `user` has bought.
    pub open spec fn policies_of(self, user: Address) -> Seq<u64> {
        if self.user_policies.contains_key(user) {
            self.user_policies[user]
        } else {
            Seq::empty()
        }
    }

    /// The policies that `ids` name, in order, without the ids that name none.
    pub open spec fn policies_with(self, ids: Seq<u64>) -> Seq<Policy>
        decreases ids.len(),
    {
        if ids.len() == 0 {
            Seq::empty()
        } else {
            let found = self.policies_with(ids.drop_last());
            if self.policies.contains_key(ids.last()) {
                found.push(self.policies[ids.last()])
            } else {
                found
            }
        }
    }

    /// The configuration. Meant for an initialized pool.
    pub open spec fn config(self) -> PoolConfig {
        self.settings->0.config
    }

    // ── Initialization and administration ──────────────────────────────────────

    /// The state that `initialize` leaves.
    pub open spec fn initialized(
        self,
        admin: Address,
        usdc_token: Address,
        policy_registry: Address,
    ) -> PoolState {
        PoolState {
            settings: Some(
                Settings { admin, usdc_token, policy_registry, config: default_config() },
            ),
            total_capital: 0,
            total_coverage: 0,
            total_premiums: 0,
            total_shares: 0,
            next_policy_id: 0,
            ..self
        }
    }

    /// What an admin-only call by `caller` meets.
    pub open spec fn admin_check(self, caller: Address) -> Result<(), PoolError> {
        match self.settings {
            None => Err(PoolError::NotInitialized),
            Some(settings) => if caller == settings.admin {
                Ok(())
            } else {
                Err(PoolError::Unauthorized)
            },
        }
    }

    /// The state with another registry.
    pub open spec fn with_registry(self, policy_registry: Address) -> PoolState {
        PoolState { settings: Some(Settings { policy_registry, ..self.settings->0 }), ..self }
    }

    /// The state with another admin.
    pub open spec fn with_admin(self, admin: Address) -> PoolState {
        PoolState { settings: Some(Settings { admin, ..self.settings->0 }), ..self }
    }

    /// The state with another configuration.
    pub open spec fn with_config(self, config: PoolConfig) -> PoolState {
        PoolState { settings: Some(Settings { config, ..self.settings->0 }), ..self }
    }

    /// The state with a new reading.
    pub open spec fn with_reading(self, t: CoverageType, value: i128, now: u64) -> PoolState {
        PoolState {
            oracle_data: self.oracle_data.insert(t, OracleData { value, updated_at: now }),
            ..self
        }
    }

    // ── Capital ────────────────────────────────────────────────────────────────

    /// What a deposit of `amount` mints, or why it is refused.
    pub open spec fn share_quote(self, amount: int) -> Result<int, PoolError> {
        if self.settings is None {
            Err(PoolError::NotInitialized)
        } else if amount <= 0 {
            Err(PoolError::ZeroAmount)
        } else {
            Ok(minted(self.total_capital, self.total_shares, amount))
        }
    }

    /// Whether `share_quote` can be computed.
    pub open spec fn share_quote_fits(self, amount: int) -> bool {
        self.settings is Some && amount > 0 ==> minted_fits(
            self.total_capital,
            self.total_shares,
            amount,
        )
    }

    /// Whether a deposit can be recorded.
    pub open spec fn provide_fits(self, provider: Address, amount: int) -> bool {
        self.settings is Some && amount > 0 ==> {
            let shares = minted(self.total_capital, self.total_shares, amount);
            &&& minted_fits(self.total_capital, self.total_shares, amount)
            &&& math::fits(self.total_capital + amount)
            &&& math::fits(self.total_shares + shares)
            &&& math::fits(self.shares_of(provider) + shares)
        }
    }

    /// The state after a deposit.
    pub open spec fn provided(self, provider: Address, amount: int, now: u64) -> PoolState {
        let shares = minted(self.total_capital, self.total_shares, amount);
        PoolState {
            total_capital: self.total_capital + amount,
            total_shares: self.total_shares + shares,
            shares: self.shares.insert(provider, self.shares_of(provider) + shares),
            last_deposits: self.last_deposits.insert(provider, now),
            ..self
        }
    }

    /// What a deposit asks of the host.
    pub open spec fn provide_effects(self, provider: Address, amount: i128) -> Seq<PoolEffect> {
        let shares = minted(self.total_capital, self.total_shares, amount as int) as i128;
        seq![
            PoolEffect::RequireAuth { address: provider },
            PoolEffect::Collect {
                token: self.settings->0.usdc_token,
                from: provider,
                amount,
            },
            PoolEffect::Publish { event: PoolEvent::Provided { provider, amount, shares } },
        ]
    }

    /// What `shares` are worth, or why nobody may redeem them. Meant for an initialized pool.
    pub open spec fn redemption(self, shares: int) -> Result<int, PoolError> {
        if shares > self.total_shares {
            Err(PoolError::InsufficientShares)
        } else {
            let out = if self.total_shares == 0 {
                0
            } else {
                redeemed(self.total_capital, self.total_shares, shares)
            };
            let left = self.total_capital - out;
            if left > 0 && math::quot(self.total_coverage * BPS, left)
                > self.config().max_utilization_bps {
                Err(PoolError::CapitalLocked)
            } else {
                Ok(out)
            }
        }
    }

    /// Whether `redemption` can be computed.
    pub open spec fn redemption_fits(self, shares: int) -> bool {
        shares <= self.total_shares ==> {
            let out = if self.total_shares == 0 {
                0
            } else {
                redeemed(self.total_capital, self.total_shares, shares)
            };
            let left = self.total_capital - out;
            &&& self.total_shares != 0 ==> math::fits(shares * self.total_capital) && math::fits(
                out,
            )
            &&& math::fits(left)
            &&& left > 0 ==> math::fits(self.total_coverage * BPS)
        }
    }

    /// The preview of a withdrawal.
    pub open spec fn withdrawal_quote(self, shares: int) -> Result<int, PoolError> {
        if self.settings is None {
            Err(PoolError::NotInitialized)
        } else if shares <= 0 {
            Err(PoolError::ZeroAmount)
        } else {
            self.redemption(shares)
        }
    }

    /// Whether `withdrawal_quote` can be computed.
    pub open spec fn withdrawal_quote_fits(self, shares: int) -> bool {
        self.settings is Some && shares > 0 ==> self.redemption_fits(shares)
    }

    /// When `provider` may withdraw, or `None` where they never deposited.
    pub open spec fn lockup_end(self, provider: Address) -> Option<int> {
        if self.last_deposits.contains_key(provider) {
            Some(self.last_deposits[provider] + self.config().lockup_days * SECONDS_PER_DAY)
        } else {
            None
        }
    }

    /// Whether `lockup_end` can be computed.
    pub open spec fn lockup_end_fits(self, provider: Address) -> bool {
        self.last_deposits.contains_key(provider) ==> self.settings is Some && self.lockup_end(
            provider,
        )->0 <= u64::MAX
    }

    /// Whether the provider's deposit is still locked.
    pub open spec fn locked(self, provider: Address, now: u64) -> bool {
        self.lockup_end(provider) matches Some(end) && now < end
    }

    /// What a withdrawal pays, or why it is refused.
    pub open spec fn withdrawal(self, provider: Address, shares: int, now: u64) -> Result<
        int,
        PoolError,
    > {
        if self.settings is None {
            Err(PoolError::NotInitialized)
        } else if shares <= 0 {
            Err(PoolError::ZeroAmount)
        } else if self.shares_of(provider) < shares {
            Err(PoolError::InsufficientShares)
        } else if self.locked(provider, now) {
            Err(PoolError::LockupActive)
        } else {
            self.redemption(shares)
        }
    }

    /// Whether a withdrawal can be computed.
    pub open spec fn withdraw_fits(self, provider: Address, shares: int, now: u64) -> bool {
        self.settings is Some && 0 < shares <= self.shares_of(provider) ==> {
            &&& self.lockup_end_fits(provider)
            &&& !self.locked(provider, now) ==> self.redemption_fits(shares)
        }
    }

    /// The state after a withdrawal that paid `out`.
    pub open spec fn withdrawn(self, provider: Address, shares: int, out: int) -> PoolState {
        PoolState {
            total_capital: self.total_capital - out,
            total_shares: self.total_shares - shares,
            shares: self.shares.insert(provider, self.shares_of(provider) - shares),
            ..self
        }
    }

    /// What a withdrawal that pays `out` asks of the host.
    pub open spec fn withdraw_effects(self, provider: Address, shares: i128, out: i128) -> Seq<
        PoolEffect,
    > {
        seq![
            PoolEffect::RequireAuth { address: provider },
            PoolEffect::Pay { token: self.settings->0.usdc_token, to: provider, amount: out },
            PoolEffect::Publish {
                event: PoolEvent::Withdrawn { provider, shares, amount: out },
            },
        ]
    }

    // ── Policies ───────────────────────────────────────────────────────────────

    /// The total coverage with one more policy of `coverage`, or why there is no room for it.
    pub open spec fn coverage_with(self, config: PoolConfig, coverage: int) -> Result<
        int,
        PoolError,
    > {
        if config.min_coverage <= coverage <= config.max_coverage && self.total_coverage + coverage
            <= coverage_cap(config, self.total_capital) {
            Ok(self.total_coverage + coverage)
        } else {
            Err(PoolError::InsufficientCapacity)
        }
    }

    /// Whether `coverage_with` can be computed.
    pub open spec fn coverage_fits(self, config: PoolConfig, coverage: int) -> bool {
        config.min_coverage <= coverage <= config.max_coverage ==> {
            &&& math::fits(self.total_coverage + coverage)
            &&& math::fits(self.total_capital * config.max_utilization_bps)
        }
    }

    /// What a policy costs, or why it is not for sale.
    pub open spec fn premium_quote(self, params: PolicyParams) -> Result<int, PoolError> {
        match self.settings {
            None => Err(PoolError::NotInitialized),
            Some(settings) => match self.coverage_with(
                settings.config,
                params.coverage_amount as int,
            ) {
                Err(e) => Err(e),
                Ok(_) => Ok(premium(settings.config, params)),
            },
        }
    }

    /// Whether `premium_quote` can be computed.
    pub open spec fn premium_quote_fits(self, params: PolicyParams) -> bool {
        self.settings matches Some(settings) ==> {
            &&& self.coverage_fits(settings.config, params.coverage_amount as int)
            &&& self.premium_quote(params) is Ok ==> premium_fits(settings.config, params)
        }
    }

    /// Whether a purchase can be recorded.
    pub open spec fn buy_fits(self, holder: Address, params: PolicyParams, now: u64) -> bool {
        &&& self.premium_quote_fits(params)
        &&& self.premium_quote(params) matches Ok(price) ==> {
            &&& policy_end(now, params.duration_days) <= u64::MAX
            &&& math::fits(self.total_capital + price)
            &&& math::fits(self.total_premiums + price)
            &&& self.next_policy_id < u64::MAX
            &&& self.policies_of(holder).len() < u32::MAX
        }
    }

    /// The policy that a purchase creates.
    pub open spec fn new_policy(self, holder: Address, params: PolicyParams, now: u64) -> Policy {
        Policy {
            id: self.next_policy_id,
            holder,
            coverage_type: params.coverage_type,
            coverage_amount: params.coverage_amount,
            premium_paid: premium(self.config(), params) as i128,
            trigger_threshold: params.trigger_threshold,
            start_time: now,
            end_time: policy_end(now, params.duration_days) as u64,
            status: PolicyStatus::Active,
            payout_at: None,
        }
    }

    /// The state after a purchase.
    pub open spec fn bought(self, holder: Address, params: PolicyParams, now: u64) -> PoolState {
        let id = self.next_policy_id;
        let price = premium(self.config(), params);
        PoolState {
            total_capital: self.total_capital + price,
            total_premiums: self.total_premiums + price,
            total_coverage: self.total_coverage + params.coverage_amount,
            next_policy_id: (id + 1) as u64,
            policies: self.policies.insert(id, self.new_policy(holder, params, now)),
            user_policies: self.user_policies.insert(holder, self.policies_of(holder).push(id)),
            ..self
        }
    }

    /// What a purchase asks of the host.
    pub open spec fn buy_effects(self, holder: Address, params: PolicyParams, now: u64) -> Seq<
        PoolEffect,
    > {
        let policy = self.new_policy(holder, params, now);
        seq![
            PoolEffect::RequireAuth { address: holder },
            PoolEffect::Collect {
                token: self.settings->0.usdc_token,
                from: holder,
                amount: policy.premium_paid,
            },
            PoolEffect::RegisterPolicy {
                registry: self.settings->0.policy_registry,
                registration: PolicyRegistration {
                    policy_id: policy.id,
                    holder,
                    coverage_type: registry_name(policy.coverage_type),
                    coverage_amount: policy.coverage_amount,
                    premium: policy.premium_paid,
                    expires_at: policy.end_time,
                },
            },
            PoolEffect::Publish {
                event: PoolEvent::Bought {
                    holder,
                    id: policy.id,
                    coverage_amount: policy.coverage_amount,
                    premium: policy.premium_paid,
                    end_time: policy.end_time,
                },
            },
        ]
    }

    // ── Settlement ─────────────────────────────────────────────────────────────

    /// Whether the pool's reading, if it is fresh, meets the policy's trigger.
    pub open spec fn triggered(self, policy: Policy, now: u64) -> bool {
        &&& self.oracle_data.contains_key(policy.coverage_type)
        &&& now - self.oracle_data[policy.coverage_type].updated_at < MAX_READING_AGE
        &&& trigger_met(
            policy.coverage_type,
            policy.trigger_threshold as int,
            self.oracle_data[policy.coverage_type].value as int,
        )
    }

    /// What a claim pays, or why it is refused.
    pub open spec fn claim(self, policy_id: u64, now: u64) -> Result<int, PoolError> {
        if !self.policies.contains_key(policy_id) {
            Err(PoolError::PolicyNotFound)
        } else {
            let policy = self.policies[policy_id];
            if policy.status != PolicyStatus::Active {
                Err(PoolError::AlreadyClaimed)
            } else if now > policy.end_time {
                Err(PoolError::PolicyExpired)
            } else if !self.triggered(policy, now) {
                Err(PoolError::PolicyNotTriggered)
            } else {
                Ok(policy.coverage_amount as int)
            }
        }
    }

    /// Whether a claim can be settled.
    pub open spec fn claim_fits(self, policy_id: u64, now: u64) -> bool {
        self.policies.contains_key(policy_id) ==> {
            let policy = self.policies[policy_id];
            &&& policy.status == PolicyStatus::Active && now <= policy.end_time
                && self.oracle_data.contains_key(policy.coverage_type) ==> {
                &&& self.oracle_data[policy.coverage_type].updated_at <= now
                &&& trigger_fits(policy.coverage_type, policy.trigger_threshold as int)
            }
            &&& self.claim(policy_id, now) is Ok ==> {
                &&& self.settings is Some
                &&& math::fits(self.total_capital - policy.coverage_amount)
                &&& math::fits(self.total_coverage - policy.coverage_amount)
            }
        }
    }

    /// The state after a claim was paid.
    pub open spec fn claimed(self, policy_id: u64, now: u64) -> PoolState {
        let policy = self.policies[policy_id];
        PoolState {
            total_capital: math::positive_part(self.total_capital - policy.coverage_amount),
            total_coverage: math::positive_part(self.total_coverage - policy.coverage_amount),
            policies: self.policies.insert(
                policy_id,
                Policy { status: PolicyStatus::Claimed, payout_at: Some(now), ..policy },
            ),
            ..self
        }
    }

    /// What a claim asks of the host.
    pub open spec fn claim_effects(self, policy_id: u64, now: u64) -> Seq<PoolEffect> {
        let policy = self.policies[policy_id];
        seq![
            PoolEffect::Pay {
                token: self.settings->0.usdc_token,
                to: policy.holder,
                amount: policy.coverage_amount,
            },
            PoolEffect::DeactivatePolicy {
                registry: self.settings->0.policy_registry,
                policy_id,
            },
            PoolEffect::Publish {
                event: PoolEvent::Claimed {
                    holder: policy.holder,
                    id: policy_id,
                    payout: policy.coverage_amount,
                    at: now,
                },
            },
        ]
    }

    /// Whether a policy can be swept, or why not.
    pub open spec fn expiry(self, policy_id: u64, now: u64) -> Result<(), PoolError> {
        if !self.policies.contains_key(policy_id) {
            Err(PoolError::PolicyNotFound)
        } else if self.policies[policy_id].status != PolicyStatus::Active {
            Err(PoolError::AlreadyClaimed)
        } else if now <= self.policies[policy_id].end_time {
            Err(PoolError::PolicyNotYetExpired)
        } else {
            Ok(())
        }
    }

    /// Whether a sweep can be recorded.
    pub open spec fn expire_fits(self, policy_id: u64, now: u64) -> bool {
        self.expiry(policy_id, now) is Ok ==> math::fits(
            self.total_coverage - self.policies[policy_id].coverage_amount,
        )
    }

    /// The state after a sweep.
    pub open spec fn expired(self, policy_id: u64) -> PoolState {
        let policy = self.policies[policy_id];
        PoolState {
            total_coverage: math::positive_part(self.total_coverage - policy.coverage_amount),
            policies: self.policies.insert(
                policy_id,
                Policy { status: PolicyStatus::Expired, ..policy },
            ),
            ..self
        }
    }

    /// What a sweep asks of the host. A pool without a registry has nobody to tell.
    pub open spec fn expire_effects(self, policy_id: u64, now: u64) -> Seq<PoolEffect> {
        let event = PoolEffect::Publish {
            event: PoolEvent::Expired {
                holder: self.policies[policy_id].holder,
                id: policy_id,
                at: now,
            },
        };
        match self.settings {
            Some(settings) => seq![
                PoolEffect::DeactivatePolicy { registry: settings.policy_registry, policy_id },
                event,
            ],
            None => seq![event],
        }
    }

    // ── Summary ────────────────────────────────────────────────────────────────

    /// The configuration that the summary goes by: all zero until the pool is initialized.
    pub open spec fn stats_config(self) -> PoolConfig {
        match self.settings {
            Some(settings) => settings.config,
            None => PoolConfig {
                base_premium_rate_bps: 0,
                max_utilization_bps: 0,
                min_coverage: 0,
                max_coverage: 0,
                lockup_days: 0,
            },
        }
    }

    /// Coverage per capital, in basis points.
    pub open spec fn utilization(self) -> int {
        if self.total_capital == 0 {
            0
        } else {
            math::quot(self.total_coverage * BPS, self.total_capital)
        }
    }

    /// Utilization as the summary reports it: its low 32 bits.
    pub open spec fn reported_utilization(self) -> int {
        self.utilization() % 0x1_0000_0000
    }

    /// Capital per share, scaled by `PRECISION`.
    pub open spec fn share_price(self) -> int {
        if self.total_shares == 0 {
            PRECISION as int
        } else {
            math::quot(self.total_capital * PRECISION, self.total_shares)
        }
    }

    /// The coverage that the pool can still underwrite.
    pub open spec fn available_capacity(self) -> int {
        math::positive_part(
            coverage_cap(self.stats_config(), self.total_capital) - self.total_coverage,
        )
    }

    /// Whether `stats` is the pool's summary.
    pub open spec fn summed_up_by(self, stats: PoolStats) -> bool {
        &&& stats.total_capital == self.total_capital
        &&& stats.total_coverage == self.total_coverage
        &&& stats.total_shares == self.total_shares
        &&& stats.utilization_bps == self.reported_utilization()
        &&& stats.share_price == self.share_price()
        &&& stats.apy_estimate_bps == (self.stats_config().base_premium_rate_bps
            * self.reported_utilization()) / 10_000
        &&& stats.available_capacity == self.available_capacity()
    }

    /// Whether the summary can be computed.
    pub open spec fn stats_fit(self) -> bool {
        let config = self.stats_config();
        &&& self.total_capital != 0 ==> math::fits(self.total_coverage * BPS) && math::fits(
            self.utilization(),
        )
        &&& self.total_shares != 0 ==> math::fits(self.total_capital * PRECISION) && math::fits(
            self.share_price(),
        )
        &&& config.base_premium_rate_bps * self.reported_utilization() <= u32::MAX
        &&& math::fits(self.total_capital * config.max_utilization_bps)
        &&& math::fits(coverage_cap(config, self.total_capital) - self.total_coverage)
    }
}

} // verus!
