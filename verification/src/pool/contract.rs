//! The pool's entry points.

use vstd::prelude::*;

use crate::address::Address;
use crate::lists::IdList;
use crate::math::{clamp_to_zero, difference, product, quotient, ratio, sum};
use crate::pool::model;
use crate::pool::model::{BPS, MAX_READING_AGE, PRECISION, SECONDS_PER_DAY};
use crate::pool::types::{
    CoverageType, OracleData, Policy, PolicyParams, PolicyRegistration, PolicyStatus, PoolConfig,
    PoolEffect, PoolError, PoolEvent, PoolStats, RegistryCoverageType, Settings,
};
use crate::table::Table;

verus! {

/// The pool: what it keeps in storage, and what it has asked of the host.
pub struct RefractPool {
    pub settings: Option<Settings>,
    pub total_capital: i128,
    pub total_coverage: i128,
    pub total_premiums: i128,
    pub total_shares: i128,
    pub next_policy_id: u64,
    pub shares: Table<Address, i128>,
    pub last_deposits: Table<Address, u64>,
    pub policies: Table<u64, Policy>,
    pub user_policies: Table<Address, IdList>,
    pub oracle_data: Table<CoverageType, OracleData>,
    /// What the host has to do, in order.
    pub effects: Vec<PoolEffect>,
}

impl View for RefractPool {
    type V = model::PoolState;

    open spec fn view(&self) -> model::PoolState {
        model::PoolState {
            settings: self.settings,
            total_capital: self.total_capital as int,
            total_coverage: self.total_coverage as int,
            total_premiums: self.total_premiums as int,
            total_shares: self.total_shares as int,
            next_policy_id: self.next_policy_id,
            shares: self.shares@.map_values(|x: i128| x as int),
            last_deposits: self.last_deposits@,
            policies: self.policies@,
            user_policies: self.user_policies@.map_values(|ids: IdList| ids@),
            oracle_data: self.oracle_data@,
        }
    }
}

impl RefractPool {
    /// A pool that nobody has initialized.
    pub fn new() -> (pool: RefractPool)
        ensures
            pool@ == model::new_pool(),
            pool.effects@ == Seq::<PoolEffect>::empty(),
    {
        let pool = RefractPool {
            settings: None,
            total_capital: 0,
            total_coverage: 0,
            total_premiums: 0,
            total_shares: 0,
            next_policy_id: 0,
            shares: Table::new(),
            last_deposits: Table::new(),
            policies: Table::new(),
            user_policies: Table::new(),
            oracle_data: Table::new(),
            effects: Vec::new(),
        };
        assert(pool@ =~= model::new_pool());
        pool
    }

    // ── Prices ─────────────────────────────────────────────────────────────────

    /// The registry's name for a coverage category.
    pub fn _to_registry_coverage_type(t: &CoverageType) -> (r: RegistryCoverageType)
        ensures
            r == model::registry_name(*t),
    {
        match t {
            CoverageType::StablecoinDepeg => RegistryCoverageType::StablecoinDepeg,
            CoverageType::MarketCrash => RegistryCoverageType::MarketCrash,
            CoverageType::LiquidationShield => RegistryCoverageType::LiquidationShield,
            CoverageType::SmartContractRisk => RegistryCoverageType::SmartContractRisk,
            CoverageType::FlightDelay => RegistryCoverageType::FlightDelay,
        }
    }

    /// The premium, or `None` where a step of it is no `i128`.
    pub fn checked_premium(config: &PoolConfig, params: &PolicyParams) -> (r: Option<i128>)
        ensures
            r is Some <==> model::premium_fits(*config, *params),
            r matches Some(x) ==> x == model::premium(*config, *params),
    {
        let risk: i128 = match params.coverage_type {
            CoverageType::StablecoinDepeg => 100,
            CoverageType::MarketCrash => 150,
            CoverageType::LiquidationShield => 200,
            CoverageType::SmartContractRisk => 300,
            CoverageType::FlightDelay => 80,
        };
        let yearly: i128 = product(
            params.coverage_amount,
            config.base_premium_rate_bps as i128,
        )?;
        let base: i128 = ratio(yearly, BPS);
        let factor: i128 = params.duration_days as i128 * PRECISION / 365;
        let scaled: i128 = product(base, factor)?;
        let weighed: i128 = product(ratio(scaled, PRECISION), risk)?;
        Some(ratio(weighed, 100))
    }

    /// Premium = coverage × base rate × years × risk.
    pub fn _calc_premium(config: &PoolConfig, params: &PolicyParams) -> (r: i128)
        requires
            model::premium_fits(*config, *params),
        ensures
            r == model::premium(*config, *params),
    {
        Self::checked_premium(config, params).unwrap()
    }

    /// What a deposit of `amount` mints, or `None` where that is no `i128`.
    fn checked_shares(&self, amount: i128) -> (r: Option<i128>)
        ensures
            r is Some <==> model::minted_fits(
                self@.total_capital,
                self@.total_shares,
                amount as int,
            ),
            r matches Some(x) ==> x == model::minted(
                self@.total_capital,
                self@.total_shares,
                amount as int,
            ),
    {
        if self.total_shares == 0 || self.total_capital == 0 {
            Some(amount)
        } else {
            quotient(product(amount, self.total_shares)?, self.total_capital)
        }
    }

    /// The shares that a deposit of `amount` mints: one for one into an empty pool, else in
    /// proportion to the capital.
    pub fn _calc_shares(&self, amount: i128) -> (r: i128)
        requires
            model::minted_fits(self@.total_capital, self@.total_shares, amount as int),
        ensures
            r == model::minted(self@.total_capital, self@.total_shares, amount as int),
    {
        self.checked_shares(amount).unwrap()
    }

    /// What `_check_coverage_capacity` answers, or `None` where that cannot be computed.
    fn checked_coverage(&self, config: &PoolConfig, coverage_amount: i128) -> (r: Option<
        Result<i128, PoolError>,
    >)
        ensures
            r is Some <==> self@.coverage_fits(*config, coverage_amount as int),
            r matches Some(x) ==> model::exact(x) == self@.coverage_with(
                *config,
                coverage_amount as int,
            ),
    {
        if coverage_amount < config.min_coverage || coverage_amount > config.max_coverage {
            return Some(Err(PoolError::InsufficientCapacity));
        }
        let new_coverage: i128 = sum(self.total_coverage, coverage_amount)?;
        let max_capacity: i128 = ratio(
            product(self.total_capital, config.max_utilization_bps as i128)?,
            BPS,
        );
        if new_coverage > max_capacity {
            Some(Err(PoolError::InsufficientCapacity))
        } else {
            Some(Ok(new_coverage))
        }
    }

    /// The total coverage with one more policy of `coverage_amount`, or an error where the policy
    /// is too small, too large or more than the pool can underwrite. The preview of a purchase
    /// and the purchase itself both go by it.
    fn _check_coverage_capacity(&self, config: &PoolConfig, coverage_amount: i128) -> (r: Result<
        i128,
        PoolError,
    >)
        requires
            self@.coverage_fits(*config, coverage_amount as int),
        ensures
            model::exact(r) == self@.coverage_with(*config, coverage_amount as int),
    {
        self.checked_coverage(config, coverage_amount).unwrap()
    }

    /// What `_quote_withdrawal` answers, or `None` where that cannot be computed.
    fn checked_redemption(&self, config: &PoolConfig, shares: i128) -> (r: Option<
        Result<i128, PoolError>,
    >)
        requires
            self@.settings is Some,
            *config == self@.config(),
        ensures
            r is Some <==> self@.redemption_fits(shares as int),
            r matches Some(x) ==> model::exact(x) == self@.redemption(shares as int),
    {
        if shares > self.total_shares {
            return Some(Err(PoolError::InsufficientShares));
        }
        let usdc_out: i128 = if self.total_shares == 0 {
            0
        } else {
            quotient(product(shares, self.total_capital)?, self.total_shares)?
        };
        let new_capital: i128 = difference(self.total_capital, usdc_out)?;
        if new_capital > 0 {
            let new_utilization: i128 = ratio(product(self.total_coverage, BPS)?, new_capital);
            if new_utilization > config.max_utilization_bps as i128 {
                return Some(Err(PoolError::CapitalLocked));
            }
        }
        Some(Ok(usdc_out))
    }

    /// What `shares` are worth, or an error where the pool has no such shares or paying them out
    /// would push utilization above its cap. The preview of a withdrawal and the withdrawal
    /// itself both go by it.
    fn _quote_withdrawal(&self, config: &PoolConfig, shares: i128) -> (r: Result<i128, PoolError>)
        requires
            self@.settings is Some,
            *config == self@.config(),
            self@.redemption_fits(shares as int),
        ensures
            model::exact(r) == self@.redemption(shares as int),
    {
        self.checked_redemption(config, shares).unwrap()
    }

    // ── Guards ─────────────────────────────────────────────────────────────────

    fn assert_initialized(&self) -> (r: Result<Settings, PoolError>)
        ensures
            r == (match self@.settings {
                Some(settings) => Ok::<Settings, PoolError>(settings),
                None => Err(PoolError::NotInitialized),
            }),
    {
        match self.settings {
            Some(settings) => Ok(settings),
            None => Err(PoolError::NotInitialized),
        }
    }

    /// Asks for the caller's authorization and checks that the caller is the admin.
    fn require_admin(&mut self, caller: Address) -> (r: Result<Settings, PoolError>)
        ensures
            final(self)@ == old(self)@,
            final(self).effects@ == old(self).effects@.push(
                PoolEffect::RequireAuth { address: caller },
            ),
            match r {
                Ok(settings) => old(self)@.admin_check(caller) is Ok && old(self)@.settings == Some(
                    settings,
                ),
                Err(e) => old(self)@.admin_check(caller) == Err::<(), PoolError>(e),
            },
    {
        self.effects.push(PoolEffect::RequireAuth { address: caller });
        match self.settings {
            None => Err(PoolError::NotInitialized),
            Some(settings) => if caller == settings.admin {
                Ok(settings)
            } else {
                Err(PoolError::Unauthorized)
            },
        }
    }

    /// Publishes an event.
    fn publish(&mut self, event: PoolEvent)
        ensures
            final(self)@ == old(self)@,
            final(self).effects@ == old(self).effects@.push(PoolEffect::Publish { event }),
    {
        self.effects.push(PoolEffect::Publish { event });
    }

    // ── Initialization ─────────────────────────────────────────────────────────

    /// Wires the pool to its admin, token and registry, once.
    pub fn initialize(
        &mut self,
        admin: Address,
        usdc_token: Address,
        policy_registry: Address,
    ) -> (r: Result<(), PoolError>)
        ensures
            r == (if old(self)@.settings is Some {
                Err(PoolError::AlreadyInitialized)
            } else {
                Ok::<(), PoolError>(())
            }),
            r is Ok ==> final(self)@ == old(self)@.initialized(admin, usdc_token, policy_registry)
                && final(self).effects@ == old(self).effects@ + seq![
                PoolEffect::RequireAuth { address: admin },
                PoolEffect::Publish { event: PoolEvent::Initialized { admin } },
            ],
            r is Err ==> final(self)@ == old(self)@ && final(self).effects@ == old(self).effects@,
    {
        if self.settings.is_some() {
            return Err(PoolError::AlreadyInitialized);
        }
        self.effects.push(PoolEffect::RequireAuth { address: admin });
        let config = PoolConfig {
            base_premium_rate_bps: 300,
            max_utilization_bps: 8_000,
            min_coverage: 100_000_000,
            max_coverage: 50_000_000_000,
            lockup_days: 0,
        };
        self.settings = Some(Settings { admin, usdc_token, policy_registry, config });
        self.total_capital = 0;
        self.total_coverage = 0;
        self.total_premiums = 0;
        self.total_shares = 0;
        self.next_policy_id = 0;
        self.publish(PoolEvent::Initialized { admin });
        assert(self@ =~= old(self)@.initialized(admin, usdc_token, policy_registry));
        Ok(())
    }

    // ── Capital ────────────────────────────────────────────────────────────────

    /// Whether `quote_shares` can be computed without overflow.
    pub fn quote_shares_fits(&self, amount: i128) -> (r: bool)
        ensures
            r == self@.share_quote_fits(amount as int),
    {
        self.settings.is_none() || amount <= 0 || self.checked_shares(amount).is_some()
    }

    /// Previews the shares that a deposit of `amount` would mint, without depositing.
    pub fn quote_shares(&self, amount: i128) -> (r: Result<i128, PoolError>)
        requires
            self@.share_quote_fits(amount as int),
        ensures
            model::exact(r) == self@.share_quote(amount as int),
    {
        if let Err(e) = self.assert_initialized() {
            return Err(e);
        }
        if amount <= 0 {
            return Err(PoolError::ZeroAmount);
        }
        Ok(self._calc_shares(amount))
    }

    /// Whether `provide_capital` can be recorded without overflow.
    pub fn provide_capital_fits(&self, provider: Address, amount: i128) -> (r: bool)
        ensures
            r == self@.provide_fits(provider, amount as int),
    {
        if self.settings.is_none() || amount <= 0 {
            return true;
        }
        match self.checked_shares(amount) {
            None => false,
            Some(shares) => sum(self.total_capital, amount).is_some() && sum(
                self.total_shares,
                shares,
            ).is_some() && sum(self.shares_of(provider), shares).is_some(),
        }
    }

    /// Deposits USDC as risk capital and mints pool shares for it. Every deposit, a top-up too,
    /// restarts the lockup of the provider's whole position.
    pub fn provide_capital(&mut self, provider: Address, amount: i128, now: u64) -> (r: Result<
        i128,
        PoolError,
    >)
        requires
            old(self)@.provide_fits(provider, amount as int),
        ensures
            model::exact(r) == old(self)@.share_quote(amount as int),
            match r {
                Ok(_) => {
                    &&& final(self)@ == old(self)@.provided(provider, amount as int, now)
                    &&& final(self).effects@ == old(self).effects@ + old(self)@.provide_effects(
                        provider,
                        amount,
                    )
                },
                Err(_) => {
                    &&& final(self)@ == old(self)@
                    &&& final(self).effects@ == old(self).effects@.push(
                        PoolEffect::RequireAuth { address: provider },
                    )
                },
            },
    {
        self.effects.push(PoolEffect::RequireAuth { address: provider });
        let settings = match self.assert_initialized() {
            Ok(settings) => settings,
            Err(e) => return Err(e),
        };
        if amount <= 0 {
            return Err(PoolError::ZeroAmount);
        }
        self.effects.push(
            PoolEffect::Collect { token: settings.usdc_token, from: provider, amount },
        );
        let shares: i128 = self._calc_shares(amount);
        let user_shares: i128 = self.shares_of(provider);
        self.total_capital = self.total_capital + amount;
        self.total_shares = self.total_shares + shares;
        self.shares.set(provider, user_shares + shares);
        self.last_deposits.set(provider, now);
        self.publish(PoolEvent::Provided { provider, amount, shares });
        assert(self@ =~= old(self)@.provided(provider, amount as int, now));
        Ok(shares)
    }

    /// Whether `quote_withdrawal` can be computed without overflow.
    pub fn quote_withdrawal_fits(&self, shares: i128) -> (r: bool)
        ensures
            r == self@.withdrawal_quote_fits(shares as int),
    {
        match self.settings {
            None => true,
            Some(settings) => shares <= 0 || self.checked_redemption(
                &settings.config,
                shares,
            ).is_some(),
        }
    }

    /// Previews the USDC that a withdrawal of `shares` would return right now, whoever asks.
    pub fn quote_withdrawal(&self, shares: i128) -> (r: Result<i128, PoolError>)
        requires
            self@.withdrawal_quote_fits(shares as int),
        ensures
            model::exact(r) == self@.withdrawal_quote(shares as int),
    {
        let settings = match self.assert_initialized() {
            Ok(settings) => settings,
            Err(e) => return Err(e),
        };
        if shares <= 0 {
            return Err(PoolError::ZeroAmount);
        }
        self._quote_withdrawal(&settings.config, shares)
    }

    /// When the lockup that started at `last_deposit` ends, or `None` where that is no `u64`.
    fn checked_lockup_end(config: &PoolConfig, last_deposit: u64) -> (r: Option<u64>)
        ensures
            r is Some <==> last_deposit + config.lockup_days * SECONDS_PER_DAY <= u64::MAX,
            r matches Some(end) ==> end == last_deposit + config.lockup_days * SECONDS_PER_DAY,
    {
        last_deposit.checked_add(config.lockup_days as u64 * SECONDS_PER_DAY)
    }

    /// Whether `withdraw_capital` can be computed without overflow.
    pub fn withdraw_capital_fits(&self, provider: Address, shares: i128, now: u64) -> (r: bool)
        ensures
            r == self@.withdraw_fits(provider, shares as int, now),
    {
        let settings = match self.settings {
            None => return true,
            Some(settings) => settings,
        };
        if shares <= 0 || self.shares_of(provider) < shares {
            return true;
        }
        if let Some(last_deposit) = self.last_deposits.get(&provider) {
            match Self::checked_lockup_end(&settings.config, *last_deposit) {
                None => return false,
                Some(unlocks_at) => if now < unlocks_at {
                    return true;
                },
            }
        }
        self.checked_redemption(&settings.config, shares).is_some()
    }

    /// Burns shares and pays out the capital they are worth.
    pub fn withdraw_capital(&mut self, provider: Address, shares: i128, now: u64) -> (r: Result<
        i128,
        PoolError,
    >)
        requires
            old(self)@.withdraw_fits(provider, shares as int, now),
        ensures
            model::exact(r) == old(self)@.withdrawal(provider, shares as int, now),
            match r {
                Ok(usdc_out) => {
                    &&& final(self)@ == old(self)@.withdrawn(
                        provider,
                        shares as int,
                        usdc_out as int,
                    )
                    &&& final(self).effects@ == old(self).effects@ + old(self)@.withdraw_effects(
                        provider,
                        shares,
                        usdc_out,
                    )
                },
                Err(_) => {
                    &&& final(self)@ == old(self)@
                    &&& final(self).effects@ == old(self).effects@.push(
                        PoolEffect::RequireAuth { address: provider },
                    )
                },
            },
    {
        self.effects.push(PoolEffect::RequireAuth { address: provider });
        let settings = match self.assert_initialized() {
            Ok(settings) => settings,
            Err(e) => return Err(e),
        };
        if shares <= 0 {
            return Err(PoolError::ZeroAmount);
        }
        let user_shares: i128 = self.shares_of(provider);
        if user_shares < shares {
            return Err(PoolError::InsufficientShares);
        }
        if let Some(last_deposit) = self.last_deposits.get(&provider) {
            let unlocks_at: u64 = *last_deposit + settings.config.lockup_days as u64
                * SECONDS_PER_DAY;
            if now < unlocks_at {
                return Err(PoolError::LockupActive);
            }
        }
        let usdc_out: i128 = match self._quote_withdrawal(&settings.config, shares) {
            Ok(usdc_out) => usdc_out,
            Err(e) => return Err(e),
        };
        self.total_capital = self.total_capital - usdc_out;
        self.total_shares = self.total_shares - shares;
        self.shares.set(provider, user_shares - shares);
        self.effects.push(
            PoolEffect::Pay { token: settings.usdc_token, to: provider, amount: usdc_out },
        );
        self.publish(PoolEvent::Withdrawn { provider, shares, amount: usdc_out });
        assert(self@ =~= old(self)@.withdrawn(provider, shares as int, usdc_out as int));
        Ok(usdc_out)
    }

    // ── Policies ───────────────────────────────────────────────────────────────

    /// Whether `quote_premium` can be computed without overflow.
    pub fn quote_premium_fits(&self, params: PolicyParams) -> (r: bool)
        ensures
            r == self@.premium_quote_fits(params),
    {
        match self.settings {
            None => true,
            Some(settings) => match self.checked_coverage(
                &settings.config,
                params.coverage_amount,
            ) {
                None => false,
                Some(Err(_)) => true,
                Some(Ok(_)) => Self::checked_premium(&settings.config, &params).is_some(),
            },
        }
    }

    /// Previews the premium of a policy, refusing what a purchase would refuse.
    pub fn quote_premium(&self, params: PolicyParams) -> (r: Result<i128, PoolError>)
        requires
            self@.premium_quote_fits(params),
        ensures
            model::exact(r) == self@.premium_quote(params),
    {
        let settings = match self.assert_initialized() {
            Ok(settings) => settings,
            Err(e) => return Err(e),
        };
        match self._check_coverage_capacity(&settings.config, params.coverage_amount) {
            Ok(_) => Ok(Self::_calc_premium(&settings.config, &params)),
            Err(e) => Err(e),
        }
    }

    /// Whether `buy_policy` can be recorded without overflow.
    pub fn buy_policy_fits(&self, holder: Address, params: PolicyParams, now: u64) -> (r: bool)
        ensures
            r == self@.buy_fits(holder, params, now),
    {
        let settings = match self.settings {
            None => return true,
            Some(settings) => settings,
        };
        match self.checked_coverage(&settings.config, params.coverage_amount) {
            None => return false,
            Some(Err(_)) => return true,
            Some(Ok(_)) => {},
        }
        let premium: i128 = match Self::checked_premium(&settings.config, &params) {
            None => return false,
            Some(premium) => premium,
        };
        let held: u32 = match self.user_policies.get(&holder) {
            Some(ids) => ids.len(),
            None => 0,
        };
        now.checked_add(params.duration_days as u64 * SECONDS_PER_DAY).is_some() && sum(
            self.total_capital,
            premium,
        ).is_some() && sum(self.total_premiums, premium).is_some() && self.next_policy_id
            < u64::MAX && held < u32::MAX
    }

    /// Sells a policy. The holder pays the premium, which accrues to the capital providers, and
    /// the registry is told of the policy under the id that the pool gave it.
    pub fn buy_policy(
        &mut self,
        env: &soroban_sdk::Env,
        holder: Address,
        params: PolicyParams,
        now: u64,
    ) -> (r: Result<u64, PoolError>)
        requires
            old(self)@.buy_fits(holder, params, now),
        ensures
            match r {
                Ok(id) => {
                    &&& old(self)@.premium_quote(params) is Ok
                    &&& id == old(self)@.next_policy_id
                    &&& final(self)@ == old(self)@.bought(holder, params, now)
                    &&& final(self).effects@ == old(self).effects@ + old(self)@.buy_effects(
                        holder,
                        params,
                        now,
                    )
                },
                Err(e) => {
                    &&& old(self)@.premium_quote(params) == Err::<int, PoolError>(e)
                    &&& final(self)@ == old(self)@
                    &&& final(self).effects@ == old(self).effects@.push(
                        PoolEffect::RequireAuth { address: holder },
                    )
                },
            },
    {
        self.effects.push(PoolEffect::RequireAuth { address: holder });
        let settings = match self.assert_initialized() {
            Ok(settings) => settings,
            Err(e) => return Err(e),
        };
        let new_coverage: i128 = match self._check_coverage_capacity(
            &settings.config,
            params.coverage_amount,
        ) {
            Ok(new_coverage) => new_coverage,
            Err(e) => return Err(e),
        };
        let premium: i128 = Self::_calc_premium(&settings.config, &params);
        let end_time: u64 = now + params.duration_days as u64 * SECONDS_PER_DAY;
        self.effects.push(
            PoolEffect::Collect { token: settings.usdc_token, from: holder, amount: premium },
        );
        self.total_capital = self.total_capital + premium;
        self.total_premiums = self.total_premiums + premium;
        self.total_coverage = new_coverage;
        let id: u64 = self.next_policy_id;
        let policy = Policy {
            id,
            holder,
            coverage_type: params.coverage_type,
            coverage_amount: params.coverage_amount,
            premium_paid: premium,
            trigger_threshold: params.trigger_threshold,
            start_time: now,
            end_time,
            status: PolicyStatus::Active,
            payout_at: None,
        };
        self.policies.set(id, policy);
        self.next_policy_id = id + 1;
        let ids = self.user_policies(env, holder).push_back(id);
        self.user_policies.set(holder, ids);
        let registration = PolicyRegistration {
            policy_id: id,
            holder,
            coverage_type: Self::_to_registry_coverage_type(&params.coverage_type),
            coverage_amount: params.coverage_amount,
            premium,
            expires_at: end_time,
        };
        self.effects.push(
            PoolEffect::RegisterPolicy { registry: settings.policy_registry, registration },
        );
        self.publish(
            PoolEvent::Bought {
                holder,
                id,
                coverage_amount: params.coverage_amount,
                premium,
                end_time,
            },
        );
        assert(self@ =~= old(self)@.bought(holder, params, now));
        assert(self.effects@ =~= old(self).effects@ + old(self)@.buy_effects(holder, params, now));
        Ok(id)
    }

    // ── Settlement ─────────────────────────────────────────────────────────────

    /// Whether a reading of `value` meets a policy's trigger, or `None` where the trigger's level
    /// is no `i128`.
    fn checked_trigger(policy: &Policy, value: i128) -> (r: Option<bool>)
        ensures
            r is Some <==> model::trigger_fits(
                policy.coverage_type,
                policy.trigger_threshold as int,
            ),
            r matches Some(met) ==> met == model::trigger_met(
                policy.coverage_type,
                policy.trigger_threshold as int,
                value as int,
            ),
    {
        match policy.coverage_type {
            CoverageType::StablecoinDepeg => {
                let drop: i128 = ratio(product(policy.trigger_threshold, PRECISION)?, BPS);
                Some(value < PRECISION - drop)
            },
            CoverageType::MarketCrash => {
                let level: i128 = difference(0, policy.trigger_threshold)?;
                Some(value < level)
            },
            CoverageType::LiquidationShield => Some(value > 0),
            CoverageType::SmartContractRisk => Some(value > 0),
            CoverageType::FlightDelay => Some(value > policy.trigger_threshold),
        }
    }

    /// Whether the pool's reading is fresh and meets the policy's trigger, or `None` where that
    /// cannot be computed.
    fn checked_triggered(&self, policy: &Policy, now: u64) -> (r: Option<bool>)
        ensures
            r is Some <==> (self@.oracle_data.contains_key(policy.coverage_type) ==> {
                &&& self@.oracle_data[policy.coverage_type].updated_at <= now
                &&& model::trigger_fits(policy.coverage_type, policy.trigger_threshold as int)
            }),
            r matches Some(triggered) ==> triggered == self@.triggered(*policy, now),
    {
        match self.oracle_data.get(&policy.coverage_type) {
            None => Some(false),
            Some(data) => {
                if data.updated_at > now {
                    return None;
                }
                let fresh = now - data.updated_at < MAX_READING_AGE;
                match Self::checked_trigger(policy, data.value) {
                    None => None,
                    Some(met) => Some(fresh && met),
                }
            },
        }
    }

    /// Whether `process_claim` can be computed without overflow.
    pub fn process_claim_fits(&self, policy_id: u64, now: u64) -> (r: bool)
        ensures
            r == self@.claim_fits(policy_id, now),
    {
        match self.policies.get(&policy_id) {
            None => true,
            Some(policy) => {
                if policy.status != PolicyStatus::Active || now > policy.end_time {
                    return true;
                }
                match self.checked_triggered(policy, now) {
                    None => false,
                    Some(triggered) => !triggered || (self.settings.is_some() && difference(
                        self.total_capital,
                        policy.coverage_amount,
                    ).is_some() && difference(
                        self.total_coverage,
                        policy.coverage_amount,
                    ).is_some()),
                }
            },
        }
    }

    /// Asks the registry, if there is one, to mark a policy as settled.
    fn _deactivate_in_registry(&mut self, policy_id: u64)
        ensures
            final(self)@ == old(self)@,
            final(self).effects@ == (match old(self)@.settings {
                Some(settings) => old(self).effects@.push(
                    PoolEffect::DeactivatePolicy { registry: settings.policy_registry, policy_id },
                ),
                None => old(self).effects@,
            }),
    {
        if let Some(settings) = self.settings {
            self.effects.push(
                PoolEffect::DeactivatePolicy { registry: settings.policy_registry, policy_id },
            );
        }
    }

    /// Pays out an active policy whose trigger a fresh reading meets. Anyone may call this.
    pub fn process_claim(&mut self, policy_id: u64, now: u64) -> (r: Result<i128, PoolError>)
        requires
            old(self)@.claim_fits(policy_id, now),
        ensures
            model::exact(r) == old(self)@.claim(policy_id, now),
            match r {
                Ok(_) => {
                    &&& final(self)@ == old(self)@.claimed(policy_id, now)
                    &&& final(self).effects@ == old(self).effects@ + old(self)@.claim_effects(
                        policy_id,
                        now,
                    )
                },
                Err(_) => final(self)@ == old(self)@ && final(self).effects@ == old(self).effects@,
            },
    {
        let mut policy: Policy = match self.policies.get(&policy_id) {
            Some(policy) => *policy,
            None => return Err(PoolError::PolicyNotFound),
        };
        if policy.status != PolicyStatus::Active {
            return Err(PoolError::AlreadyClaimed);
        }
        if now > policy.end_time {
            return Err(PoolError::PolicyExpired);
        }
        match self.checked_triggered(&policy, now) {
            Some(true) => {},
            _ => return Err(PoolError::PolicyNotTriggered),
        }
        let settings = match self.settings {
            Some(settings) => settings,
            None => return Err(PoolError::NotInitialized),
        };
        let payout: i128 = policy.coverage_amount;
        policy.status = PolicyStatus::Claimed;
        policy.payout_at = Some(now);
        self.policies.set(policy_id, policy);
        self.total_capital = clamp_to_zero(self.total_capital - payout);
        self.total_coverage = clamp_to_zero(self.total_coverage - payout);
        self.effects.push(
            PoolEffect::Pay { token: settings.usdc_token, to: policy.holder, amount: payout },
        );
        self._deactivate_in_registry(policy_id);
        self.publish(
            PoolEvent::Claimed { holder: policy.holder, id: policy_id, payout, at: now },
        );
        assert(self@ =~= old(self)@.claimed(policy_id, now));
        assert(self.effects@ =~= old(self).effects@ + old(self)@.claim_effects(policy_id, now));
        Ok(payout)
    }

    /// Whether `expire_policy` can be recorded without overflow.
    pub fn expire_policy_fits(&self, policy_id: u64, now: u64) -> (r: bool)
        ensures
            r == self@.expire_fits(policy_id, now),
    {
        match self.policies.get(&policy_id) {
            None => true,
            Some(policy) => policy.status != PolicyStatus::Active || now <= policy.end_time
                || difference(self.total_coverage, policy.coverage_amount).is_some(),
        }
    }

    /// Sweeps a lapsed policy: the coverage it was holding is free again. Capital stays as it is.
    /// Anyone may call this.
    pub fn expire_policy(&mut self, policy_id: u64, now: u64) -> (r: Result<(), PoolError>)
        requires
            old(self)@.expire_fits(policy_id, now),
        ensures
            r == old(self)@.expiry(policy_id, now),
            r is Ok ==> final(self)@ == old(self)@.expired(policy_id) && final(self).effects@
                == old(self).effects@ + old(self)@.expire_effects(policy_id, now),
            r is Err ==> final(self)@ == old(self)@ && final(self).effects@ == old(self).effects@,
    {
        let mut policy: Policy = match self.policies.get(&policy_id) {
            Some(policy) => *policy,
            None => return Err(PoolError::PolicyNotFound),
        };
        if policy.status != PolicyStatus::Active {
            return Err(PoolError::AlreadyClaimed);
        }
        if now <= policy.end_time {
            return Err(PoolError::PolicyNotYetExpired);
        }
        policy.status = PolicyStatus::Expired;
        self.policies.set(policy_id, policy);
        self.total_coverage = clamp_to_zero(self.total_coverage - policy.coverage_amount);
        self._deactivate_in_registry(policy_id);
        self.publish(PoolEvent::Expired { holder: policy.holder, id: policy_id, at: now });
        assert(self@ =~= old(self)@.expired(policy_id));
        assert(self.effects@ =~= old(self).effects@ + old(self)@.expire_effects(policy_id, now));
        Ok(())
    }

    // ── Administration ─────────────────────────────────────────────────────────

    /// Points the pool at another policy registry. Admin only.
    pub fn set_policy_registry(&mut self, caller: Address, policy_registry: Address) -> (r: Result<
        (),
        PoolError,
    >)
        ensures
            r == old(self)@.admin_check(caller),
            r is Ok ==> final(self)@ == old(self)@.with_registry(policy_registry)
                && final(self).effects@ == old(self).effects@ + seq![
                PoolEffect::RequireAuth { address: caller },
                PoolEffect::Publish { event: PoolEvent::RegistrySet { caller, policy_registry } },
            ],
            r is Err ==> final(self)@ == old(self)@ && final(self).effects@ == old(
                self,
            ).effects@.push(PoolEffect::RequireAuth { address: caller }),
    {
        match self.require_admin(caller) {
            Err(e) => Err(e),
            Ok(settings) => {
                self.settings = Some(Settings { policy_registry, ..settings });
                self.publish(PoolEvent::RegistrySet { caller, policy_registry });
                assert(self@ =~= old(self)@.with_registry(policy_registry));
                Ok(())
            },
        }
    }

    /// Hands the admin role over. Admin only.
    pub fn set_admin(&mut self, caller: Address, new_admin: Address) -> (r: Result<(), PoolError>)
        ensures
            r == old(self)@.admin_check(caller),
            r is Ok ==> final(self)@ == old(self)@.with_admin(new_admin) && final(self).effects@
                == old(self).effects@ + seq![
                PoolEffect::RequireAuth { address: caller },
                PoolEffect::Publish { event: PoolEvent::AdminSet { new_admin } },
            ],
            r is Err ==> final(self)@ == old(self)@ && final(self).effects@ == old(
                self,
            ).effects@.push(PoolEffect::RequireAuth { address: caller }),
    {
        match self.require_admin(caller) {
            Err(e) => Err(e),
            Ok(settings) => {
                self.settings = Some(Settings { admin: new_admin, ..settings });
                self.publish(PoolEvent::AdminSet { new_admin });
                assert(self@ =~= old(self)@.with_admin(new_admin));
                Ok(())
            },
        }
    }

    /// Replaces the pool's configuration as a whole. Admin only.
    pub fn set_pool_config(&mut self, caller: Address, config: PoolConfig) -> (r: Result<
        (),
        PoolError,
    >)
        ensures
            r == old(self)@.admin_check(caller),
            r is Ok ==> final(self)@ == old(self)@.with_config(config) && final(self).effects@
                == old(self).effects@ + seq![
                PoolEffect::RequireAuth { address: caller },
                PoolEffect::Publish { event: PoolEvent::ConfigSet },
            ],
            r is Err ==> final(self)@ == old(self)@ && final(self).effects@ == old(
                self,
            ).effects@.push(PoolEffect::RequireAuth { address: caller }),
    {
        match self.require_admin(caller) {
            Err(e) => Err(e),
            Ok(settings) => {
                self.settings = Some(Settings { config, ..settings });
                self.publish(PoolEvent::ConfigSet);
                assert(self@ =~= old(self)@.with_config(config));
                Ok(())
            },
        }
    }

    /// Records a reading that claims of one coverage category are settled by. Admin only.
    pub fn update_oracle(
        &mut self,
        caller: Address,
        coverage_type: CoverageType,
        value: i128,
        now: u64,
    ) -> (r: Result<(), PoolError>)
        ensures
            r == old(self)@.admin_check(caller),
            r is Ok ==> final(self)@ == old(self)@.with_reading(coverage_type, value, now)
                && final(self).effects@ == old(self).effects@ + seq![
                PoolEffect::RequireAuth { address: caller },
                PoolEffect::Publish { event: PoolEvent::OracleUpdated { coverage_type, value } },
            ],
            r is Err ==> final(self)@ == old(self)@ && final(self).effects@ == old(
                self,
            ).effects@.push(PoolEffect::RequireAuth { address: caller }),
    {
        match self.require_admin(caller) {
            Err(e) => Err(e),
            Ok(_) => {
                self.oracle_data.set(coverage_type, OracleData { value, updated_at: now });
                self.publish(PoolEvent::OracleUpdated { coverage_type, value });
                assert(self@ =~= old(self)@.with_reading(coverage_type, value, now));
                Ok(())
            },
        }
    }

    // ── Views ──────────────────────────────────────────────────────────────────

    /// The summary, or `None` where a figure of it overflows.
    pub fn checked_stats(&self) -> (r: Option<PoolStats>)
        ensures
            r is Some <==> self@.stats_fit(),
            r matches Some(stats) ==> self@.summed_up_by(stats),
    {
        let config = match self.settings {
            Some(settings) => settings.config,
            None => PoolConfig {
                base_premium_rate_bps: 0,
                max_utilization_bps: 0,
                min_coverage: 0,
                max_coverage: 0,
                lockup_days: 0,
            },
        };
        let utilization: i128 = if self.total_capital == 0 {
            0
        } else {
            quotient(product(self.total_coverage, BPS)?, self.total_capital)?
        };
        let utilization_bps: u32 = #[verifier::truncate] (utilization as u32);
        assert(utilization_bps == utilization % 0x1_0000_0000) by (bit_vector)
            requires
                utilization_bps == utilization as u32,
        ;
        let share_price: i128 = if self.total_shares == 0 {
            PRECISION
        } else {
            quotient(product(self.total_capital, PRECISION)?, self.total_shares)?
        };
        let apy_estimate_bps: u32 = config.base_premium_rate_bps.checked_mul(utilization_bps)?
            / 10_000;
        let max_capacity: i128 = ratio(
            product(self.total_capital, config.max_utilization_bps as i128)?,
            BPS,
        );
        let available_capacity: i128 = clamp_to_zero(
            difference(max_capacity, self.total_coverage)?,
        );
        Some(
            PoolStats {
                total_capital: self.total_capital,
                total_coverage: self.total_coverage,
                total_shares: self.total_shares,
                utilization_bps,
                share_price,
                apy_estimate_bps,
                available_capacity,
            },
        )
    }

    /// A summary of the pool.
    pub fn pool_stats(&self) -> (stats: PoolStats)
        requires
            self@.stats_fit(),
        ensures
            self@.summed_up_by(stats),
    {
        self.checked_stats().unwrap()
    }

    /// The policy with the given id.
    pub fn get_policy(&self, id: u64) -> (r: Option<Policy>)
        ensures
            r == (if self@.policies.contains_key(id) {
                Some(self@.policies[id])
            } else {
                None
            }),
    {
        match self.policies.get(&id) {
            Some(policy) => Some(*policy),
            None => None,
        }
    }

    /// The policies with the given ids, in order. An id without a policy is skipped.
    pub fn get_policies(&self, ids: &IdList) -> (r: Vec<Policy>)
        ensures
            r@ == self@.policies_with(ids@),
    {
        let len: u32 = ids.len();
        let mut out: Vec<Policy> = Vec::new();
        let mut i: u32 = 0;
        assert(ids@.take(0) =~= Seq::<u64>::empty());
        while i < len
            invariant
                i <= len,
                len == ids@.len(),
                out@ == self@.policies_with(ids@.take(i as int)),
            decreases len - i,
        {
            proof {
                let taken = ids@.take(i + 1);
                assert(taken.drop_last() =~= ids@.take(i as int));
                assert(taken.last() == ids@[i as int]);
            }
            if let Some(id) = ids.get(i) {
                if let Some(policy) = self.policies.get(&id) {
                    out.push(*policy);
                }
            }
            i += 1;
        }
        assert(ids@.take(len as int) =~= ids@);
        out
    }

    /// The ids of the policies that `user` has bought, oldest first.
    pub fn user_policies(&self, env: &soroban_sdk::Env, user: Address) -> (ids: IdList)
        ensures
            ids@ == self@.policies_of(user),
    {
        match self.user_policies.get(&user) {
            Some(ids) => ids.clone(),
            None => IdList::new(env),
        }
    }

    /// The shares that `user` holds.
    pub fn shares_of(&self, user: Address) -> (r: i128)
        ensures
            r == self@.shares_of(user),
    {
        match self.shares.get(&user) {
            Some(shares) => *shares,
            None => 0,
        }
    }

    /// Whether `lockup_expires_at` can be computed without overflow.
    pub fn lockup_expires_at_fits(&self, provider: Address) -> (r: bool)
        ensures
            r == self@.lockup_end_fits(provider),
    {
        match self.last_deposits.get(&provider) {
            None => true,
            Some(last_deposit) => match self.settings {
                None => false,
                Some(settings) => Self::checked_lockup_end(
                    &settings.config,
                    *last_deposit,
                ).is_some(),
            },
        }
    }

    /// From when on `provider` may withdraw, or `None` where they never deposited.
    pub fn lockup_expires_at(&self, provider: Address) -> (r: Option<u64>)
        requires
            self@.lockup_end_fits(provider),
        ensures
            match r {
                Some(end) => self@.lockup_end(provider) == Some(end as int),
                None => self@.lockup_end(provider) is None,
            },
    {
        match self.last_deposits.get(&provider) {
            None => None,
            Some(last_deposit) => match self.settings {
                None => None,
                Some(settings) => Self::checked_lockup_end(&settings.config, *last_deposit),
            },
        }
    }

    /// The registry that the pool reports policies to.
    pub fn policy_registry(&self) -> (r: Option<Address>)
        ensures
            r == (match self@.settings {
                Some(settings) => Some(settings.policy_registry),
                None => None,
            }),
    {
        match self.settings {
            Some(settings) => Some(settings.policy_registry),
            None => None,
        }
    }

    /// The address that may make admin-only calls.
    pub fn admin(&self) -> (r: Option<Address>)
        ensures
            r == (match self@.settings {
                Some(settings) => Some(settings.admin),
                None => None,
            }),
    {
        match self.settings {
            Some(settings) => Some(settings.admin),
            None => None,
        }
    }

    /// The pool's configuration.
    pub fn pool_config(&self) -> (r: Option<PoolConfig>)
        ensures
            r == (match self@.settings {
                Some(settings) => Some(settings.config),
                None => None,
            }),
    {
        match self.settings {
            Some(settings) => Some(settings.config),
            None => None,
        }
    }
}

} // verus!
