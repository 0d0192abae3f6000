use refract::address::Address;
use refract::ident::Ident;
use refract::oracle::RefractOracle;
use refract::policy;
use refract::policy::RefractPolicyRegistry;
use refract::pool::laws::AMOUNT_LIMIT;
use refract::pool::{
    CoverageType, PolicyParams, PolicyStatus, PoolEffect, PoolError, RefractPool,
    RegistryCoverageType,
};
use soroban_sdk::testutils::EnvTestConfig;
use soroban_sdk::{Env, Symbol};

const ONE_USDC: i128 = 10_000_000;
const DAY: u64 = 86_400;

fn env() -> Env {
    Env::new_with_config(EnvTestConfig { capture_snapshot_at_drop: false })
}

fn user(n: u128) -> Address {
    Address { contract: false, high: 0, low: n }
}

fn admin() -> Address {
    user(1)
}

fn pool_address() -> Address {
    Address { contract: true, high: 0, low: 1 }
}

/// A pool and its registry, with the pool's token balance.
struct Pair {
    env: Env,
    pool: RefractPool,
    registry: RefractPolicyRegistry,
    balance: i128,
    now: u64,
}

fn pair() -> Pair {
    let mut pool = RefractPool::new();
    pool.initialize(admin(), user(2), user(3)).unwrap();
    pool.effects.clear();
    let mut registry = RefractPolicyRegistry::new();
    registry.initialize(admin(), pool_address()).unwrap();
    Pair { env: env(), pool, registry, balance: 0, now: 1_000 }
}

impl Pair {
    fn carry_out<T>(&mut self, res: Result<T, PoolError>) -> Result<T, PoolError> {
        for effect in std::mem::take(&mut self.pool.effects) {
            if res.is_err() {
                continue;
            }
            match effect {
                PoolEffect::Collect { amount, .. } => self.balance += amount,
                PoolEffect::Pay { amount, .. } => self.balance -= amount,
                PoolEffect::RegisterPolicy { registry, registration } if registry == user(3) => {
                    let coverage_type = match registration.coverage_type {
                        RegistryCoverageType::StablecoinDepeg => {
                            policy::CoverageType::StablecoinDepeg
                        }
                        RegistryCoverageType::MarketCrash => policy::CoverageType::MarketCrash,
                        RegistryCoverageType::LiquidationShield => {
                            policy::CoverageType::LiquidationShield
                        }
                        RegistryCoverageType::SmartContractRisk => {
                            policy::CoverageType::SmartContractRisk
                        }
                        RegistryCoverageType::FlightDelay => policy::CoverageType::FlightDelay,
                    };
                    let reg = policy::PolicyRegistration {
                        policy_id: registration.policy_id,
                        holder: registration.holder,
                        coverage_type,
                        coverage_amount: registration.coverage_amount,
                        premium: registration.premium,
                        expires_at: registration.expires_at,
                    };
                    assert_eq!(
                        self.registry.register_policy(&self.env, pool_address(), reg, self.now),
                        Ok(registration.policy_id)
                    );
                }
                PoolEffect::DeactivatePolicy { registry, policy_id } if registry == user(3) => {
                    assert_eq!(self.registry.deactivate_policy(pool_address(), policy_id), Ok(()));
                }
                _ => {}
            }
        }
        res
    }

    fn provide(&mut self, who: Address, amount: i128) -> Result<i128, PoolError> {
        assert!(self.pool.provide_capital_fits(who, amount));
        let res = self.pool.provide_capital(who, amount, self.now);
        self.carry_out(res)
    }

    fn withdraw(&mut self, who: Address, shares: i128) -> Result<i128, PoolError> {
        assert!(self.pool.withdraw_capital_fits(who, shares, self.now));
        let res = self.pool.withdraw_capital(who, shares, self.now);
        self.carry_out(res)
    }

    fn buy(&mut self, who: Address, coverage: i128, t: CoverageType) -> Result<u64, PoolError> {
        let params = PolicyParams {
            coverage_amount: coverage,
            coverage_type: t,
            duration_days: 10,
            trigger_threshold: 100,
        };
        assert!(self.pool.buy_policy_fits(who, params, self.now));
        let res = self.pool.buy_policy(&self.env, who, params, self.now);
        self.carry_out(res)
    }

    fn read(&mut self, t: CoverageType, value: i128) {
        let res = self.pool.update_oracle(admin(), t, value, self.now);
        self.carry_out(res).unwrap();
    }

    fn claim(&mut self, id: u64) -> Result<i128, PoolError> {
        assert!(self.pool.process_claim_fits(id, self.now));
        let res = self.pool.process_claim(id, self.now);
        self.carry_out(res)
    }

    fn sweep(&mut self, id: u64) -> Result<(), PoolError> {
        assert!(self.pool.expire_policy_fits(id, self.now));
        let res = self.pool.expire_policy(id, self.now);
        self.carry_out(res)
    }

    /// Holds the books to the records.
    fn audit(&self) {
        let shares: i128 = (0..20).map(|n| self.pool.shares_of(user(n))).sum();
        assert_eq!(shares, self.pool.total_shares);
        let policies: Vec<_> =
            (0..self.pool.next_policy_id).map(|id| self.pool.get_policy(id).unwrap()).collect();
        let open: i128 = policies
            .iter()
            .filter(|p| p.status == PolicyStatus::Active)
            .map(|p| p.coverage_amount)
            .sum();
        assert_eq!(open, self.pool.total_coverage);
        let paid: i128 = policies.iter().map(|p| p.premium_paid).sum();
        assert_eq!(paid, self.pool.total_premiums);
        assert_eq!(self.balance, self.pool.total_capital);
        assert!(self.pool.total_coverage <= self.pool.total_capital);
        for p in &policies {
            let record = self.registry.get_policy(p.id).unwrap();
            assert_eq!(record.holder, p.holder);
            assert_eq!(record.coverage_amount, p.coverage_amount);
            assert_eq!(record.premium, p.premium_paid);
            assert_eq!(record.expires_at, p.end_time);
            assert_eq!(record.is_active, p.status == PolicyStatus::Active);
            let ids = self.pool.user_policies(&self.env, p.holder);
            assert!((0..ids.len()).any(|i| ids.get(i) == Some(p.id)));
        }
        let stats = self.registry.get_stats(&self.env);
        let figure = |name: &str| stats.get(Symbol::new(&self.env, name)).unwrap();
        let active = policies.iter().filter(|p| p.status == PolicyStatus::Active).count();
        assert_eq!(figure("total_policies"), policies.len() as i128);
        assert_eq!(figure("active_policies"), active as i128);
        assert_eq!(figure("total_premium"), paid);
    }
}

#[test]
fn the_books_balance_over_a_history() {
    let mut p = pair();
    p.audit();
    p.provide(user(10), 5_000 * ONE_USDC).unwrap();
    p.audit();
    p.provide(user(11), 3_333_333_333).unwrap();
    p.audit();
    let crash = p.buy(user(12), 1_000 * ONE_USDC, CoverageType::MarketCrash).unwrap();
    let flight = p.buy(user(13), 77 * ONE_USDC + 7, CoverageType::FlightDelay).unwrap();
    let hack = p.buy(user(12), 500 * ONE_USDC, CoverageType::SmartContractRisk).unwrap();
    p.audit();
    assert_eq!(p.withdraw(user(11), 1), Ok(1));
    p.audit();
    p.read(CoverageType::MarketCrash, -101);
    assert_eq!(p.claim(crash), Ok(1_000 * ONE_USDC));
    p.audit();
    assert_eq!(p.claim(flight), Err(PoolError::PolicyNotTriggered));
    p.provide(user(10), 123_456_789).unwrap();
    p.audit();
    p.now += 10 * DAY + 1;
    assert_eq!(p.sweep(flight), Ok(()));
    p.audit();
    assert_eq!(p.sweep(hack), Ok(()));
    p.audit();
    for who in [10, 11] {
        let shares = p.pool.shares_of(user(who));
        p.withdraw(user(who), shares).unwrap();
        p.audit();
    }
    assert_eq!((p.pool.total_capital, p.pool.total_shares), (0, 0));
    assert_eq!(p.balance, 0);
}

#[test]
fn a_deposit_dilutes_nobody() {
    let mut p = pair();
    p.provide(user(10), 1_000 * ONE_USDC).unwrap();
    p.buy(user(12), 100 * ONE_USDC, CoverageType::MarketCrash).unwrap();
    let (capital, shares) = (p.pool.total_capital, p.pool.total_shares);
    p.provide(user(11), 7).unwrap();
    // capital / shares <= capital' / shares'
    assert!(capital * p.pool.total_shares <= p.pool.total_capital * shares);
}

#[test]
fn a_withdrawal_hurts_nobody() {
    let mut p = pair();
    p.provide(user(10), 1_000 * ONE_USDC).unwrap();
    p.provide(user(11), 777 * ONE_USDC).unwrap();
    p.buy(user(12), 100 * ONE_USDC, CoverageType::MarketCrash).unwrap();
    let (capital, shares) = (p.pool.total_capital, p.pool.total_shares);
    let other = p.pool.shares_of(user(11));
    p.withdraw(user(10), 333).unwrap();
    assert!(capital * p.pool.total_shares <= p.pool.total_capital * shares);
    assert_eq!(p.pool.shares_of(user(11)), other);
}

#[test]
fn a_claim_larger_than_the_capital_empties_the_pool() {
    let mut p = pair();
    let shares = p.provide(user(10), 1_000 * ONE_USDC).unwrap();
    let id = p.buy(user(12), 100 * ONE_USDC, CoverageType::MarketCrash).unwrap();
    // Taking every share out is allowed, and leaves the policy without capital behind it.
    p.withdraw(user(10), shares).unwrap();
    p.provide(user(10), ONE_USDC).unwrap();
    p.read(CoverageType::MarketCrash, -101);
    assert_eq!(p.claim(id), Ok(100 * ONE_USDC));
    assert_eq!((p.pool.total_capital, p.pool.total_coverage), (0, 0));
}

#[test]
fn amounts_up_to_the_limit_fit() {
    let mut p = pair();
    assert!(p.pool.provide_capital_fits(user(10), AMOUNT_LIMIT));
    p.provide(user(10), AMOUNT_LIMIT).unwrap();
    assert!(p.pool.provide_capital_fits(user(10), AMOUNT_LIMIT));
    assert!(p.pool.withdraw_capital_fits(user(10), AMOUNT_LIMIT, p.now));
    assert!(p.pool.checked_stats().is_some());
    let params = PolicyParams {
        coverage_amount: AMOUNT_LIMIT,
        coverage_type: CoverageType::SmartContractRisk,
        duration_days: u32::MAX,
        trigger_threshold: 0,
    };
    assert!(p.pool.quote_premium_fits(params));
    let wide = refract::pool::PoolConfig {
        max_utilization_bps: 10_000,
        max_coverage: AMOUNT_LIMIT,
        ..p.pool.pool_config().unwrap()
    };
    p.pool.set_pool_config(admin(), wide).unwrap();
    assert!(p.pool.quote_premium(params).is_ok());
    assert!(p.pool.buy_policy_fits(user(12), params, p.now));
    // Without an id left the purchase does not fit.
    p.pool.next_policy_id = u64::MAX;
    assert!(!p.pool.buy_policy_fits(user(12), params, p.now));
    let config = refract::pool::PoolConfig {
        base_premium_rate_bps: u32::MAX,
        ..p.pool.pool_config().unwrap()
    };
    assert!(RefractPool::checked_premium(&config, &params).is_some());
}

#[test]
fn a_settled_policy_never_changes_again() {
    let mut p = pair();
    p.provide(user(10), 1_000 * ONE_USDC).unwrap();
    let id = p.buy(user(12), 100 * ONE_USDC, CoverageType::FlightDelay).unwrap();
    p.read(CoverageType::FlightDelay, 101);
    p.claim(id).unwrap();
    let settled = p.pool.get_policy(id).unwrap();
    p.buy(user(12), 100 * ONE_USDC, CoverageType::FlightDelay).unwrap();
    p.now += 20 * DAY;
    assert_eq!(p.sweep(id), Err(PoolError::AlreadyClaimed));
    assert_eq!(p.claim(id), Err(PoolError::AlreadyClaimed));
    let later = p.pool.get_policy(id).unwrap();
    assert_eq!((later.status, later.payout_at), (PolicyStatus::Claimed, Some(1_000)));
    assert_eq!((later.end_time, later.holder), (settled.end_time, settled.holder));
}

#[test]
fn a_registry_hears_nothing_while_the_pool_is_wired_elsewhere() {
    let mut p = pair();
    p.provide(user(10), 1_000 * ONE_USDC).unwrap();
    let res = p.pool.set_policy_registry(admin(), user(4));
    p.carry_out(res).unwrap();
    let elsewhere = p.buy(user(12), 100 * ONE_USDC, CoverageType::FlightDelay).unwrap();
    assert_eq!(p.registry.get_policy(elsewhere), Err(policy::RegistryError::PolicyNotFound));
    let res = p.pool.set_policy_registry(admin(), user(3));
    p.carry_out(res).unwrap();
    let here = p.buy(user(12), 100 * ONE_USDC, CoverageType::FlightDelay).unwrap();
    assert_eq!(p.registry.get_policy(here).unwrap().policy_id, here);
}

#[test]
fn records_stay_in_order_under_a_negative_minimum() {
    let mut p = pair();
    p.provide(user(10), 1_000 * ONE_USDC).unwrap();
    let config =
        refract::pool::PoolConfig { min_coverage: -ONE_USDC, ..p.pool.pool_config().unwrap() };
    let res = p.pool.set_pool_config(admin(), config);
    p.carry_out(res).unwrap();
    let a = p.buy(user(12), -5, CoverageType::FlightDelay).unwrap();
    p.read(CoverageType::FlightDelay, 101);
    p.claim(a).unwrap();
    let b = p.buy(user(12), 3 * ONE_USDC, CoverageType::FlightDelay).unwrap();
    assert_eq!(p.pool.get_policy(a).unwrap().status, PolicyStatus::Claimed);
    let found = p.pool.get_policies(&p.pool.user_policies(&p.env, user(12)));
    assert_eq!(found.iter().map(|q| q.id).collect::<Vec<_>>(), vec![a, b]);
    assert!(!p.registry.get_policy(a).unwrap().is_active);
    assert!(p.registry.get_policy(b).unwrap().is_active);
}

#[test]
fn a_feeds_time_never_goes_back() {
    let env = env();
    let mut oracle = RefractOracle::new(&env);
    oracle.initialize(&env, admin()).unwrap();
    let feed = || Ident::new("USDC_PRICE").unwrap();
    let source = || Ident::new("test").unwrap();
    let mut last = 0;
    for (timestamp, now) in [(50, 60), (40, 60), (60, 60), (59, 70), (70, 70), (80, 70), (70, 75)] {
        let _ = oracle.submit(admin(), feed(), 1, timestamp, source(), now);
        let stored = oracle.readings.get(&feed()).unwrap().timestamp;
        assert!(stored >= last && stored <= now);
        last = stored;
    }
    assert_eq!(last, 70);
}

#[test]
fn a_worse_reading_triggers_too() {
    let env = env();
    let mut oracle = RefractOracle::new(&env);
    oracle.initialize(&env, admin()).unwrap();
    let feed = Ident::new("F").unwrap();
    for (coverage_type, value, step) in [(0, 9_499_999, -1), (1, -3_000_001, -1), (4, 121, 1)] {
        for i in 0..3 {
            let v = value + step * i;
            oracle.submit(admin(), feed.clone(), v, 0, feed.clone(), 0).unwrap();
            assert_eq!(oracle.is_triggered(coverage_type, &feed, 0), Ok(true));
        }
    }
}
