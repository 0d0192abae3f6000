use refract::address::Address;
use refract::lists::IdList;
use refract::policy;
use refract::policy::{RefractPolicyRegistry, RegistryError};
use refract::pool::{
    CoverageType, PolicyParams, PolicyStatus, PoolConfig, PoolEffect, PoolError, PoolEvent,
    RefractPool, RegistryCoverageType,
};
use soroban_sdk::testutils::EnvTestConfig;
use soroban_sdk::Env;

const ONE_USDC: i128 = 10_000_000; // 1e7 fixed-point
const DAY: u64 = 86_400;

/// The pool with its registry and its token, and a ledger that carries out what the pool asks.
struct Fixture {
    env: Env,
    pool: RefractPool,
    registry: RefractPolicyRegistry,
    pool_address: Address,
    registry_address: Address,
    token: Address,
    admin: Address,
    balances: Vec<(Address, i128)>,
    authorized: Vec<Address>,
    events: Vec<PoolEvent>,
    accounts: u128,
    now: u64,
}

fn env() -> Env {
    Env::new_with_config(EnvTestConfig { capture_snapshot_at_drop: false })
}

fn contract(n: u128) -> Address {
    Address { contract: true, high: 1, low: n }
}

fn setup() -> Fixture {
    let admin = Address { contract: false, high: 0, low: 1 };
    let (pool_address, registry_address, token) = (contract(1), contract(2), contract(3));
    let mut registry = RefractPolicyRegistry::new();
    registry.initialize(admin, pool_address).unwrap();
    let mut f = Fixture {
        env: env(),
        pool: RefractPool::new(),
        registry,
        pool_address,
        registry_address,
        token,
        admin,
        balances: Vec::new(),
        authorized: Vec::new(),
        events: Vec::new(),
        accounts: 100,
        now: 0,
    };
    f.pool.initialize(admin, token, registry_address).unwrap();
    f.carry_out();
    f
}

fn registry_category(t: RegistryCoverageType) -> policy::CoverageType {
    match t {
        RegistryCoverageType::StablecoinDepeg => policy::CoverageType::StablecoinDepeg,
        RegistryCoverageType::MarketCrash => policy::CoverageType::MarketCrash,
        RegistryCoverageType::LiquidationShield => policy::CoverageType::LiquidationShield,
        RegistryCoverageType::SmartContractRisk => policy::CoverageType::SmartContractRisk,
        RegistryCoverageType::FlightDelay => policy::CoverageType::FlightDelay,
    }
}

impl Fixture {
    fn balance(&self, who: Address) -> i128 {
        self.balances.iter().find(|(a, _)| *a == who).map_or(0, |(_, b)| *b)
    }

    fn credit(&mut self, who: Address, amount: i128) {
        match self.balances.iter_mut().find(|(a, _)| *a == who) {
            Some((_, balance)) => *balance += amount,
            None => self.balances.push((who, amount)),
        }
        assert!(self.balance(who) >= 0, "overdrawn");
    }

    /// A fresh account.
    fn generate(&mut self) -> Address {
        self.accounts += 1;
        Address { contract: false, high: 0, low: self.accounts }
    }

    /// A fresh account that holds `amount` USDC.
    fn funded(&mut self, amount: i128) -> Address {
        let a = self.generate();
        self.credit(a, amount);
        a
    }

    /// Does what the pool has asked for.
    fn carry_out(&mut self) {
        for effect in std::mem::take(&mut self.pool.effects) {
            match effect {
                PoolEffect::RequireAuth { address } => self.authorized.push(address),
                PoolEffect::Collect { token, from, amount } => {
                    assert_eq!(token, self.token);
                    self.credit(from, -amount);
                    self.credit(self.pool_address, amount);
                }
                PoolEffect::Pay { token, to, amount } => {
                    assert_eq!(token, self.token);
                    self.credit(self.pool_address, -amount);
                    self.credit(to, amount);
                }
                PoolEffect::RegisterPolicy { registry, registration } => {
                    assert_eq!(registry, self.registry_address);
                    let reg = policy::PolicyRegistration {
                        policy_id: registration.policy_id,
                        holder: registration.holder,
                        coverage_type: registry_category(registration.coverage_type),
                        coverage_amount: registration.coverage_amount,
                        premium: registration.premium,
                        expires_at: registration.expires_at,
                    };
                    let id = self
                        .registry
                        .register_policy(&self.env, self.pool_address, reg, self.now)
                        .unwrap();
                    assert_eq!(id, registration.policy_id);
                }
                PoolEffect::DeactivatePolicy { registry, policy_id } => {
                    if registry == self.registry_address {
                        let _ = self.registry.deactivate_policy(self.pool_address, policy_id);
                    }
                }
                PoolEffect::Publish { event } => self.events.push(event),
            }
        }
    }

    /// Carries out what a call asked for, or rolls it back where the call failed.
    fn finish<T>(&mut self, res: Result<T, PoolError>) -> Result<T, PoolError> {
        if res.is_ok() {
            self.carry_out();
        } else {
            self.pool.effects.clear();
        }
        res
    }

    fn provide_capital(&mut self, lp: Address, amount: i128) -> Result<i128, PoolError> {
        assert!(self.pool.provide_capital_fits(lp, amount));
        let res = self.pool.provide_capital(lp, amount, self.now);
        self.finish(res)
    }

    fn withdraw_capital(&mut self, lp: Address, shares: i128) -> Result<i128, PoolError> {
        assert!(self.pool.withdraw_capital_fits(lp, shares, self.now));
        let res = self.pool.withdraw_capital(lp, shares, self.now);
        self.finish(res)
    }

    fn buy_policy(&mut self, holder: Address, params: PolicyParams) -> Result<u64, PoolError> {
        assert!(self.pool.buy_policy_fits(holder, params, self.now));
        let res = self.pool.buy_policy(&self.env, holder, params, self.now);
        self.finish(res)
    }

    fn process_claim(&mut self, id: u64) -> Result<i128, PoolError> {
        assert!(self.pool.process_claim_fits(id, self.now));
        let res = self.pool.process_claim(id, self.now);
        self.finish(res)
    }

    fn expire_policy(&mut self, id: u64) -> Result<(), PoolError> {
        assert!(self.pool.expire_policy_fits(id, self.now));
        let res = self.pool.expire_policy(id, self.now);
        self.finish(res)
    }

    fn update_oracle(&mut self, t: CoverageType, value: i128) {
        let res = self.pool.update_oracle(self.admin, t, value, self.now);
        self.finish(res).unwrap();
    }

    fn set_config(&mut self, config: PoolConfig) {
        let res = self.pool.set_pool_config(self.admin, config);
        self.finish(res).unwrap();
    }
}

fn depeg(coverage_amount: i128) -> PolicyParams {
    PolicyParams {
        coverage_amount,
        coverage_type: CoverageType::StablecoinDepeg,
        duration_days: 30,
        trigger_threshold: 500, // 5% depeg
    }
}

#[test]
fn double_initialize_is_rejected() {
    let mut f = setup();
    let res = f.pool.initialize(f.admin, f.token, f.registry_address);
    assert_eq!(res, Err(PoolError::AlreadyInitialized));
}

#[test]
fn provide_capital_rejects_before_initialize() {
    let mut pool = RefractPool::new();
    let lp = contract(9);
    assert!(pool.provide_capital_fits(lp, 10 * ONE_USDC));
    let res = pool.provide_capital(lp, 10 * ONE_USDC, 0);
    assert_eq!(res, Err(PoolError::NotInitialized));
}

#[test]
fn every_other_call_rejects_before_initialize() {
    let mut pool = RefractPool::new();
    let a = contract(9);
    assert_eq!(pool.quote_shares(1), Err(PoolError::NotInitialized));
    assert_eq!(pool.quote_withdrawal(1), Err(PoolError::NotInitialized));
    assert_eq!(pool.withdraw_capital(a, 1, 0), Err(PoolError::NotInitialized));
    assert_eq!(pool.quote_premium(depeg(ONE_USDC)), Err(PoolError::NotInitialized));
    assert_eq!(
        pool.buy_policy(&env(), a, depeg(ONE_USDC), 0),
        Err(PoolError::NotInitialized)
    );
    assert_eq!(pool.set_admin(a, a), Err(PoolError::NotInitialized));
    assert_eq!(pool.set_policy_registry(a, a), Err(PoolError::NotInitialized));
    assert_eq!(
        pool.update_oracle(a, CoverageType::FlightDelay, 1, 0),
        Err(PoolError::NotInitialized)
    );
    assert_eq!(pool.admin(), None);
    assert_eq!(pool.pool_config(), None);
    assert_eq!(pool.policy_registry(), None);
    assert_eq!(pool.lockup_expires_at(a), None);
    assert_eq!(pool.pool_stats().share_price, ONE_USDC);
}

#[test]
fn initialize_sets_defaults() {
    let f = setup();
    let stats = f.pool.pool_stats();
    assert_eq!(stats.total_capital, 0);
    assert_eq!(stats.total_shares, 0);
    // Share price defaults to 1.0 when the pool is empty.
    assert_eq!(stats.share_price, ONE_USDC);
    let config = f.pool.pool_config().unwrap();
    assert_eq!(config.base_premium_rate_bps, 300);
    assert_eq!(config.max_utilization_bps, 8_000);
    assert_eq!(config.min_coverage, 10 * ONE_USDC);
    assert_eq!(config.max_coverage, 5_000 * ONE_USDC);
    assert_eq!(f.pool.admin(), Some(f.admin));
    assert_eq!(f.authorized, vec![f.admin]);
}

#[test]
fn provide_capital_mints_shares_one_to_one_initially() {
    let mut f = setup();
    let lp = f.funded(10_000 * ONE_USDC);

    let shares = f.provide_capital(lp, 10_000 * ONE_USDC).unwrap();
    assert_eq!(shares, 10_000 * ONE_USDC); // 1:1 on first deposit
    assert_eq!(f.pool.shares_of(lp), shares);

    let stats = f.pool.pool_stats();
    assert_eq!(stats.total_capital, 10_000 * ONE_USDC);
    // Funds actually moved into the pool contract.
    assert_eq!(f.balance(f.pool_address), 10_000 * ONE_USDC);
}

#[test]
fn provide_capital_rejects_amounts_that_are_not_positive() {
    let mut f = setup();
    let lp = f.funded(ONE_USDC);
    assert_eq!(f.provide_capital(lp, 0), Err(PoolError::ZeroAmount));
    assert_eq!(f.provide_capital(lp, -1), Err(PoolError::ZeroAmount));
    assert_eq!(f.pool.quote_shares(0), Err(PoolError::ZeroAmount));
}

#[test]
fn buy_policy_charges_quoted_premium() {
    let mut f = setup();
    let lp = f.funded(100_000 * ONE_USDC);
    f.provide_capital(lp, 100_000 * ONE_USDC).unwrap();

    let holder = f.funded(1_000 * ONE_USDC);
    let params = depeg(1_000 * ONE_USDC);

    let quote = f.pool.quote_premium(params).unwrap();
    let before = f.balance(holder);
    let id = f.buy_policy(holder, params).unwrap();
    let after = f.balance(holder);

    assert_eq!(id, 0);
    assert_eq!(before - after, quote); // holder paid exactly the quote
    let policy = f.pool.get_policy(id).unwrap();
    assert_eq!(policy.status, PolicyStatus::Active);
    assert_eq!(policy.coverage_amount, 1_000 * ONE_USDC);
    assert_eq!(policy.end_time, 30 * DAY);
    assert_eq!(policy.payout_at, None);
    // 1,000 USDC at 3% for 30/365 of a year.
    assert_eq!(quote, 24_657_510);
}

#[test]
fn buy_policy_registers_in_the_policy_registry() {
    let mut f = setup();
    let lp = f.funded(100_000 * ONE_USDC);
    f.provide_capital(lp, 100_000 * ONE_USDC).unwrap();

    let holder = f.funded(1_000 * ONE_USDC);
    let params = PolicyParams {
        coverage_amount: 1_000 * ONE_USDC,
        coverage_type: CoverageType::MarketCrash,
        duration_days: 30,
        trigger_threshold: 3_000,
    };
    let quote = f.pool.quote_premium(params).unwrap();
    let id = f.buy_policy(holder, params).unwrap();

    // The pool's own record and the registry's mirrored record must agree.
    let record = f.registry.get_policy(id).unwrap();
    assert_eq!(record.policy_id, id);
    assert_eq!(record.holder, holder);
    assert_eq!(record.coverage_type, policy::CoverageType::MarketCrash);
    assert_eq!(record.coverage_amount, 1_000 * ONE_USDC);
    assert_eq!(record.premium, quote);
    assert!(record.is_active);
    assert_eq!(record.expires_at, f.pool.get_policy(id).unwrap().end_time);

    let holder_ids = f.registry.get_holder_policy_ids(&f.env, holder);
    assert_eq!(holder_ids.len(), 1);
    assert_eq!(holder_ids.get(0).unwrap(), id);
}

#[test]
fn categories_keep_their_names_in_the_registry() {
    let pairs = [
        (CoverageType::StablecoinDepeg, RegistryCoverageType::StablecoinDepeg),
        (CoverageType::MarketCrash, RegistryCoverageType::MarketCrash),
        (CoverageType::LiquidationShield, RegistryCoverageType::LiquidationShield),
        (CoverageType::SmartContractRisk, RegistryCoverageType::SmartContractRisk),
        (CoverageType::FlightDelay, RegistryCoverageType::FlightDelay),
    ];
    for (t, name) in pairs {
        assert_eq!(RefractPool::_to_registry_coverage_type(&t), name);
    }
}

#[test]
fn a_stranger_cannot_register_directly_bypassing_the_pool() {
    let mut f = setup();
    let stranger = f.generate();
    let holder = f.generate();
    let res = f.registry.register_policy(
        &f.env,
        stranger,
        policy::PolicyRegistration {
            policy_id: 999,
            holder,
            coverage_type: policy::CoverageType::StablecoinDepeg,
            coverage_amount: 1_000 * ONE_USDC,
            premium: 10 * ONE_USDC,
            expires_at: 9_999_999_999,
        },
        f.now,
    );
    assert_eq!(res, Err(RegistryError::Unauthorized));
}

#[test]
fn set_policy_registry_repoints_the_wired_registry() {
    let mut f = setup();
    assert_eq!(f.pool.policy_registry(), Some(f.registry_address));

    let new_registry = contract(20);
    f.pool.set_policy_registry(f.admin, new_registry).unwrap();
    assert_eq!(f.pool.policy_registry(), Some(new_registry));
}

#[test]
fn set_policy_registry_emits_an_event() {
    let mut f = setup();
    let new_registry = contract(20);

    let before = f.events.len();
    f.pool.set_policy_registry(f.admin, new_registry).unwrap();
    f.carry_out();
    let after = f.events.len();

    assert_eq!(after, before + 1);
}

#[test]
fn set_policy_registry_rejects_non_admin() {
    let mut f = setup();
    let stranger = f.generate();
    let res = f.pool.set_policy_registry(stranger, contract(21));
    assert_eq!(res, Err(PoolError::Unauthorized));
}

#[test]
fn admin_calls_reject_strangers_and_follow_the_rotation() {
    let mut f = setup();
    let stranger = f.generate();
    let config = f.pool.pool_config().unwrap();
    assert_eq!(f.pool.set_admin(stranger, stranger), Err(PoolError::Unauthorized));
    assert_eq!(f.pool.set_pool_config(stranger, config), Err(PoolError::Unauthorized));
    assert_eq!(
        f.pool.update_oracle(stranger, CoverageType::FlightDelay, 1, f.now),
        Err(PoolError::Unauthorized)
    );
    f.pool.set_admin(f.admin, stranger).unwrap();
    assert_eq!(f.pool.admin(), Some(stranger));
    assert_eq!(f.pool.set_admin(f.admin, f.admin), Err(PoolError::Unauthorized));
    let wider = PoolConfig { max_utilization_bps: 9_000, ..config };
    f.pool.set_pool_config(stranger, wider).unwrap();
    assert_eq!(f.pool.pool_config(), Some(wider));
}

#[test]
fn buy_policy_rejected_below_min_coverage() {
    let mut f = setup();
    let lp = f.funded(100_000 * ONE_USDC);
    f.provide_capital(lp, 100_000 * ONE_USDC).unwrap();

    // Default config's min_coverage is 10 USDC; ask for 1 USDC.
    let holder = f.funded(1_000 * ONE_USDC);
    let res = f.buy_policy(holder, depeg(1 * ONE_USDC));
    assert_eq!(res, Err(PoolError::InsufficientCapacity));
}

#[test]
fn buy_policy_rejected_above_max_coverage() {
    let mut f = setup();
    let lp = f.funded(1_000_000 * ONE_USDC);
    f.provide_capital(lp, 1_000_000 * ONE_USDC).unwrap();

    // Default config's max_coverage is 5,000 USDC; ask for 5,001.
    let holder = f.funded(10_000 * ONE_USDC);
    let res = f.buy_policy(holder, depeg(5_001 * ONE_USDC));
    assert_eq!(res, Err(PoolError::InsufficientCapacity));
}

#[test]
fn buy_policy_rejected_when_over_utilization() {
    let mut f = setup();
    let lp = f.funded(1_000 * ONE_USDC);
    f.provide_capital(lp, 1_000 * ONE_USDC).unwrap();

    // 80% cap on 1_000 capital => max 800 coverage; ask for 900.
    let holder = f.funded(1_000 * ONE_USDC);
    let res = f.buy_policy(holder, depeg(900 * ONE_USDC));
    assert_eq!(res, Err(PoolError::InsufficientCapacity));
    assert_eq!(f.pool.quote_premium(depeg(900 * ONE_USDC)), Err(PoolError::InsufficientCapacity));
    assert_eq!(f.balance(holder), 1_000 * ONE_USDC);
}

#[test]
fn the_reported_capacity_is_what_can_be_bought() {
    let mut f = setup();
    let lp = f.funded(1_000 * ONE_USDC);
    f.provide_capital(lp, 1_000 * ONE_USDC).unwrap();
    assert_eq!(f.pool.pool_stats().available_capacity, 800 * ONE_USDC);
    assert!(f.pool.quote_premium(depeg(800 * ONE_USDC + 1)).is_err());
    let holder = f.funded(1_000 * ONE_USDC);
    f.buy_policy(holder, depeg(800 * ONE_USDC)).unwrap();
    // The premium, 19.726008 USDC, makes room for 80% of it.
    let stats = f.pool.pool_stats();
    assert_eq!(stats.total_capital, 10_019_726_008);
    assert_eq!(stats.available_capacity, 15_780_806);
    assert_eq!(stats.utilization_bps, 7_984);
    assert_eq!(stats.apy_estimate_bps, 239);
    assert_eq!(stats.share_price, 10_019_726);
}

#[test]
fn update_oracle_emits_an_event() {
    let mut f = setup();

    let before = f.events.len();
    f.update_oracle(CoverageType::StablecoinDepeg, 9 * ONE_USDC / 10);
    let after = f.events.len();

    assert_eq!(after, before + 1);
}

#[test]
fn process_claim_pays_out_when_oracle_triggered() {
    let mut f = setup();
    let lp = f.funded(100_000 * ONE_USDC);
    f.provide_capital(lp, 100_000 * ONE_USDC).unwrap();

    let holder = f.funded(1_000 * ONE_USDC);
    let id = f.buy_policy(holder, depeg(1_000 * ONE_USDC)).unwrap();

    // USDC drops to $0.90, below the $0.95 trigger.
    f.update_oracle(CoverageType::StablecoinDepeg, 9 * ONE_USDC / 10);

    let capital_before = f.pool.pool_stats().total_capital;
    let holder_before = f.balance(holder);
    let payout = f.process_claim(id).unwrap();
    let holder_after = f.balance(holder);

    assert_eq!(payout, 1_000 * ONE_USDC);
    assert_eq!(holder_after - holder_before, 1_000 * ONE_USDC);
    assert_eq!(f.pool.get_policy(id).unwrap().status, PolicyStatus::Claimed);
    assert_eq!(f.pool.get_policy(id).unwrap().payout_at, Some(f.now));
    let stats = f.pool.pool_stats();
    assert_eq!(stats.total_capital, capital_before - payout);
    assert_eq!(stats.total_capital, f.balance(f.pool_address));
    assert_eq!(stats.total_coverage, 0);
}

#[test]
fn process_claim_deactivates_the_registry_record() {
    let mut f = setup();
    let lp = f.funded(100_000 * ONE_USDC);
    f.provide_capital(lp, 100_000 * ONE_USDC).unwrap();

    let holder = f.funded(1_000 * ONE_USDC);
    let id = f.buy_policy(holder, depeg(1_000 * ONE_USDC)).unwrap();
    assert!(f.registry.get_policy(id).unwrap().is_active);

    f.update_oracle(CoverageType::StablecoinDepeg, 9 * ONE_USDC / 10);
    f.process_claim(id).unwrap();

    // The pool's own record and the registry's mirrored record must both reflect the claim.
    assert_eq!(f.pool.get_policy(id).unwrap().status, PolicyStatus::Claimed);
    assert!(!f.registry.get_policy(id).unwrap().is_active);
}

#[test]
fn a_claim_is_paid_though_the_registry_is_gone() {
    let mut f = setup();
    let lp = f.funded(1_000 * ONE_USDC);
    f.provide_capital(lp, 1_000 * ONE_USDC).unwrap();
    let holder = f.funded(100 * ONE_USDC);
    let id = f.buy_policy(holder, depeg(100 * ONE_USDC)).unwrap();
    f.pool.set_policy_registry(f.admin, contract(50)).unwrap();
    f.update_oracle(CoverageType::StablecoinDepeg, 0);
    assert_eq!(f.process_claim(id), Ok(100 * ONE_USDC));
    assert!(f.registry.get_policy(id).unwrap().is_active);
}

#[test]
fn process_claim_rejected_when_not_triggered() {
    let mut f = setup();
    let lp = f.funded(100_000 * ONE_USDC);
    f.provide_capital(lp, 100_000 * ONE_USDC).unwrap();

    let holder = f.funded(1_000 * ONE_USDC);
    let id = f.buy_policy(holder, depeg(1_000 * ONE_USDC)).unwrap();

    // No reading at all.
    assert_eq!(f.process_claim(id), Err(PoolError::PolicyNotTriggered));

    // USDC steady at $0.999: no trigger.
    f.update_oracle(CoverageType::StablecoinDepeg, 999 * ONE_USDC / 1000);

    let res = f.process_claim(id);
    assert_eq!(res, Err(PoolError::PolicyNotTriggered));
}

#[test]
fn a_reading_settles_claims_for_less_than_thirty_minutes() {
    let mut f = setup();
    let lp = f.funded(1_000 * ONE_USDC);
    f.provide_capital(lp, 1_000 * ONE_USDC).unwrap();
    let holder = f.funded(100 * ONE_USDC);
    let id = f.buy_policy(holder, depeg(100 * ONE_USDC)).unwrap();
    f.update_oracle(CoverageType::StablecoinDepeg, 0);
    f.now += 1_800;
    assert_eq!(f.process_claim(id), Err(PoolError::PolicyNotTriggered));
    f.now -= 1;
    assert_eq!(f.process_claim(id), Ok(100 * ONE_USDC));
}

#[test]
fn each_category_has_its_own_trigger() {
    // category, threshold, a reading that misses, one that meets
    let cases: [(CoverageType, i128, i128, i128); 5] = [
        (CoverageType::StablecoinDepeg, 500, 9_500_000, 9_499_999),
        (CoverageType::MarketCrash, 3_000, -3_000, -3_001),
        (CoverageType::LiquidationShield, 7, 0, 1),
        (CoverageType::SmartContractRisk, 7, 0, 1),
        (CoverageType::FlightDelay, 120, 120, 121),
    ];
    for (coverage_type, trigger_threshold, missed, met) in cases {
        let mut f = setup();
        let lp = f.funded(1_000 * ONE_USDC);
        f.provide_capital(lp, 1_000 * ONE_USDC).unwrap();
        let holder = f.funded(100 * ONE_USDC);
        let params = PolicyParams {
            coverage_amount: 100 * ONE_USDC,
            coverage_type,
            duration_days: 10,
            trigger_threshold,
        };
        let id = f.buy_policy(holder, params).unwrap();
        f.update_oracle(coverage_type, missed);
        assert_eq!(f.process_claim(id), Err(PoolError::PolicyNotTriggered));
        f.update_oracle(coverage_type, met);
        assert_eq!(f.process_claim(id), Ok(100 * ONE_USDC));
    }
}

#[test]
fn process_claim_rejects_unknown_policy() {
    let mut f = setup();
    let res = f.process_claim(404u64);
    assert_eq!(res, Err(PoolError::PolicyNotFound));
    assert_eq!(f.expire_policy(404u64), Err(PoolError::PolicyNotFound));
}

#[test]
fn process_claim_rejects_after_end_time() {
    let mut f = setup();
    let lp = f.funded(100_000 * ONE_USDC);
    f.provide_capital(lp, 100_000 * ONE_USDC).unwrap();

    let holder = f.funded(1_000 * ONE_USDC);
    let id = f.buy_policy(holder, depeg(1_000 * ONE_USDC)).unwrap();

    // USDC depegged, but the coverage window has already lapsed.
    f.update_oracle(CoverageType::StablecoinDepeg, 9 * ONE_USDC / 10);
    f.now += 31 * 86_400;

    let res = f.process_claim(id);
    assert_eq!(res, Err(PoolError::PolicyExpired));
}

#[test]
fn double_claim_is_rejected() {
    let mut f = setup();
    let lp = f.funded(100_000 * ONE_USDC);
    f.provide_capital(lp, 100_000 * ONE_USDC).unwrap();

    let holder = f.funded(1_000 * ONE_USDC);
    let id = f.buy_policy(holder, depeg(1_000 * ONE_USDC)).unwrap();
    f.update_oracle(CoverageType::StablecoinDepeg, 9 * ONE_USDC / 10);

    f.process_claim(id).unwrap();
    let res = f.process_claim(id);
    assert_eq!(res, Err(PoolError::AlreadyClaimed));
}

#[test]
fn expire_policy_frees_coverage_and_deactivates_registry_record() {
    let mut f = setup();
    let lp = f.funded(1_000 * ONE_USDC);
    f.provide_capital(lp, 1_000 * ONE_USDC).unwrap();

    let holder = f.funded(1_000 * ONE_USDC);
    let id = f.buy_policy(holder, depeg(500 * ONE_USDC)).unwrap();
    assert_eq!(f.pool.pool_stats().total_coverage, 500 * ONE_USDC);
    assert!(f.registry.get_policy(id).unwrap().is_active);
    let capital = f.pool.pool_stats().total_capital;

    // Fast-forward well past the 30-day coverage window.
    f.now += 31 * 86_400;

    f.expire_policy(id).unwrap();

    assert_eq!(f.pool.get_policy(id).unwrap().status, PolicyStatus::Expired);
    assert_eq!(f.pool.pool_stats().total_coverage, 0);
    assert!(!f.registry.get_policy(id).unwrap().is_active);
    assert_eq!(f.pool.pool_stats().total_capital, capital);
    assert_eq!(f.process_claim(id), Err(PoolError::AlreadyClaimed));
}

#[test]
fn expire_policy_rejects_before_end_time() {
    let mut f = setup();
    let lp = f.funded(1_000 * ONE_USDC);
    f.provide_capital(lp, 1_000 * ONE_USDC).unwrap();

    let holder = f.funded(1_000 * ONE_USDC);
    let id = f.buy_policy(holder, depeg(500 * ONE_USDC)).unwrap();

    let res = f.expire_policy(id);
    assert_eq!(res, Err(PoolError::PolicyNotYetExpired));
}

#[test]
fn a_policy_is_claimed_until_its_end_and_swept_after_it() {
    let mut f = setup();
    let lp = f.funded(1_000 * ONE_USDC);
    f.provide_capital(lp, 1_000 * ONE_USDC).unwrap();
    let holder = f.funded(100 * ONE_USDC);
    let id = f.buy_policy(holder, depeg(100 * ONE_USDC)).unwrap();
    f.now = 30 * DAY;
    f.update_oracle(CoverageType::StablecoinDepeg, 0);
    assert_eq!(f.expire_policy(id), Err(PoolError::PolicyNotYetExpired));
    f.now += 1;
    assert_eq!(f.process_claim(id), Err(PoolError::PolicyExpired));
    assert_eq!(f.expire_policy(id), Ok(()));
}

#[test]
fn expire_policy_rejects_an_already_claimed_policy() {
    let mut f = setup();
    let lp = f.funded(1_000 * ONE_USDC);
    f.provide_capital(lp, 1_000 * ONE_USDC).unwrap();

    let holder = f.funded(1_000 * ONE_USDC);
    let id = f.buy_policy(holder, depeg(500 * ONE_USDC)).unwrap();
    f.update_oracle(CoverageType::StablecoinDepeg, 9 * ONE_USDC / 10);
    f.process_claim(id).unwrap();

    f.now += 31 * 86_400;
    let res = f.expire_policy(id);
    assert_eq!(res, Err(PoolError::AlreadyClaimed));
}

#[test]
fn withdraw_returns_capital_to_provider() {
    let mut f = setup();
    let lp = f.funded(10_000 * ONE_USDC);
    let shares = f.provide_capital(lp, 10_000 * ONE_USDC).unwrap();

    let out = f.withdraw_capital(lp, shares).unwrap();
    assert_eq!(out, 10_000 * ONE_USDC);
    assert_eq!(f.pool.shares_of(lp), 0);
    assert_eq!(f.balance(lp), 10_000 * ONE_USDC);
}

#[test]
fn withdraw_capital_rejects_zero_shares() {
    let mut f = setup();
    let lp = f.funded(10_000 * ONE_USDC);
    f.provide_capital(lp, 10_000 * ONE_USDC).unwrap();

    let res = f.withdraw_capital(lp, 0);
    assert_eq!(res, Err(PoolError::ZeroAmount));
}

#[test]
fn withdraw_capital_rejects_negative_shares() {
    let mut f = setup();
    let lp = f.funded(10_000 * ONE_USDC);
    f.provide_capital(lp, 10_000 * ONE_USDC).unwrap();

    // A negative share count must never be able to mint capital out of the pool.
    let res = f.withdraw_capital(lp, -1);
    assert_eq!(res, Err(PoolError::ZeroAmount));
}

#[test]
fn withdraw_capital_rejects_more_shares_than_owned() {
    let mut f = setup();
    let lp = f.funded(10_000 * ONE_USDC);
    let shares = f.provide_capital(lp, 10_000 * ONE_USDC).unwrap();

    let res = f.withdraw_capital(lp, shares + 1);
    assert_eq!(res, Err(PoolError::InsufficientShares));
    // Nobody can be quoted more shares than there are.
    assert_eq!(f.pool.quote_withdrawal(shares + 1), Err(PoolError::InsufficientShares));
    assert_eq!(f.pool.quote_withdrawal(shares), Ok(10_000 * ONE_USDC));
    assert_eq!(f.pool.quote_withdrawal(0), Err(PoolError::ZeroAmount));
}

#[test]
fn a_withdrawal_may_not_push_utilization_above_its_cap() {
    let mut f = setup();
    let lp = f.funded(1_000 * ONE_USDC);
    f.provide_capital(lp, 1_000 * ONE_USDC).unwrap();
    let holder = f.funded(1_000 * ONE_USDC);
    f.buy_policy(holder, depeg(500 * ONE_USDC)).unwrap();
    assert_eq!(f.withdraw_capital(lp, 500 * ONE_USDC), Err(PoolError::CapitalLocked));
    assert_eq!(f.pool.quote_withdrawal(500 * ONE_USDC), Err(PoolError::CapitalLocked));
    assert!(f.withdraw_capital(lp, 100 * ONE_USDC).is_ok());
}

#[test]
fn lockup_is_enforced_and_announced() {
    let mut f = setup();
    let config = f.pool.pool_config().unwrap();
    f.set_config(PoolConfig { lockup_days: 7, ..config });
    f.now = 1_000;
    let lp = f.funded(20 * ONE_USDC);
    assert_eq!(f.pool.lockup_expires_at(lp), None);
    let shares = f.provide_capital(lp, 10 * ONE_USDC).unwrap();
    assert!(f.pool.lockup_expires_at_fits(lp));
    assert_eq!(f.pool.lockup_expires_at(lp), Some(1_000 + 7 * DAY));
    f.now = 1_000 + 7 * DAY - 1;
    assert_eq!(f.withdraw_capital(lp, shares), Err(PoolError::LockupActive));
    // A top-up locks the whole position again.
    f.provide_capital(lp, 10 * ONE_USDC).unwrap();
    f.now += 7 * DAY - 1;
    assert_eq!(f.withdraw_capital(lp, shares), Err(PoolError::LockupActive));
    f.now += 1;
    assert_eq!(f.withdraw_capital(lp, shares), Ok(10 * ONE_USDC));
}

#[test]
fn premiums_make_shares_dearer() {
    let mut f = setup();
    let first = f.funded(1_000 * ONE_USDC);
    f.provide_capital(first, 1_000 * ONE_USDC).unwrap();
    let holder = f.funded(1_000 * ONE_USDC);
    f.buy_policy(holder, depeg(500 * ONE_USDC)).unwrap();
    // The premium is 12.328755 USDC.
    assert_eq!(f.pool.pool_stats().total_capital, 10_012_328_755);
    let second = f.funded(1_000 * ONE_USDC);
    assert_eq!(f.pool.quote_shares(1_000 * ONE_USDC), Ok(9_987_686_426));
    let shares = f.provide_capital(second, 1_000 * ONE_USDC).unwrap();
    assert_eq!(shares, 9_987_686_426);
    // Leaving at once gains nothing.
    let out = f.withdraw_capital(second, shares).unwrap();
    assert_eq!(out, 9_999_999_999);
    assert_eq!(f.pool.shares_of(first), 1_000 * ONE_USDC);
    assert_eq!(f.balance(f.pool_address), f.pool.pool_stats().total_capital);
}

#[test]
fn user_policies_lists_what_a_holder_bought() {
    let mut f = setup();
    let lp = f.funded(1_000 * ONE_USDC);
    f.provide_capital(lp, 1_000 * ONE_USDC).unwrap();
    let (a, b) = (f.funded(100 * ONE_USDC), f.funded(100 * ONE_USDC));
    f.buy_policy(a, depeg(100 * ONE_USDC)).unwrap();
    f.buy_policy(b, depeg(110 * ONE_USDC)).unwrap();
    f.buy_policy(a, depeg(120 * ONE_USDC)).unwrap();
    let ids = f.pool.user_policies(&f.env, a);
    assert_eq!((ids.len(), ids.get(0), ids.get(1), ids.get(2)), (2, Some(0), Some(2), None));
    let policies = f.pool.get_policies(&ids);
    assert_eq!(policies.len(), 2);
    assert_eq!(policies[1].coverage_amount, 120 * ONE_USDC);
    // An id that names no policy is skipped.
    let mixed = IdList::new(&f.env).push_back(404).push_back(1).push_back(405);
    let found = f.pool.get_policies(&mixed);
    assert_eq!(found.len(), 1);
    assert_eq!(found[0].holder, b);
    assert_eq!(f.pool.user_policies(&f.env, lp).len(), 0);
    assert!(f.pool.get_policy(404).is_none());
}

#[test]
fn every_change_asks_for_its_author() {
    let mut f = setup();
    let lp = f.funded(1_000 * ONE_USDC);
    let holder = f.funded(100 * ONE_USDC);
    f.authorized.clear();
    let shares = f.provide_capital(lp, 1_000 * ONE_USDC).unwrap();
    f.buy_policy(holder, depeg(100 * ONE_USDC)).unwrap();
    f.withdraw_capital(lp, shares / 2).unwrap();
    f.update_oracle(CoverageType::StablecoinDepeg, 0);
    assert_eq!(f.authorized, vec![lp, holder, lp, f.admin]);
    // Anyone may settle.
    f.process_claim(0).unwrap();
    assert_eq!(f.authorized.len(), 4);
}

#[test]
fn every_change_is_announced() {
    let mut f = setup();
    let lp = f.funded(1_000 * ONE_USDC);
    let holder = f.funded(100 * ONE_USDC);
    let shares = f.provide_capital(lp, 1_000 * ONE_USDC).unwrap();
    f.buy_policy(holder, depeg(100 * ONE_USDC)).unwrap();
    f.withdraw_capital(lp, shares / 2).unwrap();
    f.update_oracle(CoverageType::StablecoinDepeg, 0);
    f.process_claim(0).unwrap();
    assert_eq!(f.events.len(), 6);
    assert!(matches!(f.events[0], PoolEvent::Initialized { .. }));
    assert!(matches!(f.events[1], PoolEvent::Provided { .. }));
    assert!(matches!(f.events[2], PoolEvent::Bought { id: 0, .. }));
    assert!(matches!(f.events[3], PoolEvent::Withdrawn { .. }));
    assert!(matches!(f.events[4], PoolEvent::OracleUpdated { .. }));
    assert!(matches!(f.events[5], PoolEvent::Claimed { id: 0, at: 0, .. }));
}

#[test]
fn withdrawing_every_share_is_allowed_while_policies_are_open() {
    let mut f = setup();
    let lp = f.funded(1_000 * ONE_USDC);
    let shares = f.provide_capital(lp, 1_000 * ONE_USDC).unwrap();
    let holder = f.funded(100 * ONE_USDC);
    f.buy_policy(holder, depeg(100 * ONE_USDC)).unwrap();
    let out = f.withdraw_capital(lp, shares).unwrap();
    assert_eq!(out, 10_002_465_751);
    let stats = f.pool.pool_stats();
    assert_eq!((stats.total_capital, stats.total_coverage), (0, 100 * ONE_USDC));
}

#[test]
fn overflows_are_foreseen() {
    let mut f = setup();
    let lp = f.funded(10);
    f.pool.total_capital = 1;
    f.pool.total_shares = i128::MAX;
    assert!(!f.pool.quote_shares_fits(2));
    assert!(f.pool.quote_shares_fits(0));
    assert!(!f.pool.provide_capital_fits(lp, 1));
    f.pool.total_capital = i128::MAX;
    assert!(!f.pool.quote_premium_fits(depeg(100 * ONE_USDC)));
    assert!(f.pool.quote_premium_fits(depeg(1)));
    assert!(!f.pool.buy_policy_fits(lp, depeg(100 * ONE_USDC), 0));
    assert!(!f.pool.quote_withdrawal_fits(2));
    assert!(f.pool.checked_stats().is_none());
    // A reading from the future cannot be aged.
    let mut g = setup();
    let provider = g.funded(2_000 * ONE_USDC);
    g.provide_capital(provider, 1_000 * ONE_USDC).unwrap();
    g.buy_policy(provider, depeg(100 * ONE_USDC)).unwrap();
    g.now = 10;
    g.update_oracle(CoverageType::StablecoinDepeg, 0);
    assert!(!g.pool.process_claim_fits(0, 9));
    assert!(g.pool.process_claim_fits(0, 10));
}
