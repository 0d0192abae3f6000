use refract::address::Address;
use refract::oracle::{OracleError, RefractOracle};
use refract::policy::{
    CoverageType, PolicyRegistration, RefractPolicyRegistry, RegistryEffect, RegistryError,
    RegistryEvent,
};
use refract::pool::{PoolError, RefractPool};
use soroban_sdk::testutils::EnvTestConfig;
use soroban_sdk::{Env, Symbol};

const TEN_USDC: i128 = 100_000_000;

struct Fixture {
    env: Env,
    registry: RefractPolicyRegistry,
    admin: Address,
    pool: Address,
}

fn env() -> Env {
    Env::new_with_config(EnvTestConfig { capture_snapshot_at_drop: false })
}

fn address(n: u128) -> Address {
    Address { contract: false, high: 0, low: n }
}

fn setup() -> Fixture {
    let mut registry = RefractPolicyRegistry::new();
    let admin = address(1);
    let pool = Address { contract: true, high: 0, low: 2 };
    registry.initialize(admin, pool).unwrap();
    Fixture { env: env(), registry, admin, pool }
}

fn registration(policy_id: u64, holder: Address, ct: CoverageType) -> PolicyRegistration {
    PolicyRegistration {
        policy_id,
        holder,
        coverage_type: ct,
        coverage_amount: TEN_USDC,
        premium: TEN_USDC / 100,
        expires_at: 9_999_999_999,
    }
}

fn try_register(
    f: &mut Fixture,
    caller: Address,
    reg: PolicyRegistration,
) -> Result<u64, RegistryError> {
    assert!(f.registry.register_policy_fits(caller, reg));
    f.registry.register_policy(&f.env, caller, reg, 77)
}

fn try_deactivate(f: &mut Fixture, caller: Address, id: u64) -> Result<(), RegistryError> {
    assert!(f.registry.deactivate_policy_fits(caller, id));
    f.registry.deactivate_policy(caller, id)
}

fn events(f: &Fixture) -> usize {
    f.registry.effects.iter().filter(|e| matches!(e, RegistryEffect::Publish { .. })).count()
}

fn stat(f: &Fixture, name: &str) -> i128 {
    f.registry.get_stats(&f.env).get(Symbol::new(&f.env, name)).unwrap()
}

#[test]
fn register_indexes_policy_per_holder() {
    let mut f = setup();
    let holder = address(10);
    let pool = f.pool;

    let id = try_register(&mut f, pool, registration(42, holder, CoverageType::StablecoinDepeg))
        .unwrap();
    assert_eq!(id, 42);

    let rec = f.registry.get_policy(id).unwrap();
    assert_eq!(rec.holder, holder);
    assert!(rec.is_active);
    assert_eq!(rec.policy_id, 42);
    assert_eq!(rec.coverage_amount, TEN_USDC);
    assert_eq!(rec.premium, TEN_USDC / 100);
    assert_eq!(rec.expires_at, 9_999_999_999);
    assert_eq!(rec.created_at, 77);

    let ids = f.registry.get_holder_policy_ids(&f.env, holder);
    assert_eq!(ids.len(), 1);
    assert_eq!(ids.get(0).unwrap(), 42);
    assert_eq!(ids.get(1), None);
    assert_eq!(ids.host_list().len(), 1);
}

#[test]
fn get_holder_active_policy_ids_excludes_deactivated_policies() {
    let mut f = setup();
    let holder = address(10);
    let pool = f.pool;

    try_register(&mut f, pool, registration(1, holder, CoverageType::StablecoinDepeg)).unwrap();
    try_register(&mut f, pool, registration(2, holder, CoverageType::MarketCrash)).unwrap();

    // Both start active.
    let active = f.registry.get_holder_active_policy_ids(&f.env, holder);
    assert_eq!(active.len(), 2);

    try_deactivate(&mut f, pool, 1).unwrap();

    let active = f.registry.get_holder_active_policy_ids(&f.env, holder);
    assert_eq!(active.len(), 1);
    assert_eq!(active.get(0).unwrap(), 2);
    // The full history is unaffected.
    assert_eq!(f.registry.get_holder_policy_ids(&f.env, holder).len(), 2);
}

#[test]
fn get_holder_active_policy_ids_is_empty_for_an_unknown_holder() {
    let f = setup();
    let stranger = address(11);
    assert_eq!(f.registry.get_holder_active_policy_ids(&f.env, stranger).len(), 0);
    assert_eq!(f.registry.get_holder_policy_ids(&f.env, stranger).len(), 0);
}

#[test]
fn admin_may_register() {
    let mut f = setup();
    let admin = f.admin;
    let id = try_register(&mut f, admin, registration(7, address(10), CoverageType::MarketCrash))
        .unwrap();
    assert_eq!(id, 7);
}

#[test]
fn stranger_cannot_register() {
    let mut f = setup();
    let res = try_register(
        &mut f,
        address(66),
        registration(1, address(10), CoverageType::StablecoinDepeg),
    );
    assert_eq!(res, Err(RegistryError::Unauthorized));
}

#[test]
fn registering_a_duplicate_policy_id_is_rejected() {
    let mut f = setup();
    let pool = f.pool;
    try_register(&mut f, pool, registration(1, address(10), CoverageType::StablecoinDepeg))
        .unwrap();

    let res =
        try_register(&mut f, pool, registration(1, address(11), CoverageType::MarketCrash));
    assert_eq!(res, Err(RegistryError::PolicyAlreadyExists));
    assert_eq!(f.registry.get_policy(1).unwrap().holder, address(10));
    assert_eq!(f.registry.get_holder_policy_ids(&f.env, address(11)).len(), 0);
}

#[test]
fn deactivate_flips_active_flag() {
    let mut f = setup();
    let pool = f.pool;
    let id =
        try_register(&mut f, pool, registration(1, address(10), CoverageType::StablecoinDepeg))
            .unwrap();

    try_deactivate(&mut f, pool, id).unwrap();
    assert!(!f.registry.get_policy(id).unwrap().is_active);
}

#[test]
fn get_stats_tracks_total_and_active_policies_separately() {
    let mut f = setup();
    let holder = address(10);
    let pool = f.pool;
    try_register(&mut f, pool, registration(1, holder, CoverageType::StablecoinDepeg)).unwrap();
    try_register(&mut f, pool, registration(2, holder, CoverageType::MarketCrash)).unwrap();

    assert_eq!(stat(&f, "total_policies"), 2);
    assert_eq!(stat(&f, "active_policies"), 2);

    try_deactivate(&mut f, pool, 1).unwrap();

    // The total is a historical count and doesn't drop on deactivation.
    assert_eq!(stat(&f, "total_policies"), 2);
    assert_eq!(stat(&f, "active_policies"), 1);
    assert_eq!(stat(&f, "total_premium"), 2 * TEN_USDC / 100);
    assert_eq!(f.registry.get_stats(&f.env).len(), 3);
}

#[test]
fn deactivating_an_already_inactive_policy_is_a_no_op() {
    let mut f = setup();
    let pool = f.pool;
    let id =
        try_register(&mut f, pool, registration(1, address(10), CoverageType::StablecoinDepeg))
            .unwrap();

    try_deactivate(&mut f, pool, id).unwrap();
    let before_events = events(&f);
    let before_active = stat(&f, "active_policies");

    // Deactivating again must not announce it again, nor count it again.
    try_deactivate(&mut f, pool, id).unwrap();
    let after_events = events(&f);
    let after_active = stat(&f, "active_policies");

    assert_eq!(after_events, before_events);
    assert_eq!(after_active, before_active);
    assert_eq!(after_active, 0);
}

#[test]
fn test_double_initialize_is_rejected() {
    let mut f = setup();
    let (admin, pool) = (f.admin, f.pool);
    let res = f.registry.initialize(admin, pool);
    assert_eq!(res, Err(RegistryError::AlreadyInitialized));

    let mut oracle = RefractOracle::new(&f.env);
    oracle.initialize(&f.env, admin).unwrap();
    assert_eq!(oracle.initialize(&f.env, admin), Err(OracleError::AlreadyInitialized));

    let mut other = RefractPool::new();
    other.initialize(admin, address(3), address(4)).unwrap();
    assert_eq!(
        other.initialize(admin, address(3), address(4)),
        Err(PoolError::AlreadyInitialized)
    );
}

#[test]
fn get_policy_rejects_unknown_id() {
    let f = setup();
    let res = f.registry.get_policy(404u64);
    assert_eq!(res, Err(RegistryError::PolicyNotFound));
}

#[test]
fn deactivate_rejects_unknown_id() {
    let mut f = setup();
    let pool = f.pool;
    let res = try_deactivate(&mut f, pool, 404u64);
    assert_eq!(res, Err(RegistryError::PolicyNotFound));
}

#[test]
fn a_stranger_cannot_deactivate() {
    let mut f = setup();
    let pool = f.pool;
    try_register(&mut f, pool, registration(1, address(10), CoverageType::FlightDelay)).unwrap();
    assert_eq!(try_deactivate(&mut f, address(66), 1), Err(RegistryError::Unauthorized));
    assert!(f.registry.get_policy(1).unwrap().is_active);
}

#[test]
fn a_registry_without_an_admin_takes_no_writes() {
    let mut registry = RefractPolicyRegistry::new();
    let env = env();
    let a = address(1);
    let reg = registration(1, a, CoverageType::FlightDelay);
    assert_eq!(registry.register_policy(&env, a, reg, 0), Err(RegistryError::NotInitialized));
    assert_eq!(registry.deactivate_policy(a, 1), Err(RegistryError::NotInitialized));
    assert_eq!(registry.set_admin(a, a), Err(RegistryError::NotInitialized));
    assert_eq!(registry.set_pool_contract(a, a), Err(RegistryError::NotInitialized));
    assert_eq!(registry.pool_contract(), None);
}

#[test]
fn set_pool_contract_repoints_who_may_register_and_deactivate() {
    let mut f = setup();
    let new_pool = address(20);
    let (admin, pool) = (f.admin, f.pool);

    f.registry.set_pool_contract(admin, new_pool).unwrap();

    // The old pool address has lost access...
    let holder = address(10);
    let res =
        try_register(&mut f, pool, registration(1, holder, CoverageType::StablecoinDepeg));
    assert_eq!(res, Err(RegistryError::Unauthorized));

    // ...and the new pool address has it.
    let id =
        try_register(&mut f, new_pool, registration(1, holder, CoverageType::StablecoinDepeg))
            .unwrap();
    assert_eq!(id, 1);
}

#[test]
fn set_pool_contract_rejects_non_admin() {
    let mut f = setup();
    let new_pool = address(20);
    // The current pool address isn't privileged here.
    let res = f.registry.set_pool_contract(f.pool, new_pool);
    assert_eq!(res, Err(RegistryError::Unauthorized));
}

#[test]
fn set_pool_contract_emits_an_event() {
    let mut f = setup();
    let new_pool = address(20);

    let before = events(&f);
    f.registry.set_pool_contract(f.admin, new_pool).unwrap();
    let after = events(&f);

    assert_eq!(after, before + 1);
}

#[test]
fn set_admin_rotates_who_can_call_admin_gated_functions() {
    let mut f = setup();
    let new_admin = address(30);

    f.registry.set_admin(f.admin, new_admin).unwrap();

    // The old admin has lost access...
    let new_pool = address(20);
    let res = f.registry.set_pool_contract(f.admin, new_pool);
    assert_eq!(res, Err(RegistryError::Unauthorized));

    // ...and the new admin has it.
    f.registry.set_pool_contract(new_admin, new_pool).unwrap();
}

#[test]
fn set_admin_rejects_non_admin() {
    let mut f = setup();
    let new_admin = address(30);
    // The pool contract isn't privileged for admin rotation either.
    let res = f.registry.set_admin(f.pool, new_admin);
    assert_eq!(res, Err(RegistryError::Unauthorized));
}

#[test]
fn test_set_admin_emits_an_event() {
    let mut f = setup();
    let new_admin = address(30);

    let before = events(&f);
    f.registry.set_admin(f.admin, new_admin).unwrap();
    let after = events(&f);

    assert_eq!(after, before + 1);
}

#[test]
fn admin_reflects_the_initialized_admin_and_tracks_rotation() {
    let mut f = setup();
    assert_eq!(f.registry.admin(), Some(f.admin));

    let new_admin = address(30);
    f.registry.set_admin(f.admin, new_admin).unwrap();
    assert_eq!(f.registry.admin(), Some(new_admin));
}

#[test]
fn admin_is_none_before_initialize() {
    let registry = RefractPolicyRegistry::new();
    assert_eq!(registry.admin(), None);
}

#[test]
fn pool_contract_reflects_initialize_and_tracks_repointing() {
    let mut f = setup();
    assert_eq!(f.registry.pool_contract(), Some(f.pool));

    let new_pool = address(20);
    f.registry.set_pool_contract(f.admin, new_pool).unwrap();
    assert_eq!(f.registry.pool_contract(), Some(new_pool));
}

#[test]
fn a_registration_announces_its_category_by_number() {
    let mut f = setup();
    let pool = f.pool;
    let all = [
        CoverageType::StablecoinDepeg,
        CoverageType::MarketCrash,
        CoverageType::LiquidationShield,
        CoverageType::SmartContractRisk,
        CoverageType::FlightDelay,
    ];
    for (i, ct) in all.into_iter().enumerate() {
        f.registry.effects.clear();
        try_register(&mut f, pool, registration(i as u64, address(10), ct)).unwrap();
        assert_eq!(f.registry.effects.len(), 2);
        match f.registry.effects[1] {
            RegistryEffect::Publish {
                event: RegistryEvent::Registered { policy_id, coverage_code, coverage_amount },
            } => {
                assert_eq!(policy_id, i as u64);
                assert_eq!(coverage_code, i as u32);
                assert_eq!(coverage_amount, TEN_USDC);
            }
            other => panic!("unexpected {:?}", other),
        }
    }
    let ids = f.registry.get_holder_policy_ids(&f.env, address(10));
    assert_eq!((ids.len(), ids.get(0), ids.get(4)), (5, Some(0), Some(4)));
}

#[test]
fn a_premium_that_overflows_the_total_is_foreseen() {
    let mut f = setup();
    let pool = f.pool;
    let mut reg = registration(1, address(10), CoverageType::FlightDelay);
    reg.premium = i128::MAX;
    try_register(&mut f, pool, reg).unwrap();
    let next = registration(2, address(10), CoverageType::FlightDelay);
    assert!(!f.registry.register_policy_fits(pool, next));
    // A call that is refused anyway has nothing to overflow.
    assert!(f.registry.register_policy_fits(address(66), next));
}
