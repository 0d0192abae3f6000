//! The pool and its registry together: the registry mirrors what the pool has sold.

use vstd::prelude::*;

use crate::address::Address;
use crate::policy;
use crate::policy::model::RegistryState;
use crate::policy::types::PolicyRecord;
use crate::pool;
use crate::pool::history;
use crate::pool::history::PoolCall;
use crate::pool::laws;
use crate::pool::model::PoolState;
use crate::pool::types::{Policy, PolicyParams, PolicyStatus, PoolEffect, RegistryCoverageType};

verus! {

/// The category that the registry reads where the pool writes `t`. Both sides spell the variants
/// alike.
pub open spec fn category_read(t: RegistryCoverageType) -> policy::types::CoverageType {
    match t {
        RegistryCoverageType::StablecoinDepeg => policy::types::CoverageType::StablecoinDepeg,
        RegistryCoverageType::MarketCrash => policy::types::CoverageType::MarketCrash,
        RegistryCoverageType::LiquidationShield => policy::types::CoverageType::LiquidationShield,
        RegistryCoverageType::SmartContractRisk => policy::types::CoverageType::SmartContractRisk,
        RegistryCoverageType::FlightDelay => policy::types::CoverageType::FlightDelay,
    }
}

/// The registration that the registry reads where the pool writes `reg`.
pub open spec fn registration_read(
    reg: pool::types::PolicyRegistration,
) -> policy::types::PolicyRegistration {
    policy::types::PolicyRegistration {
        policy_id: reg.policy_id,
        holder: reg.holder,
        coverage_type: category_read(reg.coverage_type),
        coverage_amount: reg.coverage_amount,
        premium: reg.premium,
        expires_at: reg.expires_at,
    }
}

/// Whether a record and a policy agree: the same id, holder and terms, and the record is active
/// exactly while the policy is.
pub open spec fn agrees(record: PolicyRecord, sold: Policy) -> bool {
    &&& record.policy_id == sold.id
    &&& record.holder == sold.holder
    &&& record.coverage_type == category_read(pool::model::registry_name(sold.coverage_type))
    &&& record.coverage_amount == sold.coverage_amount
    &&& record.premium == sold.premium_paid
    &&& record.expires_at == sold.end_time
    &&& record.is_active == (sold.status == PolicyStatus::Active)
}

/// Whether the registry mirrors every policy of the pool.
pub open spec fn mirrors(registry: RegistryState, pool: PoolState) -> bool {
    forall|id: u64| #[trigger]
        pool.policies.contains_key(id) ==> registry.policies.contains_key(id) && agrees(
            registry.policies[id],
            pool.policies[id],
        )
}

/// The registration that a purchase sends to the registry.
pub open spec fn sent(
    pool: PoolState,
    holder: Address,
    params: PolicyParams,
    now: u64,
) -> policy::types::PolicyRegistration {
    registration_read(pool.buy_effects(holder, params, now)[2]->registration)
}

/// A purchase, together with the registration that it sends, keeps the mirror. The registry
/// answers with the id that the pool gave the policy.
pub proof fn purchase_is_mirrored(
    pool: PoolState,
    registry: RegistryState,
    pool_address: Address,
    holder: Address,
    params: PolicyParams,
    now: u64,
)
    requires
        pool.ids_in_order(),
        pool.accepts(PoolCall::BuyPolicy { holder, params, now }),
        mirrors(registry, pool),
        registry.registration(pool_address, sent(pool, holder, params, now)) is Ok,
    ensures
        pool.buy_effects(holder, params, now)[2] is RegisterPolicy,
        registry.registration(pool_address, sent(pool, holder, params, now)) == Ok::<
            u64,
            policy::types::RegistryError,
        >(pool.next_policy_id),
        mirrors(
            registry.registered(sent(pool, holder, params, now), now),
            pool.bought(holder, params, now),
        ),
{
    let reg = sent(pool, holder, params, now);
    let after = pool.bought(holder, params, now);
    let mirrored = registry.registered(reg, now);
    assert forall|id: u64| #[trigger] after.policies.contains_key(
        id,
    ) implies mirrored.policies.contains_key(id) && agrees(
        mirrored.policies[id],
        after.policies[id],
    ) by {
        if id != pool.next_policy_id {
            assert(pool.policies.contains_key(id));
        }
    }
}

/// A registry whose pool is the one at `pool_address`, and which holds no policy that the pool
/// has not sold, takes every purchase in.
pub proof fn the_pools_registry_takes_every_purchase(
    pool: PoolState,
    registry: RegistryState,
    pool_address: Address,
    holder: Address,
    params: PolicyParams,
    now: u64,
)
    requires
        registry.settings is Some,
        registry.settings->0.pool_contract == pool_address,
        forall|id: u64| #[trigger]
            registry.policies.contains_key(id) ==> id < pool.next_policy_id,
    ensures
        registry.registration(pool_address, sent(pool, holder, params, now)) is Ok,
{
}

/// A claim, together with the deactivation that it sends, keeps the mirror.
pub proof fn claim_is_mirrored(
    pool: PoolState,
    registry: RegistryState,
    pool_address: Address,
    policy_id: u64,
    now: u64,
)
    requires
        pool.ids_in_order(),
        pool.claim(policy_id, now) is Ok,
        mirrors(registry, pool),
    ensures
        pool.claim_effects(policy_id, now)[1] == (PoolEffect::DeactivatePolicy {
            registry: pool.settings->0.policy_registry,
            policy_id,
        }),
        registry.writer_check(pool_address) is Ok ==> registry.deactivation(
            pool_address,
            policy_id,
        ) is Ok,
        mirrors(registry.deactivated(policy_id), pool.claimed(policy_id, now)),
{
    lemma_settlement_is_mirrored(registry, pool, pool.claimed(policy_id, now), policy_id);
}

/// A sweep, together with the deactivation that it sends, keeps the mirror.
pub proof fn sweep_is_mirrored(
    pool: PoolState,
    registry: RegistryState,
    pool_address: Address,
    policy_id: u64,
    now: u64,
)
    requires
        pool.ids_in_order(),
        pool.expiry(policy_id, now) is Ok,
        mirrors(registry, pool),
    ensures
        pool.expire_effects(policy_id, now)[0] == (PoolEffect::DeactivatePolicy {
            registry: pool.settings->0.policy_registry,
            policy_id,
        }),
        registry.writer_check(pool_address) is Ok ==> registry.deactivation(
            pool_address,
            policy_id,
        ) is Ok,
        mirrors(registry.deactivated(policy_id), pool.expired(policy_id)),
{
    lemma_settlement_is_mirrored(registry, pool, pool.expired(policy_id), policy_id);
}

proof fn lemma_settlement_is_mirrored(
    registry: RegistryState,
    pool: PoolState,
    after: PoolState,
    policy_id: u64,
)
    requires
        mirrors(registry, pool),
        pool.policies.contains_key(policy_id),
        after.policies == pool.policies.insert(policy_id, after.policies[policy_id]),
        after.policies[policy_id].status != PolicyStatus::Active,
        after.policies[policy_id] == (Policy {
            status: after.policies[policy_id].status,
            payout_at: after.policies[policy_id].payout_at,
            ..pool.policies[policy_id]
        }),
    ensures
        mirrors(registry.deactivated(policy_id), after),
{
    let mirrored = registry.deactivated(policy_id);
    assert forall|id: u64| #[trigger] after.policies.contains_key(
        id,
    ) implies mirrored.policies.contains_key(id) && agrees(
        mirrored.policies[id],
        after.policies[id],
    ) by {
        assert(pool.policies.contains_key(id));
    }
}

/// Every other call of the pool leaves the mirror as it is.
pub proof fn other_calls_keep_the_mirror(registry: RegistryState, pool: PoolState, call: PoolCall)
    requires
        mirrors(registry, pool),
        pool.accepts(call),
        call !is BuyPolicy,
        call !is ProcessClaim,
        call !is ExpirePolicy,
    ensures
        mirrors(registry, pool.after(call)),
{
}

/// What the registry at `registry_address` makes of an effect of the pool at `pool_address`. What
/// is meant for another registry, or what it refuses, leaves it as it is.
pub open spec fn told(
    registry: RegistryState,
    registry_address: Address,
    pool_address: Address,
    effect: PoolEffect,
    now: u64,
) -> RegistryState {
    match effect {
        PoolEffect::RegisterPolicy { registry: to, registration } => {
            let reg = registration_read(registration);
            if to == registry_address && registry.registration(pool_address, reg) is Ok {
                registry.registered(reg, now)
            } else {
                registry
            }
        },
        PoolEffect::DeactivatePolicy { registry: to, policy_id } => {
            if to == registry_address && registry.deactivation(pool_address, policy_id) is Ok {
                registry.deactivated(policy_id)
            } else {
                registry
            }
        },
        _ => registry,
    }
}

/// What the registry makes of effects, one after the other.
pub open spec fn told_all(
    registry: RegistryState,
    registry_address: Address,
    pool_address: Address,
    effects: Seq<PoolEffect>,
    now: u64,
) -> RegistryState
    decreases effects.len(),
{
    if effects.len() == 0 {
        registry
    } else {
        told(
            told_all(registry, registry_address, pool_address, effects.drop_last(), now),
            registry_address,
            pool_address,
            effects.last(),
            now,
        )
    }
}

/// Whether a call has something to tell the registry.
pub open spec fn sells_or_settles(call: PoolCall) -> bool {
    call is BuyPolicy || call is ProcessClaim || call is ExpirePolicy
}

/// The ledger's time at a call that sells or settles.
pub open spec fn time_of(call: PoolCall) -> u64 {
    match call {
        PoolCall::BuyPolicy { now, .. } => now,
        PoolCall::ProcessClaim { now, .. } => now,
        PoolCall::ExpirePolicy { now, .. } => now,
        _ => 0,
    }
}

/// The registry at `registry_address` after a sequence of calls of the pool at `pool_address`,
/// where nobody else writes to it.
pub open spec fn registry_run(
    registry: RegistryState,
    registry_address: Address,
    pool_address: Address,
    pool: PoolState,
    calls: Seq<PoolCall>,
) -> RegistryState
    decreases calls.len(),
{
    if calls.len() == 0 {
        registry
    } else {
        let earlier = calls.drop_last();
        told_all(
            registry_run(registry, registry_address, pool_address, pool, earlier),
            registry_address,
            pool_address,
            laws::effects_of(history::run(pool, earlier), calls.last()),
            time_of(calls.last()),
        )
    }
}

/// Whether the pool is wired to the registry at `registry_address` whenever it sells or settles.
pub open spec fn always_wired(
    registry_address: Address,
    pool: PoolState,
    calls: Seq<PoolCall>,
) -> bool
    decreases calls.len(),
{
    calls.len() == 0 || {
        let earlier = calls.drop_last();
        &&& always_wired(registry_address, pool, earlier)
        &&& sells_or_settles(calls.last()) ==> history::run(
            pool,
            earlier,
        ).settings->0.policy_registry == registry_address
    }
}

/// A purchase tells the registry that the pool is wired to exactly what `sent` says.
proof fn lemma_purchase_tells(
    registry: RegistryState,
    pool_address: Address,
    pool: PoolState,
    holder: Address,
    params: PolicyParams,
    now: u64,
)
    requires
        registry.registration(pool_address, sent(pool, holder, params, now)) is Ok,
    ensures
        told_all(
            registry,
            pool.settings->0.policy_registry,
            pool_address,
            pool.buy_effects(holder, params, now),
            now,
        ) == registry.registered(sent(pool, holder, params, now), now),
{
    reveal_with_fuel(told_all, 5);
    let effects = pool.buy_effects(holder, params, now);
    assert(effects.drop_last() =~= seq![effects[0], effects[1], effects[2]]);
    assert(effects.drop_last().drop_last() =~= seq![effects[0], effects[1]]);
    assert(effects.drop_last().drop_last().drop_last() =~= seq![effects[0]]);
}

/// Claims and sweeps tell the registry that the pool is wired to deactivate the policy.
proof fn lemma_settlement_tells(
    registry: RegistryState,
    pool_address: Address,
    pool: PoolState,
    policy_id: u64,
    now: u64,
)
    requires
        pool.settings is Some,
        registry.deactivation(pool_address, policy_id) is Ok,
    ensures
        ({
            let to = pool.settings->0.policy_registry;
            let after = registry.deactivated(policy_id);
            &&& told_all(registry, to, pool_address, pool.claim_effects(policy_id, now), now)
                == after
            &&& told_all(registry, to, pool_address, pool.expire_effects(policy_id, now), now)
                == after
        }),
{
    reveal_with_fuel(told_all, 4);
    let claim = pool.claim_effects(policy_id, now);
    assert(claim.drop_last() =~= seq![claim[0], claim[1]]);
    assert(claim.drop_last().drop_last() =~= seq![claim[0]]);
    let sweep = pool.expire_effects(policy_id, now);
    assert(sweep.drop_last() =~= seq![sweep[0]]);
}

/// Every other call tells the registry nothing.
proof fn lemma_other_calls_tell_nothing(
    registry: RegistryState,
    registry_address: Address,
    pool_address: Address,
    pool: PoolState,
    call: PoolCall,
    now: u64,
)
    requires
        !sells_or_settles(call),
    ensures
        told_all(registry, registry_address, pool_address, laws::effects_of(pool, call), now)
            == registry,
{
    reveal_with_fuel(told_all, 4);
    let effects = laws::effects_of(pool, call);
    if effects.len() == 3 {
        assert(effects.drop_last() =~= seq![effects[0], effects[1]]);
        assert(effects.drop_last().drop_last() =~= seq![effects[0]]);
    } else {
        assert(effects.drop_last() =~= seq![effects[0]]);
    }
}

/// A registry that starts empty, belongs to the pool and is written to by nobody else mirrors the
/// pool at all times, as long as the pool is wired to it whenever it sells or settles. It refuses
/// the pool nothing: the next purchase, and the settlement of any policy sold so far, are taken
/// in.
pub proof fn the_mirror_holds_over_time(
    registry: RegistryState,
    registry_address: Address,
    pool_address: Address,
    calls: Seq<PoolCall>,
    holder: Address,
    params: PolicyParams,
    now: u64,
)
    requires
        registry.settings is Some,
        registry.settings->0.pool_contract == pool_address,
        registry.policies == Map::<u64, PolicyRecord>::empty(),
        history::all_accepted(pool::model::new_pool(), calls),
        always_wired(registry_address, pool::model::new_pool(), calls),
    ensures
        ({
            let r = registry_run(
                registry,
                registry_address,
                pool_address,
                pool::model::new_pool(),
                calls,
            );
            let p = history::run(pool::model::new_pool(), calls);
            &&& mirrors(r, p)
            &&& r.settings == registry.settings
            &&& r.policies.dom() == p.policies.dom()
            &&& r.registration(pool_address, sent(p, holder, params, now)) is Ok
            &&& forall|id: u64| #[trigger]
                p.policies.contains_key(id) ==> r.deactivation(pool_address, id) is Ok
        }),
    decreases calls.len(),
{
    let new_pool = pool::model::new_pool();
    let r = registry_run(registry, registry_address, pool_address, new_pool, calls);
    let p = history::run(new_pool, calls);
    history::every_reachable_pool_is_in_order(calls);
    if calls.len() == 0 {
        assert(r.policies.dom() =~= p.policies.dom());
    } else {
        let earlier = calls.drop_last();
        let call = calls.last();
        history::every_reachable_pool_is_in_order(earlier);
        let p0 = history::run(new_pool, earlier);
        let r0 = registry_run(registry, registry_address, pool_address, new_pool, earlier);
        match call {
            PoolCall::BuyPolicy { holder: h, params: terms, now: at } => {
                the_mirror_holds_over_time(
                    registry,
                    registry_address,
                    pool_address,
                    earlier,
                    h,
                    terms,
                    at,
                );
                lemma_purchase_tells(r0, pool_address, p0, h, terms, at);
                purchase_is_mirrored(p0, r0, pool_address, h, terms, at);
            },
            _ => {
                the_mirror_holds_over_time(
                    registry,
                    registry_address,
                    pool_address,
                    earlier,
                    holder,
                    params,
                    now,
                );
                match call {
                    PoolCall::ProcessClaim { policy_id, now: at } => {
                        lemma_settlement_tells(r0, pool_address, p0, policy_id, at);
                        claim_is_mirrored(p0, r0, pool_address, policy_id, at);
                    },
                    PoolCall::ExpirePolicy { policy_id, now: at } => {
                        lemma_settlement_tells(r0, pool_address, p0, policy_id, at);
                        sweep_is_mirrored(p0, r0, pool_address, policy_id, at);
                    },
                    _ => {
                        lemma_other_calls_tell_nothing(
                            r0,
                            registry_address,
                            pool_address,
                            p0,
                            call,
                            time_of(call),
                        );
                        other_calls_keep_the_mirror(r0, p0, call);
                    },
                }
            },
        }
        assert(r.policies.dom() =~= p.policies.dom());
    }
    assert(!p.policies.contains_key(p.next_policy_id));
    assert(!r.policies.dom().contains(p.next_policy_id));
}

/// The pool and the registry give each coverage category the same number.
pub proof fn categories_have_one_number(t: pool::types::CoverageType)
    ensures
        policy::model::coverage_code(category_read(pool::model::registry_name(t))) == (match t {
            pool::types::CoverageType::StablecoinDepeg => 0u32,
            pool::types::CoverageType::MarketCrash => 1u32,
            pool::types::CoverageType::LiquidationShield => 2u32,
            pool::types::CoverageType::SmartContractRisk => 3u32,
            pool::types::CoverageType::FlightDelay => 4u32,
        }),
{
}

/// The registry indexes a purchase as an active policy of the buyer, with the coverage bought, the
/// quote as its premium, an end after exactly the days bought, and the number of its category.
pub proof fn a_purchase_is_indexed_as_bought(
    pool: PoolState,
    registry: RegistryState,
    holder: Address,
    params: PolicyParams,
    now: u64,
)
    requires
        pool.premium_quote(params) is Ok,
        pool.buy_fits(holder, params, now),
    ensures
        ({
            let next = registry.registered(sent(pool, holder, params, now), now);
            let record = next.policies[pool.next_policy_id];
            &&& next.policies.contains_key(pool.next_policy_id)
            &&& record.policy_id == pool.next_policy_id
            &&& record.holder == holder
            &&& record.coverage_amount == params.coverage_amount
            &&& record.premium == pool.premium_quote(params)->Ok_0
            &&& record.expires_at == now + params.duration_days * 86_400
            &&& record.is_active
            &&& record.created_at == now
            &&& record.coverage_type == (match params.coverage_type {
                pool::types::CoverageType::StablecoinDepeg => {
                    policy::types::CoverageType::StablecoinDepeg
                },
                pool::types::CoverageType::MarketCrash => policy::types::CoverageType::MarketCrash,
                pool::types::CoverageType::LiquidationShield => {
                    policy::types::CoverageType::LiquidationShield
                },
                pool::types::CoverageType::SmartContractRisk => {
                    policy::types::CoverageType::SmartContractRisk
                },
                pool::types::CoverageType::FlightDelay => policy::types::CoverageType::FlightDelay,
            })
        }),
{
}

} // verus!
