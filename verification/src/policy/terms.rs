//! What the registry's calls come to: who may write, what is filed, and what is listed.

use vstd::prelude::*;

use crate::address::Address;
use crate::policy::contract::RefractPolicyRegistry;
use crate::policy::model;
use crate::policy::model::RegistryState;
use crate::policy::types::{
    CoverageType, PolicyRecord, PolicyRegistration, RegistryEffect, RegistryError, RegistryEvent,
    RegistrySettings,
};

verus! {

/// A new registry holds nothing. Initialization gives it the admin and the pool, and counts from
/// zero.
pub proof fn a_registry_starts_empty(s: RegistryState, admin: Address, pool_contract: Address)
    ensures
        model::new_registry() == (RegistryState {
            settings: None,
            total_policies: 0,
            active_policies: 0,
            total_premium: 0,
            policies: Map::empty(),
            holder_policies: Map::empty(),
        }),
        s.initialized(admin, pool_contract) == (RegistryState {
            settings: Some(RegistrySettings { admin, pool_contract }),
            total_policies: 0,
            active_policies: 0,
            total_premium: 0,
            policies: s.policies,
            holder_policies: s.holder_policies,
        }),
{
}

/// The pool and the admin may write, and only the admin administers. Anyone else is refused.
pub proof fn access_is_for_the_pool_and_the_admin(s: RegistryState, caller: Address)
    ensures
        s.writer_check(caller) is Ok <==> s.settings is Some && (s.settings->0.admin == caller
            || s.settings->0.pool_contract == caller),
        s.admin_check(caller) is Ok <==> s.settings is Some && s.settings->0.admin == caller,
        s.settings is None ==> s.writer_check(caller) == Err::<(), RegistryError>(
            RegistryError::NotInitialized,
        ) && s.admin_check(caller) == Err::<(), RegistryError>(RegistryError::NotInitialized),
        s.settings is Some && s.writer_check(caller) is Err ==> s.writer_check(caller) == Err::<
            (),
            RegistryError,
        >(RegistryError::Unauthorized),
        s.settings is Some && s.admin_check(caller) is Err ==> s.admin_check(caller) == Err::<
            (),
            RegistryError,
        >(RegistryError::Unauthorized),
{
}

/// Whoever may write registers any id that is free, and is answered with it. An id that is taken is
/// refused.
pub proof fn a_free_id_is_registered(s: RegistryState, caller: Address, reg: PolicyRegistration)
    ensures
        ({
            let writer = s.settings is Some && (s.settings->0.admin == caller
                || s.settings->0.pool_contract == caller);
            let listed = if s.holder_policies.contains_key(reg.holder) {
                s.holder_policies[reg.holder]
            } else {
                Seq::empty()
            };
            let free = !s.policies.contains_key(reg.policy_id);
            &&& s.registration(caller, reg) == (if s.settings is None {
                Err(RegistryError::NotInitialized)
            } else if !writer {
                Err(RegistryError::Unauthorized)
            } else if !free {
                Err(RegistryError::PolicyAlreadyExists)
            } else {
                Ok(reg.policy_id)
            })
            &&& s.register_fits(caller, reg) <==> (writer && free ==> {
                &&& listed.len() < 0xffff_ffff
                &&& s.total_policies < 0xffff_ffff_ffff_ffff
                &&& s.active_policies < 0xffff_ffff_ffff_ffff
                &&& -0x8000_0000_0000_0000_0000_0000_0000_0000 <= s.total_premium + reg.premium
                    < 0x8000_0000_0000_0000_0000_0000_0000_0000
            })
        }),
{
}

/// A registration files the policy as active with the terms given and the time, lists it last among
/// the holder's, counts it among all and among the active ones, adds its premium, and touches
/// nothing else. It announces the id, the number of the category and the coverage.
pub proof fn a_registration_is_filed(
    s: RegistryState,
    caller: Address,
    reg: PolicyRegistration,
    now: u64,
)
    ensures
        ({
            let listed = if s.holder_policies.contains_key(reg.holder) {
                s.holder_policies[reg.holder]
            } else {
                Seq::empty()
            };
            s.registered(reg, now) == (RegistryState {
                settings: s.settings,
                total_policies: s.total_policies + 1,
                active_policies: s.active_policies + 1,
                total_premium: s.total_premium + reg.premium,
                policies: s.policies.insert(
                    reg.policy_id,
                    PolicyRecord {
                        policy_id: reg.policy_id,
                        holder: reg.holder,
                        coverage_type: reg.coverage_type,
                        coverage_amount: reg.coverage_amount,
                        premium: reg.premium,
                        expires_at: reg.expires_at,
                        is_active: true,
                        created_at: now,
                    },
                ),
                holder_policies: s.holder_policies.insert(
                    reg.holder,
                    listed.push(reg.policy_id),
                ),
            })
        }),
        ({
            let number = match reg.coverage_type {
                CoverageType::StablecoinDepeg => 0u32,
                CoverageType::MarketCrash => 1u32,
                CoverageType::LiquidationShield => 2u32,
                CoverageType::SmartContractRisk => 3u32,
                CoverageType::FlightDelay => 4u32,
            };
            &&& model::coverage_code(reg.coverage_type) == number
            &&& s.register_effects(caller, reg) == seq![
                RegistryEffect::RequireAuth { address: caller },
                RegistryEffect::Publish {
                    event: RegistryEvent::Registered {
                        policy_id: reg.policy_id,
                        coverage_code: number,
                        coverage_amount: reg.coverage_amount,
                    },
                },
            ]
        }),
{
}

/// Whoever may write deactivates any policy on record.
pub proof fn a_policy_on_record_is_deactivated(s: RegistryState, caller: Address, policy_id: u64)
    ensures
        ({
            let writer = s.settings is Some && (s.settings->0.admin == caller
                || s.settings->0.pool_contract == caller);
            let known = s.policies.contains_key(policy_id);
            &&& s.deactivation(caller, policy_id) == (if s.settings is None {
                Err(RegistryError::NotInitialized)
            } else if !writer {
                Err(RegistryError::Unauthorized)
            } else if !known {
                Err(RegistryError::PolicyNotFound)
            } else {
                Ok(())
            })
            &&& s.deactivate_fits(caller, policy_id) <==> (writer && known
                && s.policies[policy_id].is_active ==> s.active_policies > 0)
        }),
{
}

/// A deactivation takes an active policy out of the active ones, announces it, and touches nothing
/// else. Of one that is inactive it changes and announces nothing.
pub proof fn a_deactivation_is_filed(s: RegistryState, caller: Address, policy_id: u64)
    requires
        s.policies.contains_key(policy_id),
    ensures
        ({
            let record = s.policies[policy_id];
            let asked = RegistryEffect::RequireAuth { address: caller };
            &&& record.is_active ==> s.deactivated(policy_id) == (RegistryState {
                settings: s.settings,
                total_policies: s.total_policies,
                active_policies: s.active_policies - 1,
                total_premium: s.total_premium,
                policies: s.policies.insert(
                    policy_id,
                    PolicyRecord {
                        policy_id: record.policy_id,
                        holder: record.holder,
                        coverage_type: record.coverage_type,
                        coverage_amount: record.coverage_amount,
                        premium: record.premium,
                        expires_at: record.expires_at,
                        is_active: false,
                        created_at: record.created_at,
                    },
                ),
                holder_policies: s.holder_policies,
            })
            &&& record.is_active ==> s.deactivate_effects(caller, policy_id) == seq![
                asked,
                RegistryEffect::Publish { event: RegistryEvent::Deactivated { policy_id } },
            ]
            &&& !record.is_active ==> s.deactivated(policy_id) == s
            &&& !record.is_active ==> s.deactivate_effects(caller, policy_id) == seq![asked]
        }),
{
}

/// A holder's policies are those on the holder's list. The active ones among them are found by
/// going through that list in order.
pub proof fn holders_lists_are_on_record(
    s: RegistryState,
    holder: Address,
    before: Seq<u64>,
    last: u64,
)
    ensures
        s.holder_policies.contains_key(holder) ==> s.policies_of(holder)
            == s.holder_policies[holder],
        !s.holder_policies.contains_key(holder) ==> s.policies_of(holder) == Seq::<u64>::empty()
            && s.active_policies_of(holder) == Seq::<u64>::empty(),
        s.is_active(last) <==> s.policies.contains_key(last) && s.policies[last].is_active,
        ({
            let active = |list: Seq<u64>|
                (RegistryState {
                    holder_policies: s.holder_policies.insert(holder, list),
                    ..s
                }).active_policies_of(holder);
            &&& active(Seq::empty()) == Seq::<u64>::empty()
            &&& active(before.push(last)) == (if s.policies.contains_key(last)
                && s.policies[last].is_active {
                active(before).push(last)
            } else {
                active(before)
            })
        }),
{
    reveal(Seq::filter);
    assert(before.push(last).drop_last() =~= before);
    let with = |list: Seq<u64>|
        RegistryState { holder_policies: s.holder_policies.insert(holder, list), ..s };
    let keep = |id: u64| s.is_active(id);
    assert forall|list: Seq<u64>| #[trigger] with(list).active_policies_of(holder) == list.filter(
        keep,
    ) by {
        assert(with(list).policies_of(holder) == list);
        assert((|id: u64| with(list).is_active(id)) =~= keep);
    }
    assert(with(before).active_policies_of(holder) == before.filter(keep));
    assert(with(before.push(last)).active_policies_of(holder) == before.push(last).filter(keep));
    assert(with(Seq::empty()).active_policies_of(holder) == Seq::<u64>::empty().filter(keep));
}

/// Each admin-only call changes what it names, to what was given, and nothing else.
pub proof fn admin_calls_change_what_they_name(s: RegistryState, address: Address)
    requires
        s.settings is Some,
    ensures
        s.with_pool(address) == (RegistryState {
            settings: Some(
                RegistrySettings { admin: s.settings->0.admin, pool_contract: address },
            ),
            ..s
        }),
        s.with_admin(address) == (RegistryState {
            settings: Some(
                RegistrySettings { admin: address, pool_contract: s.settings->0.pool_contract },
            ),
            ..s
        }),
{
}

/// The state of a registry is what its fields hold.
pub proof fn a_registrys_state_is_what_its_fields_hold(
    registry: RefractPolicyRegistry,
    holder: Address,
)
    ensures
        registry@.settings == registry.settings,
        registry@.total_policies == registry.total_policies,
        registry@.active_policies == registry.active_policies,
        registry@.total_premium == registry.total_premium,
        registry@.policies == registry.policies@,
        registry@.holder_policies.dom() == registry.holder_policies@.dom(),
        registry.holder_policies@.contains_key(holder) ==> registry@.holder_policies[holder]
            == registry.holder_policies@[holder]@,
{
    assert(registry@.holder_policies.dom() =~= registry.holder_policies@.dom());
}

} // verus!
