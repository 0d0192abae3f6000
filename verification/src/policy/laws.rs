//! What the registry promises, call by call and over time.

use vstd::prelude::*;

use crate::address::Address;
use crate::policy::model;
use crate::policy::model::RegistryState;
use crate::policy::types::{PolicyRecord, PolicyRegistration, RegistryEffect, RegistryError};
use crate::seqs;
use crate::sums;
use crate::table;

verus! {

/// A call that may change the registry, with the ledger's time where it matters.
pub enum RegistryCall {
    Initialize { admin: Address, pool_contract: Address },
    RegisterPolicy { caller: Address, reg: PolicyRegistration, now: u64 },
    DeactivatePolicy { caller: Address, policy_id: u64 },
    SetPoolContract { caller: Address, new_pool: Address },
    SetAdmin { caller: Address, new_admin: Address },
}

/// One for each active policy.
pub open spec fn activity(policies: Map<u64, PolicyRecord>) -> Map<u64, int> {
    policies.map_values(
        |r: PolicyRecord|
            if r.is_active {
                1int
            } else {
                0
            },
    )
}

/// The premium of each policy.
pub open spec fn premiums(policies: Map<u64, PolicyRecord>) -> Map<u64, int> {
    policies.map_values(|r: PolicyRecord| r.premium as int)
}

/// Whether each holder's list names exactly the holder's policies, each once.
pub open spec fn index_resolves(
    index: Map<Address, Seq<u64>>,
    policies: Map<u64, PolicyRecord>,
) -> bool {
    &&& forall|holder: Address, i: int|
        index.contains_key(holder) && 0 <= i < index[holder].len() ==> policies.contains_key(
            #[trigger] index[holder][i],
        ) && policies[index[holder][i]].holder == holder
    &&& forall|holder: Address| #[trigger]
        index.contains_key(holder) ==> index[holder].no_duplicates()
    &&& forall|id: u64| #[trigger]
        policies.contains_key(id) ==> index.contains_key(policies[id].holder)
            && index[policies[id].holder].contains(id)
}

impl RegistryState {
    /// Whether a call goes through. (One that overflows does not.)
    pub open spec fn accepts(self, call: RegistryCall) -> bool {
        match call {
            RegistryCall::Initialize { .. } => self.settings is None,
            RegistryCall::RegisterPolicy { caller, reg, .. } => {
                &&& self.registration(caller, reg) is Ok
                &&& self.register_fits(caller, reg)
            },
            RegistryCall::DeactivatePolicy { caller, policy_id } => {
                &&& self.deactivation(caller, policy_id) is Ok
                &&& self.deactivate_fits(caller, policy_id)
            },
            RegistryCall::SetPoolContract { caller, .. } => self.admin_check(caller) is Ok,
            RegistryCall::SetAdmin { caller, .. } => self.admin_check(caller) is Ok,
        }
    }

    /// The state that a call leaves, where it goes through.
    pub open spec fn after(self, call: RegistryCall) -> RegistryState {
        match call {
            RegistryCall::Initialize { admin, pool_contract } => self.initialized(
                admin,
                pool_contract,
            ),
            RegistryCall::RegisterPolicy { reg, now, .. } => self.registered(reg, now),
            RegistryCall::DeactivatePolicy { policy_id, .. } => self.deactivated(policy_id),
            RegistryCall::SetPoolContract { new_pool, .. } => self.with_pool(new_pool),
            RegistryCall::SetAdmin { new_admin, .. } => self.with_admin(new_admin),
        }
    }

    /// What holds of every registry: its figures are those of its records, each record stands
    /// under its own id, and the lists per holder name exactly the holder's policies.
    pub open spec fn valid(self) -> bool {
        &&& self.settings is None ==> self == model::new_registry()
        &&& self.policies.dom().finite()
        &&& self.total_policies == self.policies.dom().len()
        &&& self.active_policies == sums::sum_values(activity(self.policies))
        &&& self.total_premium == sums::sum_values(premiums(self.policies))
        &&& forall|id: u64| #[trigger]
            self.policies.contains_key(id) ==> self.policies[id].policy_id == id
        &&& index_resolves(self.holder_policies, self.policies)
    }
}

/// A registry that nobody has initialized is valid.
pub proof fn a_new_registry_is_valid()
    ensures
        model::new_registry().valid(),
{
    let registry = model::new_registry();
    assert(activity(registry.policies) =~= Map::empty());
    assert(premiums(registry.policies) =~= Map::empty());
}

proof fn lemma_register_keeps_valid(s: RegistryState, reg: PolicyRegistration, now: u64)
    requires
        s.valid(),
        s.settings is Some,
        !s.policies.contains_key(reg.policy_id),
    ensures
        s.registered(reg, now).valid(),
{
    let next = s.registered(reg, now);
    let id = reg.policy_id;
    let record = model::record_of(reg, now);
    let active = |r: PolicyRecord|
        if r.is_active {
            1int
        } else {
            0
        };
    let paid = |r: PolicyRecord| r.premium as int;
    table::lemma_map_values_insert(s.policies, active, id, record);
    table::lemma_map_values_insert(s.policies, paid, id, record);
    assert(activity(s.policies).dom() =~= s.policies.dom());
    assert(premiums(s.policies).dom() =~= s.policies.dom());
    sums::lemma_sum_insert(activity(s.policies), id, 1);
    sums::lemma_sum_insert(premiums(s.policies), id, reg.premium as int);
    assert(next.policies.dom() =~= s.policies.dom().insert(id));
    let index = s.holder_policies;
    let index2 = next.holder_policies;
    let listed = s.policies_of(reg.holder);
    assert forall|holder: Address, i: int|
        index2.contains_key(holder) && 0 <= i
            < index2[holder].len() implies next.policies.contains_key(
        #[trigger] index2[holder][i],
    ) && next.policies[index2[holder][i]].holder == holder by {
        if holder != reg.holder || i < listed.len() {
            assert(index2[holder][i] == index[holder][i]);
        }
    }
    assert forall|holder: Address| #[trigger] index2.contains_key(
        holder,
    ) implies index2[holder].no_duplicates() by {
        if holder == reg.holder {
            assert forall|i: int| 0 <= i < listed.len() implies #[trigger] listed[i] != id by {
                assert(s.policies.contains_key(index[holder][i]));
            }
            if index.contains_key(holder) {
                assert(listed.no_duplicates());
            }
        } else {
            assert(index.contains_key(holder));
        }
    }
    assert forall|k: u64| #[trigger] next.policies.contains_key(k) implies index2.contains_key(
        next.policies[k].holder,
    ) && index2[next.policies[k].holder].contains(k) by {
        if k == id {
            assert(index2[reg.holder][listed.len() as int] == id);
        } else {
            assert(s.policies.contains_key(k));
            let owner = s.policies[k].holder;
            let i = choose|i: int| 0 <= i < index[owner].len() && index[owner][i] == k;
            assert(index2[owner][i] == k);
        }
    }
}

proof fn lemma_deactivate_keeps_valid(s: RegistryState, policy_id: u64)
    requires
        s.valid(),
        s.settings is Some,
        s.policies.contains_key(policy_id),
    ensures
        s.deactivated(policy_id).valid(),
{
    if s.is_active(policy_id) {
        let next = s.deactivated(policy_id);
        let record = PolicyRecord { is_active: false, ..s.policies[policy_id] };
        let active = |r: PolicyRecord|
            if r.is_active {
                1int
            } else {
                0
            };
        let paid = |r: PolicyRecord| r.premium as int;
        table::lemma_map_values_insert(s.policies, active, policy_id, record);
        table::lemma_map_values_insert(s.policies, paid, policy_id, record);
        assert(activity(s.policies).dom() =~= s.policies.dom());
        assert(premiums(s.policies).dom() =~= s.policies.dom());
        sums::lemma_sum_insert(activity(s.policies), policy_id, 0);
        sums::lemma_sum_insert(premiums(s.policies), policy_id, record.premium as int);
        assert(next.policies.dom() =~= s.policies.dom());
        assert forall|k: u64| #[trigger] next.policies.contains_key(
            k,
        ) implies s.holder_policies.contains_key(next.policies[k].holder)
            && s.holder_policies[next.policies[k].holder].contains(k) by {
            assert(s.policies.contains_key(k));
        }
    }
}

/// Every call that goes through keeps the registry valid.
pub proof fn every_call_keeps_the_registry_valid(s: RegistryState, call: RegistryCall)
    requires
        s.valid(),
        s.accepts(call),
    ensures
        s.after(call).valid(),
{
    match call {
        RegistryCall::Initialize { .. } => a_new_registry_is_valid(),
        RegistryCall::RegisterPolicy { reg, now, .. } => lemma_register_keeps_valid(s, reg, now),
        RegistryCall::DeactivatePolicy { policy_id, .. } => lemma_deactivate_keeps_valid(
            s,
            policy_id,
        ),
        _ => {},
    }
}

/// Whether each call goes through, one after the other.
pub open spec fn all_accepted(s: RegistryState, calls: Seq<RegistryCall>) -> bool
    decreases calls.len(),
{
    calls.len() == 0 || {
        &&& all_accepted(s, calls.drop_last())
        &&& run(s, calls.drop_last()).accepts(calls.last())
    }
}

/// The state that calls leave, one after the other.
pub open spec fn run(s: RegistryState, calls: Seq<RegistryCall>) -> RegistryState
    decreases calls.len(),
{
    if calls.len() == 0 {
        s
    } else {
        run(s, calls.drop_last()).after(calls.last())
    }
}

/// Every state that a registry can come to is valid.
pub proof fn every_reachable_registry_is_valid(calls: Seq<RegistryCall>)
    requires
        all_accepted(model::new_registry(), calls),
    ensures
        run(model::new_registry(), calls).valid(),
    decreases calls.len(),
{
    if calls.len() == 0 {
        a_new_registry_is_valid();
    } else {
        every_reachable_registry_is_valid(calls.drop_last());
        every_call_keeps_the_registry_valid(
            run(model::new_registry(), calls.drop_last()),
            calls.last(),
        );
    }
}

/// There are never more active policies than policies, and the count of active ones never
/// underflows.
pub proof fn active_policies_are_among_all(s: RegistryState, caller: Address, policy_id: u64)
    requires
        s.valid(),
    ensures
        0 <= s.active_policies <= s.total_policies,
        s.deactivate_fits(caller, policy_id),
{
    let active = activity(s.policies);
    assert(active.dom() =~= s.policies.dom());
    assert forall|k: u64| active.contains_key(k) implies 0 <= #[trigger] active[k] by {}
    sums::lemma_sum_bounds(active);
    if s.is_active(policy_id) {
        assert(active[policy_id] == 1);
    }
    lemma_sum_of_flags(active);
}

/// A sum of flags is at most their number.
proof fn lemma_sum_of_flags(m: Map<u64, int>)
    requires
        m.dom().finite(),
        forall|k: u64| m.contains_key(k) ==> #[trigger] m[k] <= 1,
    ensures
        sums::sum_values(m) <= m.dom().len(),
    decreases m.dom().len(),
{
    if m.dom().len() != 0 {
        let k = m.dom().choose();
        assert(m.remove(k).dom() =~= m.dom().remove(k));
        assert(m.contains_key(k));
        lemma_sum_of_flags(m.remove(k));
    }
}

/// The three figures stand under three names.
pub proof fn figures_are_told_apart(s: RegistryState)
    ensures
        s.stats().dom().len() == 3,
        s.stats()["total_policies"@] == s.total_policies as i128,
        s.stats()["active_policies"@] == s.active_policies as i128,
        s.stats()["total_premium"@] == s.total_premium as i128,
{
    reveal_strlit("total_policies");
    reveal_strlit("active_policies");
    reveal_strlit("total_premium");
    assert("total_policies"@.len() == 14);
    assert("active_policies"@.len() == 15);
    assert("total_premium"@.len() == 13);
    assert(s.stats().dom() =~= set!["total_policies"@, "active_policies"@, "total_premium"@]);
}

/// A registered policy can be looked up under its id, with the terms it was registered with, and
/// it is the last in its holder's lists.
pub proof fn a_registered_policy_can_be_looked_up(
    s: RegistryState,
    reg: PolicyRegistration,
    now: u64,
)
    ensures
        ({
            let next = s.registered(reg, now);
            &&& next.policies.contains_key(reg.policy_id)
            &&& next.policies[reg.policy_id] == model::record_of(reg, now)
            &&& next.is_active(reg.policy_id)
            &&& next.policies_of(reg.holder) == s.policies_of(reg.holder).push(reg.policy_id)
        }),
{
}

/// An id is given out once: whoever registers it again is refused, whatever happened to the
/// policy since.
pub proof fn an_id_is_registered_once(
    s: RegistryState,
    call: RegistryCall,
    caller: Address,
    reg: PolicyRegistration,
)
    requires
        s.valid(),
        s.accepts(call),
        s.policies.contains_key(reg.policy_id),
    ensures
        s.after(call).policies.contains_key(reg.policy_id),
        s.after(call).registration(caller, reg) is Err,
{
}

/// A record stays, its terms never change, and once it is inactive it stays so.
pub proof fn a_record_only_ever_deactivates(s: RegistryState, call: RegistryCall, id: u64)
    requires
        s.valid(),
        s.accepts(call),
        s.policies.contains_key(id),
    ensures
        s.after(call).policies.contains_key(id),
        ({
            let before = s.policies[id];
            let after = s.after(call).policies[id];
            &&& after == (PolicyRecord { is_active: after.is_active, ..before })
            &&& after.is_active ==> before.is_active
        }),
{
}

/// Deactivating a policy that is inactive changes nothing and announces nothing.
pub proof fn deactivating_twice_is_deactivating_once(
    s: RegistryState,
    caller: Address,
    policy_id: u64,
)
    ensures
        !s.deactivated(policy_id).is_active(policy_id),
        s.deactivated(policy_id).deactivated(policy_id) == s.deactivated(policy_id),
        s.deactivated(policy_id).deactivate_effects(caller, policy_id) == seq![
            RegistryEffect::RequireAuth { address: caller },
        ],
{
}

/// The number of policies and their premiums are a record of the past: deactivation leaves them,
/// and the holder's list of all policies, as they are.
pub proof fn deactivation_keeps_the_history(s: RegistryState, policy_id: u64, holder: Address)
    ensures
        s.deactivated(policy_id).total_policies == s.total_policies,
        s.deactivated(policy_id).total_premium == s.total_premium,
        s.deactivated(policy_id).policies_of(holder) == s.policies_of(holder),
{
}

/// A holder's active policies are exactly those of the holder's policies that are active.
pub proof fn active_ids_are_the_active_policies(s: RegistryState, holder: Address, id: u64)
    requires
        s.valid(),
    ensures
        s.active_policies_of(holder).contains(id) <==> s.is_active(id) && s.policies[id].holder
            == holder,
{
    let ids = s.policies_of(holder);
    seqs::lemma_filter_holds(ids, |k: u64| s.is_active(k));
    if ids.contains(id) {
        let i = choose|i: int| 0 <= i < ids.len() && ids[i] == id;
        assert(s.holder_policies[holder][i] == id);
    }
}

/// Only the pool and the admin write to the records.
pub proof fn only_the_pool_and_the_admin_write(s: RegistryState, call: RegistryCall)
    requires
        s.settings is Some,
        s.accepts(call),
        s.after(call).policies != s.policies,
    ensures
        match call {
            RegistryCall::RegisterPolicy { caller, .. } => caller == s.settings->0.admin || caller
                == s.settings->0.pool_contract,
            RegistryCall::DeactivatePolicy { caller, .. } => caller == s.settings->0.admin || caller
                == s.settings->0.pool_contract,
            _ => false,
        },
{
}

/// Only the admin changes who may write. The pool may not.
pub proof fn only_the_admin_changes_the_writers(s: RegistryState, call: RegistryCall)
    requires
        s.settings is Some,
        s.accepts(call),
        s.after(call).settings != s.settings,
    ensures
        match call {
            RegistryCall::SetPoolContract { caller, .. } => caller == s.settings->0.admin,
            RegistryCall::SetAdmin { caller, .. } => caller == s.settings->0.admin,
            _ => false,
        },
{
}

/// Pointing the registry at another pool gives that pool access and takes it from the former
/// one, unless the former one is the admin.
pub proof fn repointing_moves_the_pool_role(s: RegistryState, new_pool: Address)
    requires
        s.settings is Some,
    ensures
        s.with_pool(new_pool).writer_check(new_pool) is Ok,
        ({
            let old_pool = s.settings->0.pool_contract;
            old_pool != new_pool && old_pool != s.settings->0.admin ==> s.with_pool(
                new_pool,
            ).writer_check(old_pool) == Err::<(), RegistryError>(RegistryError::Unauthorized)
        }),
{
}

/// Once the admin role is handed over, the former admin is refused and the new one is not.
pub proof fn handing_over_moves_the_admin_role(
    s: RegistryState,
    old_admin: Address,
    new_admin: Address,
)
    requires
        s.admin_check(old_admin) is Ok,
    ensures
        s.with_admin(new_admin).admin_check(new_admin) is Ok,
        old_admin != new_admin ==> s.with_admin(new_admin).admin_check(old_admin) == Err::<
            (),
            RegistryError,
        >(RegistryError::Unauthorized),
{
}

} // verus!
