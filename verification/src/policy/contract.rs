//! The registry's entry points.

use vstd::prelude::*;

use crate::address::Address;
use crate::host;
use crate::host::{new_figure_map, set_figure};
use crate::lists::IdList;
use crate::math::sum;
use crate::policy::model;
use crate::policy::types::{
    PolicyRecord, PolicyRegistration, RegistryEffect, RegistryError, RegistryEvent,
    RegistrySettings,
};
use crate::table::Table;

verus! {

/// The registry: what it keeps in storage, and what it has asked of the host.
pub struct RefractPolicyRegistry {
    pub settings: Option<RegistrySettings>,
    pub total_policies: u64,
    pub active_policies: u64,
    pub total_premium: i128,
    pub policies: Table<u64, PolicyRecord>,
    pub holder_policies: Table<Address, IdList>,
    /// What the host has to do, in order.
    pub effects: Vec<RegistryEffect>,
}

impl View for RefractPolicyRegistry {
    type V = model::RegistryState;

    open spec fn view(&self) -> model::RegistryState {
        model::RegistryState {
            settings: self.settings,
            total_policies: self.total_policies as int,
            active_policies: self.active_policies as int,
            total_premium: self.total_premium as int,
            policies: self.policies@,
            holder_policies: self.holder_policies@.map_values(|ids: IdList| ids@),
        }
    }
}

impl RefractPolicyRegistry {
    /// A registry that nobody has initialized.
    pub fn new() -> (registry: RefractPolicyRegistry)
        ensures
            registry@ == model::new_registry(),
            registry.effects@ == Seq::<RegistryEffect>::empty(),
    {
        let registry = RefractPolicyRegistry {
            settings: None,
            total_policies: 0,
            active_policies: 0,
            total_premium: 0,
            policies: Table::new(),
            holder_policies: Table::new(),
            effects: Vec::new(),
        };
        assert(registry@ =~= model::new_registry());
        registry
    }

    /// Wires the registry to its admin and its pool, once.
    pub fn initialize(&mut self, admin: Address, pool_contract: Address) -> (r: Result<
        (),
        RegistryError,
    >)
        ensures
            r == (if old(self)@.settings is Some {
                Err(RegistryError::AlreadyInitialized)
            } else {
                Ok::<(), RegistryError>(())
            }),
            r is Ok ==> final(self)@ == old(self)@.initialized(admin, pool_contract),
            r is Err ==> final(self)@ == old(self)@,
            final(self).effects@ == old(self).effects@,
    {
        if self.settings.is_some() {
            return Err(RegistryError::AlreadyInitialized);
        }
        self.settings = Some(RegistrySettings { admin, pool_contract });
        self.total_policies = 0;
        self.active_policies = 0;
        self.total_premium = 0;
        assert(self@ =~= old(self)@.initialized(admin, pool_contract));
        Ok(())
    }

    // ── Policies ───────────────────────────────────────────────────────────────

    /// Whether `register_policy` can be recorded without overflow.
    pub fn register_policy_fits(&self, caller: Address, reg: PolicyRegistration) -> (r: bool)
        ensures
            r == self@.register_fits(caller, reg),
    {
        match self.settings {
            None => return true,
            Some(settings) => if caller != settings.admin && caller != settings.pool_contract {
                return true;
            },
        }
        if self.policies.get(&reg.policy_id).is_some() {
            return true;
        }
        let held: u32 = match self.holder_policies.get(&reg.holder) {
            Some(ids) => ids.len(),
            None => 0,
        };
        held < u32::MAX && self.total_policies < u64::MAX && self.active_policies < u64::MAX && sum(
            self.total_premium,
            reg.premium,
        ).is_some()
    }

    /// Indexes a policy under the id that the pool gave it, and answers with that id. The
    /// registry makes no ids of its own, so that one id names the same policy in both contracts.
    pub fn register_policy(
        &mut self,
        env: &soroban_sdk::Env,
        caller: Address,
        reg: PolicyRegistration,
        now: u64,
    ) -> (r: Result<u64, RegistryError>)
        requires
            old(self)@.register_fits(caller, reg),
        ensures
            r == old(self)@.registration(caller, reg),
            match r {
                Ok(_) => {
                    &&& final(self)@ == old(self)@.registered(reg, now)
                    &&& final(self).effects@ == old(self).effects@ + old(self)@.register_effects(
                        caller,
                        reg,
                    )
                },
                Err(_) => {
                    &&& final(self)@ == old(self)@
                    &&& final(self).effects@ == old(self).effects@.push(
                        RegistryEffect::RequireAuth { address: caller },
                    )
                },
            },
    {
        if let Err(e) = self.require_pool_or_admin(caller) {
            return Err(e);
        }
        let policy_id: u64 = reg.policy_id;
        if self.policies.get(&policy_id).is_some() {
            return Err(RegistryError::PolicyAlreadyExists);
        }
        let record = PolicyRecord {
            policy_id,
            holder: reg.holder,
            coverage_type: reg.coverage_type,
            coverage_amount: reg.coverage_amount,
            premium: reg.premium,
            expires_at: reg.expires_at,
            is_active: true,
            created_at: now,
        };
        self.policies.set(policy_id, record);
        let ids = self.get_holder_policy_ids(env, reg.holder).push_back(policy_id);
        self.holder_policies.set(reg.holder, ids);
        self.total_policies = self.total_policies + 1;
        self.active_policies = self.active_policies + 1;
        self.total_premium = self.total_premium + reg.premium;
        self.publish(
            RegistryEvent::Registered {
                policy_id,
                coverage_code: reg.coverage_type.code(),
                coverage_amount: reg.coverage_amount,
            },
        );
        assert(self@ =~= old(self)@.registered(reg, now));
        assert(self.effects@ =~= old(self).effects@ + old(self)@.register_effects(caller, reg));
        Ok(policy_id)
    }

    /// Whether `deactivate_policy` can be recorded without underflow.
    pub fn deactivate_policy_fits(&self, caller: Address, policy_id: u64) -> (r: bool)
        ensures
            r == self@.deactivate_fits(caller, policy_id),
    {
        match self.settings {
            None => return true,
            Some(settings) => if caller != settings.admin && caller != settings.pool_contract {
                return true;
            },
        }
        match self.policies.get(&policy_id) {
            None => true,
            Some(record) => !record.is_active || self.active_policies > 0,
        }
    }

    /// Marks a policy as settled. Doing so again changes nothing and announces nothing.
    pub fn deactivate_policy(&mut self, caller: Address, policy_id: u64) -> (r: Result<
        (),
        RegistryError,
    >)
        requires
            old(self)@.deactivate_fits(caller, policy_id),
        ensures
            r == old(self)@.deactivation(caller, policy_id),
            r is Ok ==> final(self)@ == old(self)@.deactivated(policy_id) && final(self).effects@
                == old(self).effects@ + old(self)@.deactivate_effects(caller, policy_id),
            r is Err ==> final(self)@ == old(self)@ && final(self).effects@ == old(
                self,
            ).effects@.push(RegistryEffect::RequireAuth { address: caller }),
    {
        if let Err(e) = self.require_pool_or_admin(caller) {
            return Err(e);
        }
        let mut record: PolicyRecord = match self.policies.get(&policy_id) {
            Some(record) => *record,
            None => return Err(RegistryError::PolicyNotFound),
        };
        if record.is_active {
            record.is_active = false;
            self.policies.set(policy_id, record);
            self.active_policies = self.active_policies - 1;
            self.publish(RegistryEvent::Deactivated { policy_id });
        }
        assert(self@ =~= old(self)@.deactivated(policy_id));
        assert(self.effects@ =~= old(self).effects@ + old(self)@.deactivate_effects(
            caller,
            policy_id,
        ));
        Ok(())
    }

    // ── Administration ─────────────────────────────────────────────────────────

    /// Points the registry at another pool, which takes the place of the former one. Admin only.
    pub fn set_pool_contract(&mut self, caller: Address, new_pool: Address) -> (r: Result<
        (),
        RegistryError,
    >)
        ensures
            r == old(self)@.admin_check(caller),
            r is Ok ==> final(self)@ == old(self)@.with_pool(new_pool) && final(self).effects@
                == old(self).effects@ + seq![
                RegistryEffect::RequireAuth { address: caller },
                RegistryEffect::Publish {
                    event: RegistryEvent::PoolContractSet { pool_contract: new_pool },
                },
            ],
            r is Err ==> final(self)@ == old(self)@ && final(self).effects@ == old(
                self,
            ).effects@.push(RegistryEffect::RequireAuth { address: caller }),
    {
        match self.require_admin(caller) {
            Err(e) => Err(e),
            Ok(settings) => {
                self.settings = Some(RegistrySettings { pool_contract: new_pool, ..settings });
                self.publish(RegistryEvent::PoolContractSet { pool_contract: new_pool });
                assert(self@ =~= old(self)@.with_pool(new_pool));
                Ok(())
            },
        }
    }

    /// Hands the admin role over. Admin only.
    pub fn set_admin(&mut self, caller: Address, new_admin: Address) -> (r: Result<
        (),
        RegistryError,
    >)
        ensures
            r == old(self)@.admin_check(caller),
            r is Ok ==> final(self)@ == old(self)@.with_admin(new_admin) && final(self).effects@
                == old(self).effects@ + seq![
                RegistryEffect::RequireAuth { address: caller },
                RegistryEffect::Publish { event: RegistryEvent::AdminSet { new_admin } },
            ],
            r is Err ==> final(self)@ == old(self)@ && final(self).effects@ == old(
                self,
            ).effects@.push(RegistryEffect::RequireAuth { address: caller }),
    {
        match self.require_admin(caller) {
            Err(e) => Err(e),
            Ok(settings) => {
                self.settings = Some(RegistrySettings { admin: new_admin, ..settings });
                self.publish(RegistryEvent::AdminSet { new_admin });
                assert(self@ =~= old(self)@.with_admin(new_admin));
                Ok(())
            },
        }
    }

    // ── Views ──────────────────────────────────────────────────────────────────

    /// The record of a policy.
    pub fn get_policy(&self, policy_id: u64) -> (r: Result<PolicyRecord, RegistryError>)
        ensures
            r == (if self@.policies.contains_key(policy_id) {
                Ok(self@.policies[policy_id])
            } else {
                Err(RegistryError::PolicyNotFound)
            }),
    {
        match self.policies.get(&policy_id) {
            Some(record) => Ok(*record),
            None => Err(RegistryError::PolicyNotFound),
        }
    }

    /// The ids of all policies of `holder`, settled ones too, oldest first.
    pub fn get_holder_policy_ids(&self, env: &soroban_sdk::Env, holder: Address) -> (ids: IdList)
        ensures
            ids@ == self@.policies_of(holder),
    {
        match self.holder_policies.get(&holder) {
            Some(ids) => ids.clone(),
            None => IdList::new(env),
        }
    }

    /// The ids of the active policies of `holder`, oldest first.
    pub fn get_holder_active_policy_ids(&self, env: &soroban_sdk::Env, holder: Address) -> (active:
        IdList)
        ensures
            active@ == self@.active_policies_of(holder),
    {
        let ids = self.get_holder_policy_ids(env, holder);
        let ghost keep = |id: u64| self@.is_active(id);
        let len: u32 = ids.len();
        let mut active = IdList::new(env);
        let mut i: u32 = 0;
        assert(ids@.take(0) =~= Seq::<u64>::empty());
        while i < len
            invariant
                i <= len,
                len == ids@.len(),
                keep == (|id: u64| self@.is_active(id)),
                active@ == ids@.take(i as int).filter(keep),
                active@.len() <= i,
            decreases len - i,
        {
            reveal(Seq::filter);
            assert(ids@.take(i + 1).drop_last() =~= ids@.take(i as int));
            if let Some(id) = ids.get(i) {
                if let Some(record) = self.policies.get(&id) {
                    if record.is_active {
                        active = active.push_back(id);
                    }
                }
            }
            i += 1;
        }
        assert(ids@.take(len as int) =~= ids@);
        active
    }

    /// The registry's figures: how many policies there ever were, how many of them are active,
    /// and what all of them cost.
    pub fn get_stats(&self, env: &soroban_sdk::Env) -> (stats: soroban_sdk::Map<
        soroban_sdk::Symbol,
        i128,
    >)
        ensures
            host::figure_map(stats) == self@.stats(),
    {
        proof {
            reveal_strlit("total_policies");
            reveal_strlit("active_policies");
            reveal_strlit("total_premium");
        }
        let mut stats = new_figure_map(env);
        assert(host::figure_map(stats) =~= Map::<Seq<char>, i128>::empty());
        set_figure(&mut stats, "total_policies", self.total_policies as i128);
        set_figure(&mut stats, "active_policies", self.active_policies as i128);
        set_figure(&mut stats, "total_premium", self.total_premium);
        assert(host::figure_map(stats) =~= self@.stats());
        stats
    }

    /// The address that may make admin-only calls.
    pub fn admin(&self) -> (r: Option<Address>)
        ensures
            r == (match self@.settings {
                Some(settings) => Some(settings.admin),
                None => None,
            }),
    {
        match self.settings {
            Some(settings) => Some(settings.admin),
            None => None,
        }
    }

    /// The pool that may write to the registry.
    pub fn pool_contract(&self) -> (r: Option<Address>)
        ensures
            r == (match self@.settings {
                Some(settings) => Some(settings.pool_contract),
                None => None,
            }),
    {
        match self.settings {
            Some(settings) => Some(settings.pool_contract),
            None => None,
        }
    }

    // ── Guards ─────────────────────────────────────────────────────────────────

    /// Asks for the caller's authorization and checks that the caller is the pool or the admin.
    fn require_pool_or_admin(&mut self, caller: Address) -> (r: Result<(), RegistryError>)
        ensures
            r == old(self)@.writer_check(caller),
            final(self)@ == old(self)@,
            final(self).effects@ == old(self).effects@.push(
                RegistryEffect::RequireAuth { address: caller },
            ),
    {
        self.effects.push(RegistryEffect::RequireAuth { address: caller });
        match self.settings {
            None => Err(RegistryError::NotInitialized),
            Some(settings) => if caller == settings.admin || caller == settings.pool_contract {
                Ok(())
            } else {
                Err(RegistryError::Unauthorized)
            },
        }
    }

    /// Asks for the caller's authorization and checks that the caller is the admin.
    fn require_admin(&mut self, caller: Address) -> (r: Result<RegistrySettings, RegistryError>)
        ensures
            match r {
                Ok(settings) => old(self)@.admin_check(caller) is Ok && old(self)@.settings == Some(
                    settings,
                ),
                Err(e) => old(self)@.admin_check(caller) == Err::<(), RegistryError>(e),
            },
            final(self)@ == old(self)@,
            final(self).effects@ == old(self).effects@.push(
                RegistryEffect::RequireAuth { address: caller },
            ),
    {
        self.effects.push(RegistryEffect::RequireAuth { address: caller });
        match self.settings {
            None => Err(RegistryError::NotInitialized),
            Some(settings) => if caller == settings.admin {
                Ok(settings)
            } else {
                Err(RegistryError::Unauthorized)
            },
        }
    }

    /// Publishes an event.
    fn publish(&mut self, event: RegistryEvent)
        ensures
            final(self)@ == old(self)@,
            final(self).effects@ == old(self).effects@.push(RegistryEffect::Publish { event }),
    {
        self.effects.push(RegistryEffect::Publish { event });
    }
}

} // verus!
