//! The registry as mathematics: its state, and what each call makes of it.

use vstd::prelude::*;

use crate::address::Address;
use crate::math;
use crate::policy::types::{
    CoverageType, PolicyRecord, PolicyRegistration, RegistryEffect, RegistryError, RegistryEvent,
    RegistrySettings,
};

verus! {

/// The state of the registry.
#[verifier::ext_equal]
pub struct RegistryState {
    /// `None` until the registry is initialized.
    pub settings: Option<RegistrySettings>,
    /// How many policies were ever registered.
    pub total_policies: int,
    /// How many of them are active.
    pub active_policies: int,
    /// The premiums of all policies ever registered.
    pub total_premium: int,
    pub policies: Map<u64, PolicyRecord>,
    pub holder_policies: Map<Address, Seq<u64>>,
}

/// The number that stands for a coverage category on the wire.
pub open spec fn coverage_code(t: CoverageType) -> u32 {
    match t {
        CoverageType::StablecoinDepeg => 0,
        CoverageType::MarketCrash => 1,
        CoverageType::LiquidationShield => 2,
        CoverageType::SmartContractRisk => 3,
        CoverageType::FlightDelay => 4,
    }
}

/// The state of a registry that nobody has initialized.
pub open spec fn new_registry() -> RegistryState {
    RegistryState {
        settings: None,
        total_policies: 0,
        active_policies: 0,
        total_premium: 0,
        policies: Map::empty(),
        holder_policies: Map::empty(),
    }
}

/// The record that a registration at `now` creates.
pub open spec fn record_of(reg: PolicyRegistration, now: u64) -> PolicyRecord {
    PolicyRecord {
        policy_id: reg.policy_id,
        holder: reg.holder,
        coverage_type: reg.coverage_type,
        coverage_amount: reg.coverage_amount,
        premium: reg.premium,
        expires_at: reg.expires_at,
        is_active: true,
        created_at: now,
    }
}

impl RegistryState {
    /// The ids of all policies of `holder`, oldest first.
    pub open spec fn policies_of(self, holder: Address) -> Seq<u64> {
        if self.holder_policies.contains_key(holder) {
            self.holder_policies[holder]
        } else {
            Seq::empty()
        }
    }

    /// Whether `id` names an active policy.
    pub open spec fn is_active(self, id: u64) -> bool {
        self.policies.contains_key(id) && self.policies[id].is_active
    }

    /// The ids of the active policies of `holder`, oldest first.
    pub open spec fn active_policies_of(self, holder: Address) -> Seq<u64> {
        self.policies_of(holder).filter(|id: u64| self.is_active(id))
    }

    /// The state that `initialize` leaves.
    pub open spec fn initialized(self, admin: Address, pool_contract: Address) -> RegistryState {
        RegistryState {
            settings: Some(RegistrySettings { admin, pool_contract }),
            total_policies: 0,
            active_policies: 0,
            total_premium: 0,
            ..self
        }
    }

    /// What a call that only the pool or the admin may make meets.
    pub open spec fn writer_check(self, caller: Address) -> Result<(), RegistryError> {
        match self.settings {
            None => Err(RegistryError::NotInitialized),
            Some(settings) => if caller == settings.admin || caller == settings.pool_contract {
                Ok(())
            } else {
                Err(RegistryError::Unauthorized)
            },
        }
    }

    /// What an admin-only call meets.
    pub open spec fn admin_check(self, caller: Address) -> Result<(), RegistryError> {
        match self.settings {
            None => Err(RegistryError::NotInitialized),
            Some(settings) => if caller == settings.admin {
                Ok(())
            } else {
                Err(RegistryError::Unauthorized)
            },
        }
    }

    /// The id that a registration answers with, or why it is refused.
    pub open spec fn registration(self, caller: Address, reg: PolicyRegistration) -> Result<
        u64,
        RegistryError,
    > {
        match self.writer_check(caller) {
            Err(e) => Err(e),
            Ok(_) => if self.policies.contains_key(reg.policy_id) {
                Err(RegistryError::PolicyAlreadyExists)
            } else {
                Ok(reg.policy_id)
            },
        }
    }

    /// Whether a registration can be recorded.
    pub open spec fn register_fits(self, caller: Address, reg: PolicyRegistration) -> bool {
        self.registration(caller, reg) is Ok ==> {
            &&& self.policies_of(reg.holder).len() < u32::MAX
            &&& self.total_policies < u64::MAX
            &&& self.active_policies < u64::MAX
            &&& math::fits(self.total_premium + reg.premium)
        }
    }

    /// The state after a registration.
    pub open spec fn registered(self, reg: PolicyRegistration, now: u64) -> RegistryState {
        RegistryState {
            total_policies: self.total_policies + 1,
            active_policies: self.active_policies + 1,
            total_premium: self.total_premium + reg.premium,
            policies: self.policies.insert(reg.policy_id, record_of(reg, now)),
            holder_policies: self.holder_policies.insert(
                reg.holder,
                self.policies_of(reg.holder).push(reg.policy_id),
            ),
            ..self
        }
    }

    /// What a registration asks of the host.
    pub open spec fn register_effects(self, caller: Address, reg: PolicyRegistration) -> Seq<
        RegistryEffect,
    > {
        seq![
            RegistryEffect::RequireAuth { address: caller },
            RegistryEffect::Publish {
                event: RegistryEvent::Registered {
                    policy_id: reg.policy_id,
                    coverage_code: coverage_code(reg.coverage_type),
                    coverage_amount: reg.coverage_amount,
                },
            },
        ]
    }

    /// What a deactivation answers.
    pub open spec fn deactivation(self, caller: Address, policy_id: u64) -> Result<
        (),
        RegistryError,
    > {
        match self.writer_check(caller) {
            Err(e) => Err(e),
            Ok(_) => if self.policies.contains_key(policy_id) {
                Ok(())
            } else {
                Err(RegistryError::PolicyNotFound)
            },
        }
    }

    /// Whether a deactivation can be recorded.
    pub open spec fn deactivate_fits(self, caller: Address, policy_id: u64) -> bool {
        self.deactivation(caller, policy_id) is Ok && self.is_active(policy_id)
            ==> self.active_policies > 0
    }

    /// The state after a deactivation. A policy that is inactive already stays as it is.
    pub open spec fn deactivated(self, policy_id: u64) -> RegistryState {
        if self.is_active(policy_id) {
            RegistryState {
                active_policies: self.active_policies - 1,
                policies: self.policies.insert(
                    policy_id,
                    PolicyRecord { is_active: false, ..self.policies[policy_id] },
                ),
                ..self
            }
        } else {
            self
        }
    }

    /// What a deactivation asks of the host. Only a policy that was active is announced.
    pub open spec fn deactivate_effects(self, caller: Address, policy_id: u64) -> Seq<
        RegistryEffect,
    > {
        let auth = RegistryEffect::RequireAuth { address: caller };
        if self.is_active(policy_id) {
            seq![auth, RegistryEffect::Publish { event: RegistryEvent::Deactivated { policy_id } }]
        } else {
            seq![auth]
        }
    }

    /// The state with another pool.
    pub open spec fn with_pool(self, pool_contract: Address) -> RegistryState {
        RegistryState {
            settings: Some(RegistrySettings { pool_contract, ..self.settings->0 }),
            ..self
        }
    }

    /// The state with another admin.
    pub open spec fn with_admin(self, admin: Address) -> RegistryState {
        RegistryState { settings: Some(RegistrySettings { admin, ..self.settings->0 }), ..self }
    }

    /// The registry's figures, by name.
    pub open spec fn stats(self) -> Map<Seq<char>, i128> {
        map![
            "total_policies"@ => self.total_policies as i128,
            "active_policies"@ => self.active_policies as i128,
            "total_premium"@ => self.total_premium as i128,
        ]
    }
}

} // verus!
