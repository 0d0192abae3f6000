//! What the registry stores, takes and hands back.

use vstd::prelude::*;

use crate::address::Address;
use crate::policy::model;

verus! {

/// Coverage categories, in the order of the pool's.
#[derive(Copy, Clone, Debug, PartialEq, Eq, Structural)]
pub enum CoverageType {
    StablecoinDepeg,
    MarketCrash,
    LiquidationShield,
    SmartContractRisk,
    FlightDelay,
}

impl CoverageType {
    /// The number that stands for the category on the wire.
    pub fn code(self) -> (r: u32)
        ensures
            r == model::coverage_code(self),
    {
        match self {
            CoverageType::StablecoinDepeg => 0,
            CoverageType::MarketCrash => 1,
            CoverageType::LiquidationShield => 2,
            CoverageType::SmartContractRisk => 3,
            CoverageType::FlightDelay => 4,
        }
    }
}

/// Why the registry refuses a call.
#[derive(Copy, Clone, Debug, Eq, PartialEq, PartialOrd, Ord, Structural)]
pub enum RegistryError {
    AlreadyInitialized,
    NotInitialized,
    Unauthorized,
    PolicyNotFound,
    PolicyAlreadyExists,
}

/// A policy to index. The pool has created it and given it its id.
#[derive(Copy, Clone, Debug)]
pub struct PolicyRegistration {
    pub policy_id: u64,
    pub holder: Address,
    pub coverage_type: CoverageType,
    /// In USDC, scaled by 1e7.
    pub coverage_amount: i128,
    /// In USDC, scaled by 1e7.
    pub premium: i128,
    /// Unix time.
    pub expires_at: u64,
}

/// A policy in the index.
#[derive(Copy, Clone, Debug, PartialEq, Eq, Structural)]
pub struct PolicyRecord {
    pub policy_id: u64,
    pub holder: Address,
    pub coverage_type: CoverageType,
    /// In USDC, scaled by 1e7.
    pub coverage_amount: i128,
    /// In USDC, scaled by 1e7.
    pub premium: i128,
    /// Unix time.
    pub expires_at: u64,
    pub is_active: bool,
    pub created_at: u64,
}

/// Who may write to the registry.
#[derive(Copy, Clone, Debug)]
pub struct RegistrySettings {
    pub admin: Address,
    pub pool_contract: Address,
}

/// What the registry announces.
#[derive(Copy, Clone, Debug)]
pub enum RegistryEvent {
    Registered { policy_id: u64, coverage_code: u32, coverage_amount: i128 },
    Deactivated { policy_id: u64 },
    PoolContractSet { pool_contract: Address },
    AdminSet { new_admin: Address },
}

/// What the host has to do for the registry, in the order in which the registry asks for it.
#[derive(Copy, Clone, Debug)]
pub enum RegistryEffect {
    /// Fail the call unless `address` has authorized it.
    RequireAuth { address: Address },
    /// Publish an event.
    Publish { event: RegistryEvent },
}

} // verus!
