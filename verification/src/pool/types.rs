//! What the pool stores, takes and hands back.

use vstd::prelude::*;

use crate::address::Address;
use crate::table::Key;

verus! {

/// Coverage categories.
#[derive(Copy, Clone, Debug, PartialEq, Eq, Structural)]
pub enum CoverageType {
    /// A stablecoin loses its peg, for example by more than 5%.
    StablecoinDepeg,
    /// A market drops, for example by more than 30% in a day.
    MarketCrash,
    /// The insured position is liquidated.
    LiquidationShield,
    /// The insured protocol is exploited.
    SmartContractRisk,
    /// A flight is late.
    FlightDelay,
}

impl View for CoverageType {
    type V = CoverageType;

    open spec fn view(&self) -> CoverageType {
        *self
    }
}

impl Key for CoverageType {
    fn same(&self, other: &Self) -> (r: bool) {
        *self == *other
    }
}

/// Coverage categories as the policy registry names them.
#[derive(Copy, Clone, Debug, PartialEq, Eq, Structural)]
pub enum RegistryCoverageType {
    StablecoinDepeg,
    MarketCrash,
    LiquidationShield,
    SmartContractRisk,
    FlightDelay,
}

/// The terms of a new policy, as the pool reports them to the policy registry.
#[derive(Copy, Clone, Debug)]
pub struct PolicyRegistration {
    pub policy_id: u64,
    pub holder: Address,
    pub coverage_type: RegistryCoverageType,
    pub coverage_amount: i128,
    pub premium: i128,
    pub expires_at: u64,
}

/// Why the pool refuses a call.
#[derive(Copy, Clone, Debug, Eq, PartialEq, PartialOrd, Ord, Structural)]
pub enum PoolError {
    AlreadyInitialized,
    NotInitialized,
    Unauthorized,
    InsufficientCapacity,
    PolicyNotFound,
    PolicyExpired,
    PolicyNotTriggered,
    NotPolicyholder,
    AlreadyClaimed,
    InsufficientPremium,
    ZeroAmount,
    InsufficientShares,
    /// The withdrawal would push utilization above its cap.
    CapitalLocked,
    PolicyNotYetExpired,
    /// `lockup_days` have not passed since the provider's last deposit.
    LockupActive,
}

/// The terms that a buyer asks for.
#[derive(Copy, Clone, Debug)]
pub struct PolicyParams {
    /// In USDC, scaled by 1e7.
    pub coverage_amount: i128,
    pub coverage_type: CoverageType,
    pub duration_days: u32,
    /// For example 500 for a depeg of 5%, 3000 for a crash of 30%.
    pub trigger_threshold: i128,
}

/// Where a policy stands. Only an active policy can be claimed or swept.
#[derive(Copy, Clone, Debug, PartialEq, Eq, Structural)]
pub enum PolicyStatus {
    Active,
    Claimed,
    Expired,
}

/// A policy that the pool has sold.
#[derive(Copy, Clone, Debug)]
pub struct Policy {
    pub id: u64,
    pub holder: Address,
    pub coverage_type: CoverageType,
    pub coverage_amount: i128,
    pub premium_paid: i128,
    pub trigger_threshold: i128,
    pub start_time: u64,
    pub end_time: u64,
    pub status: PolicyStatus,
    pub payout_at: Option<u64>,
}

/// The pool's operational parameters.
#[derive(Copy, Clone, Debug, PartialEq, Eq, Structural)]
pub struct PoolConfig {
    /// Annual base rate, e.g. 300 = 3%.
    pub base_premium_rate_bps: u32,
    /// Largest ratio of coverage to capital, e.g. 8000 = 80%.
    pub max_utilization_bps: u32,
    /// Smallest policy.
    pub min_coverage: i128,
    /// Largest single policy.
    pub max_coverage: i128,
    /// How long a deposit stays locked, in days.
    pub lockup_days: u32,
}

/// A summary of the pool.
#[derive(Copy, Clone, Debug)]
pub struct PoolStats {
    pub total_capital: i128,
    pub total_coverage: i128,
    pub total_shares: i128,
    pub utilization_bps: u32,
    pub share_price: i128,
    pub apy_estimate_bps: u32,
    /// Coverage that the pool can still underwrite before it rejects a purchase for want of
    /// capacity.
    pub available_capacity: i128,
}

/// The latest reading for one coverage category.
#[derive(Copy, Clone, Debug)]
pub struct OracleData {
    /// Current metric: a price, a percentage change, a delay in minutes.
    pub value: i128,
    pub updated_at: u64,
}

/// What `initialize` wires the pool to, and what the admin may change later.
#[derive(Copy, Clone, Debug)]
pub struct Settings {
    pub admin: Address,
    pub usdc_token: Address,
    pub policy_registry: Address,
    pub config: PoolConfig,
}

/// What the pool announces.
#[derive(Copy, Clone, Debug)]
pub enum PoolEvent {
    Initialized { admin: Address },
    Provided { provider: Address, amount: i128, shares: i128 },
    Withdrawn { provider: Address, shares: i128, amount: i128 },
    Bought { holder: Address, id: u64, coverage_amount: i128, premium: i128, end_time: u64 },
    Claimed { holder: Address, id: u64, payout: i128, at: u64 },
    Expired { holder: Address, id: u64, at: u64 },
    RegistrySet { caller: Address, policy_registry: Address },
    AdminSet { new_admin: Address },
    ConfigSet,
    OracleUpdated { coverage_type: CoverageType, value: i128 },
}

/// What the host has to do for the pool, in the order in which the pool asks for it.
#[derive(Copy, Clone, Debug)]
pub enum PoolEffect {
    /// Fail the call unless `address` has authorized it.
    RequireAuth { address: Address },
    /// Move `amount` of `token` from `from` to the pool.
    Collect { token: Address, from: Address, amount: i128 },
    /// Move `amount` of `token` from the pool to `to`.
    Pay { token: Address, to: Address, amount: i128 },
    /// Have `registry` index a new policy. A failure there fails the call.
    RegisterPolicy { registry: Address, registration: PolicyRegistration },
    /// Have `registry` mark a policy as settled. A failure there is ignored.
    DeactivatePolicy { registry: Address, policy_id: u64 },
    /// Publish an event.
    Publish { event: PoolEvent },
}

} // verus!
