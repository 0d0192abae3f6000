//! The risk pool: it holds capital, prices and sells policies, and settles claims.

pub mod contract;
pub mod history;
pub mod laws;
pub mod model;
pub mod pricing;
pub mod terms;
pub mod types;

pub use contract::RefractPool;
pub use types::{
    CoverageType, OracleData, Policy, PolicyParams, PolicyRegistration, PolicyStatus, PoolConfig,
    PoolEffect, PoolError, PoolEvent, PoolStats, RegistryCoverageType, Settings,
};
