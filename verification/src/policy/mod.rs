//! The policy registry: an index of the policies that the pool has sold, by holder.

pub mod contract;
pub mod laws;
pub mod model;
pub mod terms;
pub mod types;

pub use self::contract::RefractPolicyRegistry;
pub use self::types::{
    CoverageType, PolicyRecord, PolicyRegistration, RegistryEffect, RegistryError, RegistryEvent,
    RegistrySettings,
};
