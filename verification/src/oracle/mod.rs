//! The oracle: readings that admitted relayers submit, and the triggers they meet.

pub mod contract;
pub mod laws;
pub mod model;
pub mod terms;
pub mod types;

pub use self::contract::RefractOracle;
pub use self::types::{OracleEffect, OracleError, OracleEvent, OracleReading};
