//! What the oracle stores, takes and hands back.

use vstd::prelude::*;

use crate::address::Address;
use crate::ident::Ident;

verus! {

/// Why the oracle refuses a call.
#[derive(Copy, Clone, Debug, Eq, PartialEq, PartialOrd, Ord, Structural)]
pub enum OracleError {
    AlreadyInitialized,
    NotInitialized,
    Unauthorized,
    FeedNotFound,
    /// The reading is older than 30 minutes.
    StaleReading,
    UnknownCoverageType,
    /// The reading is dated after the ledger's time.
    FutureTimestamp,
    /// The feed holds a younger reading already.
    StaleSubmission,
}

/// A reading of a feed.
#[derive(Debug, PartialEq, Eq)]
pub struct OracleReading {
    /// A price in USD or a percentage, scaled by 1e7, or a duration in minutes.
    pub value: i128,
    pub timestamp: u64,
    pub source: Ident,
}

impl Clone for OracleReading {
    fn clone(&self) -> (copy: Self)
        ensures
            copy == *self,
    {
        OracleReading {
            value: self.value,
            timestamp: self.timestamp,
            source: self.source.clone(),
        }
    }
}

/// What the oracle announces.
#[derive(Debug)]
pub enum OracleEvent {
    RelayerAdded { relayer: Address },
    RelayerRemoved { relayer: Address },
    Updated { feed_id: Ident, value: i128, timestamp: u64 },
    AdminSet { new_admin: Address },
}

/// What the host has to do for the oracle, in the order in which the oracle asks for it.
#[derive(Debug)]
pub enum OracleEffect {
    /// Fail the call unless `address` has authorized it.
    RequireAuth { address: Address },
    /// Publish an event.
    Publish { event: OracleEvent },
}

} // verus!
