//! The oracle as mathematics: its state, and what each call makes of it.

use vstd::prelude::*;

use crate::address::Address;
use crate::lists;
use crate::oracle::types::{OracleEffect, OracleError, OracleEvent, OracleReading};

verus! {

/// The greatest age of a usable reading, in seconds (30 minutes).
pub const MAX_STALENESS_SECS: u64 = 1_800;

// Prices and percentages are scaled by 1e7.

/// A stablecoin below this price, $0.95, counts as depegged.
pub const DEPEG_PRICE_THRESHOLD: i128 = 9_500_000;

/// A market whose return over a day is below this, -30%, has crashed.
pub const CRASH_RETURN_THRESHOLD: i128 = -3_000_000;

/// A position whose ratio is below this, 85%, is being liquidated.
pub const LIQUIDATION_RATIO_THRESHOLD: i128 = 8_500_000;

/// A protocol that holds less than this, $500,000, has been drained.
pub const TVL_THRESHOLD: i128 = 5_000_000_000_000;

/// A flight that is later than this, in minutes, counts as delayed.
pub const FLIGHT_DELAY_THRESHOLD: i128 = 120;

/// The state of the oracle.
#[verifier::ext_equal]
pub struct OracleState {
    /// `None` until the oracle is initialized.
    pub admin: Option<Address>,
    /// Who may submit besides the admin, in the order in which they were admitted.
    pub relayers: Seq<Address>,
    /// The latest reading of each feed, by the feed's name.
    pub readings: Map<Seq<char>, OracleReading>,
}

/// The state of an oracle that nobody has initialized.
pub open spec fn new_oracle() -> OracleState {
    OracleState { admin: None, relayers: Seq::empty(), readings: Map::empty() }
}

/// Whether a reading dated `timestamp` is too old to use.
pub open spec fn stale(timestamp: u64, now: u64) -> bool {
    now - timestamp > MAX_STALENESS_SECS
}

/// Whether a reading of `value` meets the trigger of a coverage category, given by its number.
pub open spec fn trigger_met(coverage_type: u32, value: int) -> Result<bool, OracleError> {
    if coverage_type == 0 {
        Ok(value < DEPEG_PRICE_THRESHOLD)
    } else if coverage_type == 1 {
        Ok(value < CRASH_RETURN_THRESHOLD)
    } else if coverage_type == 2 {
        Ok(value < LIQUIDATION_RATIO_THRESHOLD)
    } else if coverage_type == 3 {
        Ok(value < TVL_THRESHOLD)
    } else if coverage_type == 4 {
        Ok(value > FLIGHT_DELAY_THRESHOLD)
    } else {
        Err(OracleError::UnknownCoverageType)
    }
}

/// A time as the monitoring map shows it: the same 64 bits, read as a signed number.
pub open spec fn signed_time(t: u64) -> int {
    if t < 0x8000_0000_0000_0000 {
        t as int
    } else {
        t - 0x1_0000_0000_0000_0000
    }
}

impl OracleState {
    /// The state that `initialize` leaves.
    pub open spec fn initialized(self, admin: Address) -> OracleState {
        OracleState { admin: Some(admin), relayers: Seq::empty(), ..self }
    }

    /// What an admin-only call meets, once the admin has authorized it.
    pub open spec fn admin_check(self) -> Result<(), OracleError> {
        match self.admin {
            None => Err(OracleError::NotInitialized),
            Some(_) => Ok(()),
        }
    }

    /// The authorization that an admin-only call asks for, followed by `rest`.
    pub open spec fn admin_effects(self, rest: Seq<OracleEffect>) -> Seq<OracleEffect> {
        seq![OracleEffect::RequireAuth { address: self.admin->0 }] + rest
    }

    /// The state after `relayer` was admitted.
    pub open spec fn with_relayer(self, relayer: Address) -> OracleState {
        if self.relayers.contains(relayer) {
            self
        } else {
            OracleState { relayers: self.relayers.push(relayer), ..self }
        }
    }

    /// Whether one more relayer can be recorded.
    pub open spec fn add_fits(self, relayer: Address) -> bool {
        self.admin is Some && !self.relayers.contains(relayer) ==> self.relayers.len() < u32::MAX
    }

    /// What admitting `relayer` asks of the host. Only a new relayer is announced.
    pub open spec fn add_effects(self, relayer: Address) -> Seq<OracleEffect> {
        if self.relayers.contains(relayer) {
            self.admin_effects(seq![])
        } else {
            self.admin_effects(
                seq![OracleEffect::Publish { event: OracleEvent::RelayerAdded { relayer } }],
            )
        }
    }

    /// The state after `relayer` was dismissed.
    pub open spec fn without_relayer(self, relayer: Address) -> OracleState {
        OracleState { relayers: lists::excluding(self.relayers, relayer), ..self }
    }

    /// What dismissing `relayer` asks of the host. Only a relayer that was there is announced.
    pub open spec fn remove_effects(self, relayer: Address) -> Seq<OracleEffect> {
        if self.relayers.contains(relayer) {
            self.admin_effects(
                seq![OracleEffect::Publish { event: OracleEvent::RelayerRemoved { relayer } }],
            )
        } else {
            self.admin_effects(seq![])
        }
    }

    /// The state with another admin.
    pub open spec fn with_admin(self, new_admin: Address) -> OracleState {
        OracleState { admin: Some(new_admin), ..self }
    }

    /// What a submission by `caller` meets.
    pub open spec fn relayer_check(self, caller: Address) -> Result<(), OracleError> {
        match self.admin {
            None => Err(OracleError::NotInitialized),
            Some(admin) => if self.relayers.contains(caller) || caller == admin {
                Ok(())
            } else {
                Err(OracleError::Unauthorized)
            },
        }
    }

    /// Whether the feed holds a reading that is younger than `timestamp`.
    pub open spec fn holds_younger(self, feed: Seq<char>, timestamp: u64) -> bool {
        self.readings.contains_key(feed) && timestamp < self.readings[feed].timestamp
    }

    /// Whether a submission is accepted, or why not.
    pub open spec fn submission(
        self,
        caller: Address,
        feed: Seq<char>,
        timestamp: u64,
        now: u64,
    ) -> Result<(), OracleError> {
        match self.relayer_check(caller) {
            Err(e) => Err(e),
            Ok(_) => if stale(timestamp, now) {
                Err(OracleError::StaleReading)
            } else if timestamp > now {
                Err(OracleError::FutureTimestamp)
            } else if self.holds_younger(feed, timestamp) {
                Err(OracleError::StaleSubmission)
            } else {
                Ok(())
            },
        }
    }

    /// The state after a submission.
    pub open spec fn submitted(self, feed: Seq<char>, reading: OracleReading) -> OracleState {
        OracleState { readings: self.readings.insert(feed, reading), ..self }
    }

    /// The latest reading of a feed, or why there is none to use.
    pub open spec fn reading(self, feed: Seq<char>, now: u64) -> Result<
        OracleReading,
        OracleError,
    > {
        if !self.readings.contains_key(feed) {
            Err(OracleError::FeedNotFound)
        } else if stale(self.readings[feed].timestamp, now) {
            Err(OracleError::StaleReading)
        } else {
            Ok(self.readings[feed])
        }
    }

    /// Whether the latest reading of a feed meets a trigger.
    pub open spec fn triggered(self, coverage_type: u32, feed: Seq<char>, now: u64) -> Result<
        bool,
        OracleError,
    > {
        match self.reading(feed, now) {
            Err(e) => Err(e),
            Ok(reading) => trigger_met(coverage_type, reading.value as int),
        }
    }

    /// The times of those of the named feeds that hold a reading, by name.
    pub open spec fn feed_times(self, feeds: Seq<Seq<char>>) -> Map<Seq<char>, i64> {
        Map::new(
            |feed: Seq<char>| feeds.contains(feed) && self.readings.contains_key(feed),
            |feed: Seq<char>| signed_time(self.readings[feed].timestamp) as i64,
        )
    }
}

} // verus!
