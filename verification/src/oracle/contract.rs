//! The oracle's entry points.

use vstd::prelude::*;

use crate::address::Address;
use crate::host;
use crate::host::{new_time_map, set_time};
use crate::ident::Ident;
use crate::lists;
use crate::lists::AddressList;
use crate::oracle::model;
use crate::oracle::model::{
    CRASH_RETURN_THRESHOLD, DEPEG_PRICE_THRESHOLD, FLIGHT_DELAY_THRESHOLD,
    LIQUIDATION_RATIO_THRESHOLD, MAX_STALENESS_SECS, TVL_THRESHOLD,
};
use crate::oracle::types::{OracleEffect, OracleError, OracleEvent, OracleReading};
use crate::seqs;
use crate::table::Table;

verus! {

/// The oracle: what it keeps in storage, and what it has asked of the host.
pub struct RefractOracle {
    pub admin: Option<Address>,
    pub relayers: AddressList,
    pub readings: Table<Ident, OracleReading>,
    /// What the host has to do, in order.
    pub effects: Vec<OracleEffect>,
}

impl View for RefractOracle {
    type V = model::OracleState;

    open spec fn view(&self) -> model::OracleState {
        model::OracleState {
            admin: self.admin,
            relayers: self.relayers@,
            readings: self.readings@,
        }
    }
}

impl RefractOracle {
    /// An oracle that nobody has initialized.
    pub fn new(env: &soroban_sdk::Env) -> (oracle: RefractOracle)
        ensures
            oracle@ == model::new_oracle(),
            oracle.effects@ == Seq::<OracleEffect>::empty(),
    {
        RefractOracle {
            admin: None,
            relayers: AddressList::new(env),
            readings: Table::new(),
            effects: Vec::new(),
        }
    }

    /// Gives the oracle its admin, once. It starts without relayers.
    pub fn initialize(&mut self, env: &soroban_sdk::Env, admin: Address) -> (r: Result<
        (),
        OracleError,
    >)
        ensures
            r == (if old(self)@.admin is Some {
                Err(OracleError::AlreadyInitialized)
            } else {
                Ok::<(), OracleError>(())
            }),
            r is Ok ==> final(self)@ == old(self)@.initialized(admin),
            r is Err ==> final(self)@ == old(self)@,
            final(self).effects@ == old(self).effects@,
    {
        if self.admin.is_some() {
            return Err(OracleError::AlreadyInitialized);
        }
        self.admin = Some(admin);
        self.relayers = AddressList::new(env);
        Ok(())
    }

    // ── Administration ─────────────────────────────────────────────────────────

    /// Whether `add_relayer` can be recorded.
    pub fn add_relayer_fits(&self, relayer: Address) -> (r: bool)
        ensures
            r == self@.add_fits(relayer),
    {
        self.admin.is_none() || self.relayers.contains(&relayer) || self.relayers.len() < u32::MAX
    }

    /// Admits a relayer. Admitting one again changes nothing and announces nothing. Admin only.
    pub fn add_relayer(&mut self, relayer: Address) -> (r: Result<(), OracleError>)
        requires
            old(self)@.add_fits(relayer),
        ensures
            r == old(self)@.admin_check(),
            r is Ok ==> final(self)@ == old(self)@.with_relayer(relayer) && final(self).effects@
                == old(self).effects@ + old(self)@.add_effects(relayer),
            r is Err ==> final(self)@ == old(self)@ && final(self).effects@ == old(self).effects@,
    {
        if let Err(e) = self.require_admin() {
            return Err(e);
        }
        if !self.relayers.contains(&relayer) {
            self.relayers = self.relayers.clone().push_back(relayer);
            self.effects.push(
                OracleEffect::Publish { event: OracleEvent::RelayerAdded { relayer } },
            );
        }
        assert(self.effects@ =~= old(self).effects@ + old(self)@.add_effects(relayer));
        Ok(())
    }

    /// Dismisses a relayer. Dismissing a stranger changes nothing and announces nothing. Admin
    /// only.
    pub fn remove_relayer(&mut self, env: &soroban_sdk::Env, relayer: Address) -> (r: Result<
        (),
        OracleError,
    >)
        ensures
            r == old(self)@.admin_check(),
            r is Ok ==> final(self)@ == old(self)@.without_relayer(relayer) && final(self).effects@
                == old(self).effects@ + old(self)@.remove_effects(relayer),
            r is Err ==> final(self)@ == old(self)@ && final(self).effects@ == old(self).effects@,
    {
        if let Err(e) = self.require_admin() {
            return Err(e);
        }
        let filtered = self.relayers.without(env, &relayer);
        let removed = filtered.len() != self.relayers.len();
        proof {
            lists::lemma_excluding(self.relayers@, relayer);
        }
        self.relayers = filtered;
        if removed {
            self.effects.push(
                OracleEffect::Publish { event: OracleEvent::RelayerRemoved { relayer } },
            );
        }
        assert(self.effects@ =~= old(self).effects@ + old(self)@.remove_effects(relayer));
        Ok(())
    }

    /// Hands the admin role over. Admin only.
    pub fn set_admin(&mut self, new_admin: Address) -> (r: Result<(), OracleError>)
        ensures
            r == old(self)@.admin_check(),
            r is Ok ==> final(self)@ == old(self)@.with_admin(new_admin) && final(self).effects@
                == old(self).effects@ + old(self)@.admin_effects(
                seq![OracleEffect::Publish { event: OracleEvent::AdminSet { new_admin } }],
            ),
            r is Err ==> final(self)@ == old(self)@ && final(self).effects@ == old(self).effects@,
    {
        if let Err(e) = self.require_admin() {
            return Err(e);
        }
        self.admin = Some(new_admin);
        self.effects.push(OracleEffect::Publish { event: OracleEvent::AdminSet { new_admin } });
        assert(self.effects@ =~= old(self).effects@ + old(self)@.admin_effects(
            seq![OracleEffect::Publish { event: OracleEvent::AdminSet { new_admin } }],
        ));
        Ok(())
    }

    // ── Submission ─────────────────────────────────────────────────────────────

    /// Records a reading of a feed, such as `USDC_PRICE` or `FLIGHT_DL420`. It must be dated
    /// within the last 30 minutes and not before the reading that the feed holds.
    pub fn submit(
        &mut self,
        relayer: Address,
        feed_id: Ident,
        value: i128,
        timestamp: u64,
        source: Ident,
        now: u64,
    ) -> (r: Result<(), OracleError>)
        ensures
            r == old(self)@.submission(relayer, feed_id@, timestamp, now),
            match r {
                Ok(_) => {
                    &&& final(self)@ == old(self)@.submitted(
                        feed_id@,
                        (OracleReading { value, timestamp, source }),
                    )
                    &&& final(self).effects@ == old(self).effects@ + seq![
                        OracleEffect::RequireAuth { address: relayer },
                        OracleEffect::Publish {
                            event: OracleEvent::Updated { feed_id, value, timestamp },
                        },
                    ]
                },
                Err(_) => {
                    &&& final(self)@ == old(self)@
                    &&& final(self).effects@ == old(self).effects@.push(
                        OracleEffect::RequireAuth { address: relayer },
                    )
                },
            },
    {
        self.effects.push(OracleEffect::RequireAuth { address: relayer });
        if let Err(e) = self.require_relayer(&relayer) {
            return Err(e);
        }
        if now.saturating_sub(timestamp) > MAX_STALENESS_SECS {
            return Err(OracleError::StaleReading);
        }
        if timestamp > now {
            return Err(OracleError::FutureTimestamp);
        }
        if let Some(stored) = self.readings.get(&feed_id) {
            if timestamp < stored.timestamp {
                return Err(OracleError::StaleSubmission);
            }
        }
        self.readings.set(feed_id.clone(), OracleReading { value, timestamp, source });
        self.effects.push(
            OracleEffect::Publish { event: OracleEvent::Updated { feed_id, value, timestamp } },
        );
        Ok(())
    }

    // ── Views ──────────────────────────────────────────────────────────────────

    /// The latest reading of a feed, unless it is older than 30 minutes.
    pub fn get_reading(&self, feed_id: &Ident, now: u64) -> (r: Result<OracleReading, OracleError>)
        ensures
            r == self@.reading(feed_id@, now),
    {
        match self.readings.get(feed_id) {
            None => Err(OracleError::FeedNotFound),
            Some(reading) => {
                if now.saturating_sub(reading.timestamp) > MAX_STALENESS_SECS {
                    return Err(OracleError::StaleReading);
                }
                Ok(reading.clone())
            },
        }
    }

    /// Whether the latest reading of a feed meets the trigger of a coverage category:
    /// 0 = depeg, 1 = crash, 2 = liquidation, 3 = smart contract, 4 = flight.
    pub fn is_triggered(&self, coverage_type: u32, feed_id: &Ident, now: u64) -> (r: Result<
        bool,
        OracleError,
    >)
        ensures
            r == self@.triggered(coverage_type, feed_id@, now),
    {
        let reading = match self.get_reading(feed_id, now) {
            Ok(reading) => reading,
            Err(e) => return Err(e),
        };
        match coverage_type {
            0 => Ok(reading.value < DEPEG_PRICE_THRESHOLD),
            1 => Ok(reading.value < CRASH_RETURN_THRESHOLD),
            2 => Ok(reading.value < LIQUIDATION_RATIO_THRESHOLD),
            3 => Ok(reading.value < TVL_THRESHOLD),
            4 => Ok(reading.value > FLIGHT_DELAY_THRESHOLD),
            _ => Err(OracleError::UnknownCoverageType),
        }
    }

    /// The times of those of the named feeds that hold a reading, stale or not.
    pub fn list_feeds(&self, env: &soroban_sdk::Env, feed_ids: &Vec<Ident>) -> (times:
        soroban_sdk::Map<soroban_sdk::Symbol, i64>)
        requires
            feed_ids@.len() <= u32::MAX,
        ensures
            host::time_map(times) == self@.feed_times(feed_ids@.map_values(|id: Ident| id@)),
    {
        let ghost feeds = feed_ids@.map_values(|id: Ident| id@);
        let mut out = new_time_map(env);
        let mut i: usize = 0;
        assert(host::time_map(out) =~= self@.feed_times(feeds.take(0)));
        while i < feed_ids.len()
            invariant
                i <= feed_ids@.len(),
                feed_ids@.len() <= u32::MAX,
                feeds == feed_ids@.map_values(|id: Ident| id@),
                host::time_map(out) == self@.feed_times(feeds.take(i as int)),
                host::time_map(out).dom().finite(),
                host::time_map(out).dom().len() <= i,
            decreases feed_ids@.len() - i,
        {
            let feed_id = &feed_ids[i];
            proof {
                assert(feeds.take(i + 1) =~= feeds.take(i as int).push(feed_id@));
                seqs::lemma_push_holds(feeds.take(i as int), feed_id@);
            }
            if let Some(reading) = self.readings.get(feed_id) {
                let timestamp: u64 = reading.timestamp;
                let shown: i64 = #[verifier::truncate] (timestamp as i64);
                proof {
                    lemma_signed_time(timestamp);
                }
                set_time(&mut out, feed_id.as_str(), shown);
            }
            assert(host::time_map(out) =~= self@.feed_times(feeds.take(i + 1)));
            i += 1;
        }
        assert(feeds.take(i as int) =~= feeds);
        out
    }

    /// The relayers, in the order in which they were admitted.
    pub fn list_relayers(&self) -> (relayers: Vec<Address>)
        ensures
            relayers@ == self@.relayers,
    {
        self.relayers.to_vec()
    }

    // ── Guards ─────────────────────────────────────────────────────────────────

    /// Asks for the admin's authorization.
    fn require_admin(&mut self) -> (r: Result<(), OracleError>)
        ensures
            r == old(self)@.admin_check(),
            final(self)@ == old(self)@,
            final(self).effects@ == (match old(self)@.admin {
                Some(admin) => old(self).effects@.push(
                    OracleEffect::RequireAuth { address: admin },
                ),
                None => old(self).effects@,
            }),
    {
        match self.admin {
            None => Err(OracleError::NotInitialized),
            Some(admin) => {
                self.effects.push(OracleEffect::RequireAuth { address: admin });
                Ok(())
            },
        }
    }

    /// Checks that the caller is a relayer or the admin.
    fn require_relayer(&self, caller: &Address) -> (r: Result<(), OracleError>)
        ensures
            r == self@.relayer_check(*caller),
    {
        let is_relayer = self.relayers.contains(caller);
        match self.admin {
            None => Err(OracleError::NotInitialized),
            Some(admin) => if !is_relayer && *caller != admin {
                Err(OracleError::Unauthorized)
            } else {
                Ok(())
            },
        }
    }
}

/// What casting a time to a signed number gives.
proof fn lemma_signed_time(t: u64)
    ensures
        t as i64 == model::signed_time(t),
{
    assert(t < 0x8000_0000_0000_0000 ==> t as i64 == t) by (bit_vector);
    assert(t >= 0x8000_0000_0000_0000 ==> t as i64 == t - 0x1_0000_0000_0000_0000) by (bit_vector);
}

} // verus!
