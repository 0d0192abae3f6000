//! What the oracle's calls come to in plain numbers: who is admitted, which readings are taken and
//! given, and at what levels they trigger.

use vstd::prelude::*;

use crate::address::Address;
use crate::lists;
use crate::oracle::contract::RefractOracle;
use crate::oracle::model;
use crate::oracle::model::OracleState;
use crate::oracle::types::{OracleEffect, OracleError, OracleEvent, OracleReading};

verus! {

/// A new oracle holds nothing. Initialization gives it the admin and no relayers.
pub proof fn an_oracle_starts_empty(s: OracleState, admin: Address)
    ensures
        model::new_oracle() == (OracleState {
            admin: None,
            relayers: Seq::empty(),
            readings: Map::empty(),
        }),
        s.initialized(admin) == (OracleState {
            admin: Some(admin),
            relayers: Seq::empty(),
            readings: s.readings,
        }),
{
}

// ── Submission ─────────────────────────────────────────────────────────────────

/// Whoever is a relayer or the admin is never refused a recent update: a reading that is not from
/// the future, is at most 1,800 seconds old, and is not older than the one that the feed holds is
/// always taken.
pub proof fn recent_updates_are_never_refused(
    s: OracleState,
    caller: Address,
    feed: Seq<char>,
    timestamp: u64,
    now: u64,
)
    requires
        s.admin is Some,
        s.relayers.contains(caller) || s.admin == Some(caller),
        timestamp <= now <= timestamp + 1_800,
        s.readings.contains_key(feed) ==> s.readings[feed].timestamp <= timestamp,
    ensures
        s.submission(caller, feed, timestamp, now) is Ok,
{
}

/// A submission is taken exactly where the caller is admitted, the reading is at most 1,800 seconds
/// old and not from the future, and the feed holds none that is younger. Every refusal has its own
/// reason, in this order: no oracle, a stranger, too old, from the future, and out of order.
pub proof fn every_refusal_of_a_submission_has_its_reason(
    s: OracleState,
    caller: Address,
    feed: Seq<char>,
    timestamp: u64,
    now: u64,
)
    ensures
        s.submission(caller, feed, timestamp, now) == (if s.admin is None {
            Err(OracleError::NotInitialized)
        } else if !s.relayers.contains(caller) && s.admin != Some(caller) {
            Err(OracleError::Unauthorized)
        } else if timestamp + 1_800 < now {
            Err(OracleError::StaleReading)
        } else if now < timestamp {
            Err(OracleError::FutureTimestamp)
        } else if s.readings.contains_key(feed) && timestamp < s.readings[feed].timestamp {
            Err(OracleError::StaleSubmission)
        } else {
            Ok(())
        }),
{
}

/// A submission files the reading under its feed and touches nothing else.
pub proof fn a_submission_is_filed(s: OracleState, feed: Seq<char>, reading: OracleReading)
    ensures
        s.submitted(feed, reading) == (OracleState {
            admin: s.admin,
            relayers: s.relayers,
            readings: s.readings.insert(feed, reading),
        }),
{
}

// ── Readings ───────────────────────────────────────────────────────────────────

/// A feed gives the reading that it holds for 1,800 seconds from the time of that reading.
pub proof fn a_reading_is_given_for_thirty_minutes(s: OracleState, feed: Seq<char>, now: u64)
    ensures
        s.reading(feed, now) == (if !s.readings.contains_key(feed) {
            Err(OracleError::FeedNotFound)
        } else if s.readings[feed].timestamp + 1_800 < now {
            Err(OracleError::StaleReading)
        } else {
            Ok(s.readings[feed])
        }),
{
}

/// The levels of the triggers: a price below $0.95, a return below -30%, a ratio below 85%, less
/// than $500,000 locked (all scaled by 1e7), a delay above 120 minutes. No other category is known.
pub proof fn triggers_have_these_levels(
    s: OracleState,
    coverage_type: u32,
    feed: Seq<char>,
    now: u64,
)
    requires
        s.readings.contains_key(feed),
        now <= s.readings[feed].timestamp + 1_800,
    ensures
        ({
            let value = s.readings[feed].value;
            let answer = s.triggered(coverage_type, feed, now);
            &&& coverage_type == 0 ==> answer == Ok::<bool, OracleError>(value < 9_500_000)
            &&& coverage_type == 1 ==> answer == Ok::<bool, OracleError>(value < -3_000_000)
            &&& coverage_type == 2 ==> answer == Ok::<bool, OracleError>(value < 8_500_000)
            &&& coverage_type == 3 ==> answer == Ok::<bool, OracleError>(
                value < 5_000_000_000_000,
            )
            &&& coverage_type == 4 ==> answer == Ok::<bool, OracleError>(value > 120)
            &&& coverage_type > 4 ==> answer == Err::<bool, OracleError>(
                OracleError::UnknownCoverageType,
            )
        }),
{
}

/// Without a usable reading there is no answer, whatever the category.
pub proof fn triggers_need_a_usable_reading(
    s: OracleState,
    coverage_type: u32,
    feed: Seq<char>,
    now: u64,
)
    ensures
        !s.readings.contains_key(feed) ==> s.triggered(coverage_type, feed, now) == Err::<
            bool,
            OracleError,
        >(OracleError::FeedNotFound),
        s.readings.contains_key(feed) && s.readings[feed].timestamp + 1_800 < now ==> s.triggered(
            coverage_type,
            feed,
            now,
        ) == Err::<bool, OracleError>(OracleError::StaleReading),
{
}

/// The monitoring map names exactly those of the feeds asked for that hold a reading, with the time
/// of that reading as it is; a time of 2^63 or later is shown 2^64 lower.
pub proof fn the_monitoring_map_shows_known_feeds(
    s: OracleState,
    feeds: Seq<Seq<char>>,
    feed: Seq<char>,
)
    ensures
        s.feed_times(feeds).contains_key(feed) <==> feeds.contains(feed)
            && s.readings.contains_key(feed),
        s.feed_times(feeds).contains_key(feed) ==> {
            let time = s.readings[feed].timestamp;
            let shown = s.feed_times(feeds)[feed];
            &&& time < 0x8000_0000_0000_0000 ==> shown == time
            &&& time >= 0x8000_0000_0000_0000 ==> shown == time - 0x1_0000_0000_0000_0000
        },
{
}

// ── Relayers and admin ─────────────────────────────────────────────────────────

/// A new relayer comes last, and is announced. One that is there already stays where it is, and is
/// not.
pub proof fn an_admission_adds_one_relayer(s: OracleState, relayer: Address)
    requires
        s.admin is Some,
    ensures
        ({
            let asked = OracleEffect::RequireAuth { address: s.admin->0 };
            let known = s.relayers.contains(relayer);
            &&& known ==> s.with_relayer(relayer) == s && s.add_effects(relayer) == seq![asked]
            &&& !known ==> s.with_relayer(relayer) == (OracleState {
                admin: s.admin,
                relayers: s.relayers.push(relayer),
                readings: s.readings,
            })
            &&& !known ==> s.add_effects(relayer) == seq![
                asked,
                OracleEffect::Publish { event: OracleEvent::RelayerAdded { relayer } },
            ]
        }),
        s.add_fits(relayer) <==> (!s.relayers.contains(relayer) ==> s.relayers.len()
            < 0xffff_ffff),
{
    let asked = OracleEffect::RequireAuth { address: s.admin->0 };
    let told = OracleEffect::Publish { event: OracleEvent::RelayerAdded { relayer } };
    assert(seq![asked] + seq![] =~= seq![asked]);
    assert(seq![asked] + seq![told] =~= seq![asked, told]);
}

/// A dismissal leaves every other relayer, in order, and is announced exactly where the relayer was
/// there.
pub proof fn a_dismissal_leaves_the_others_in_order(
    s: OracleState,
    relayer: Address,
    before: Seq<Address>,
    last: Address,
)
    requires
        s.admin is Some,
    ensures
        ({
            let asked = OracleEffect::RequireAuth { address: s.admin->0 };
            let rest = |list: Seq<Address>|
                (OracleState { relayers: list, ..s }).without_relayer(relayer).relayers;
            &&& s.without_relayer(relayer) == (OracleState {
                admin: s.admin,
                relayers: s.without_relayer(relayer).relayers,
                readings: s.readings,
            })
            &&& rest(Seq::empty()) == Seq::<Address>::empty()
            &&& rest(before.push(last)) == (if last == relayer {
                rest(before)
            } else {
                rest(before).push(last)
            })
            &&& s.relayers.contains(relayer) ==> s.remove_effects(relayer) == seq![
                asked,
                OracleEffect::Publish { event: OracleEvent::RelayerRemoved { relayer } },
            ]
            &&& !s.relayers.contains(relayer) ==> s.remove_effects(relayer) == seq![asked]
        }),
{
    reveal(Seq::filter);
    let asked = OracleEffect::RequireAuth { address: s.admin->0 };
    let told = OracleEffect::Publish { event: OracleEvent::RelayerRemoved { relayer } };
    assert(seq![asked] + seq![] =~= seq![asked]);
    assert(seq![asked] + seq![told] =~= seq![asked, told]);
    assert(before.push(last).drop_last() =~= before);
    assert(lists::excluding(Seq::empty(), relayer) =~= Seq::<Address>::empty());
    assert(lists::excluding(before.push(last), relayer) == (if last == relayer {
        lists::excluding(before, relayer)
    } else {
        lists::excluding(before, relayer).push(last)
    }));
}

/// Admin-only calls go through on every initialized oracle, once its admin authorizes them. A
/// handover changes the admin and nothing else, and is announced.
pub proof fn a_handover_changes_the_admin_only(s: OracleState, new_admin: Address)
    ensures
        s.admin is Some ==> s.admin_check() is Ok,
        s.admin is None ==> s.admin_check() == Err::<(), OracleError>(OracleError::NotInitialized),
        s.with_admin(new_admin) == (OracleState {
            admin: Some(new_admin),
            relayers: s.relayers,
            readings: s.readings,
        }),
        s.admin is Some ==> s.admin_effects(
            seq![OracleEffect::Publish { event: OracleEvent::AdminSet { new_admin } }],
        ) == seq![
            OracleEffect::RequireAuth { address: s.admin->0 },
            OracleEffect::Publish { event: OracleEvent::AdminSet { new_admin } },
        ],
{
    let told = OracleEffect::Publish { event: OracleEvent::AdminSet { new_admin } };
    let asked = OracleEffect::RequireAuth { address: s.admin->0 };
    assert(seq![asked] + seq![told] =~= seq![asked, told]);
}

/// The state of an oracle is what its fields hold.
pub proof fn an_oracles_state_is_what_its_fields_hold(oracle: RefractOracle)
    ensures
        oracle@.admin == oracle.admin,
        oracle@.relayers == oracle.relayers@,
        oracle@.readings == oracle.readings@,
{
}

/// A reading that is submitted answers for its feed from then on, by its own value, until it is
/// more than 1,800 seconds old.
pub proof fn a_submitted_reading_answers_for_its_feed(
    s: OracleState,
    caller: Address,
    feed: Seq<char>,
    reading: OracleReading,
    now: u64,
    later: u64,
)
    requires
        s.submission(caller, feed, reading.timestamp, now) is Ok,
        now <= later <= reading.timestamp + 1_800,
    ensures
        ({
            let next = s.submitted(feed, reading);
            &&& next.triggered(0, feed, later) == Ok::<bool, OracleError>(
                reading.value < 9_500_000,
            )
            &&& next.triggered(1, feed, later) == Ok::<bool, OracleError>(
                reading.value < -3_000_000,
            )
            &&& next.triggered(2, feed, later) == Ok::<bool, OracleError>(
                reading.value < 8_500_000,
            )
            &&& next.triggered(3, feed, later) == Ok::<bool, OracleError>(
                reading.value < 5_000_000_000_000,
            )
            &&& next.triggered(4, feed, later) == Ok::<bool, OracleError>(reading.value > 120)
        }),
{
}

} // verus!
