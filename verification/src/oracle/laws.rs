//! What the oracle promises, call by call and over time.

use vstd::prelude::*;

use crate::address::Address;
use crate::lists;
use crate::oracle::model;
use crate::oracle::model::OracleState;
use crate::oracle::types::{OracleEffect, OracleError, OracleReading};
use crate::seqs;

verus! {

/// A call that may change the oracle, with the ledger's time where it matters.
pub enum OracleCall {
    Initialize { admin: Address },
    AddRelayer { relayer: Address },
    RemoveRelayer { relayer: Address },
    SetAdmin { new_admin: Address },
    Submit { relayer: Address, feed: Seq<char>, reading: OracleReading, now: u64 },
}

impl OracleState {
    /// Whether a call goes through, given the authorization it asks for. (One that overflows
    /// does not.)
    pub open spec fn accepts(self, call: OracleCall) -> bool {
        match call {
            OracleCall::Initialize { .. } => self.admin is None,
            OracleCall::AddRelayer { relayer } => self.admin_check() is Ok && self.add_fits(
                relayer,
            ),
            OracleCall::RemoveRelayer { .. } => self.admin_check() is Ok,
            OracleCall::SetAdmin { .. } => self.admin_check() is Ok,
            OracleCall::Submit { relayer, feed, reading, now } => self.submission(
                relayer,
                feed,
                reading.timestamp,
                now,
            ) is Ok,
        }
    }

    /// The state that a call leaves, where it goes through.
    pub open spec fn after(self, call: OracleCall) -> OracleState {
        match call {
            OracleCall::Initialize { admin } => self.initialized(admin),
            OracleCall::AddRelayer { relayer } => self.with_relayer(relayer),
            OracleCall::RemoveRelayer { relayer } => self.without_relayer(relayer),
            OracleCall::SetAdmin { new_admin } => self.with_admin(new_admin),
            OracleCall::Submit { feed, reading, .. } => self.submitted(feed, reading),
        }
    }

    /// What holds of every oracle: nobody is a relayer twice.
    pub open spec fn valid(self) -> bool {
        &&& self.admin is None ==> self == model::new_oracle()
        &&& self.relayers.no_duplicates()
    }
}

/// Every call that goes through keeps the oracle valid.
pub proof fn every_call_keeps_the_oracle_valid(s: OracleState, call: OracleCall)
    requires
        s.valid(),
        s.accepts(call),
    ensures
        s.after(call).valid(),
{
    match call {
        OracleCall::AddRelayer { relayer } => seqs::lemma_push_holds(s.relayers, relayer),
        OracleCall::RemoveRelayer { relayer } => lists::lemma_excluding(s.relayers, relayer),
        _ => {},
    }
}

/// Whether each call goes through, one after the other.
pub open spec fn all_accepted(s: OracleState, calls: Seq<OracleCall>) -> bool
    decreases calls.len(),
{
    calls.len() == 0 || {
        &&& all_accepted(s, calls.drop_last())
        &&& run(s, calls.drop_last()).accepts(calls.last())
    }
}

/// The state that calls leave, one after the other.
pub open spec fn run(s: OracleState, calls: Seq<OracleCall>) -> OracleState
    decreases calls.len(),
{
    if calls.len() == 0 {
        s
    } else {
        run(s, calls.drop_last()).after(calls.last())
    }
}

/// Every state that an oracle can come to is valid.
pub proof fn every_reachable_oracle_is_valid(calls: Seq<OracleCall>)
    requires
        all_accepted(model::new_oracle(), calls),
    ensures
        run(model::new_oracle(), calls).valid(),
    decreases calls.len(),
{
    if calls.len() != 0 {
        every_reachable_oracle_is_valid(calls.drop_last());
        every_call_keeps_the_oracle_valid(
            run(model::new_oracle(), calls.drop_last()),
            calls.last(),
        );
    }
}

// ── Relayers ───────────────────────────────────────────────────────────────────

/// An admitted relayer may submit, and nobody else loses or gains access.
pub proof fn admission_grants_access(s: OracleState, relayer: Address, other: Address)
    requires
        s.admin is Some,
    ensures
        s.with_relayer(relayer).relayer_check(relayer) is Ok,
        other != relayer ==> s.with_relayer(relayer).relayer_check(other) == s.relayer_check(
            other,
        ),
{
    seqs::lemma_push_holds(s.relayers, relayer);
}

/// Admitting a relayer again changes nothing.
pub proof fn admitting_twice_is_admitting_once(s: OracleState, relayer: Address)
    ensures
        s.with_relayer(relayer).with_relayer(relayer) == s.with_relayer(relayer),
{
    seqs::lemma_push_holds(s.relayers, relayer);
}

/// A dismissed relayer, unless it is the admin, is refused from then on, however often it was
/// admitted before. Nobody else loses or gains access.
pub proof fn dismissal_revokes_access(s: OracleState, relayer: Address, other: Address)
    requires
        s.admin is Some,
    ensures
        relayer != s.admin->0 ==> s.without_relayer(relayer).relayer_check(relayer) == Err::<
            (),
            OracleError,
        >(OracleError::Unauthorized),
        other != relayer ==> s.without_relayer(relayer).relayer_check(other) == s.relayer_check(
            other,
        ),
{
    lists::lemma_excluding(s.relayers, relayer);
}

/// Dismissing a stranger changes nothing.
pub proof fn dismissing_a_stranger_changes_nothing(s: OracleState, stranger: Address)
    requires
        !s.relayers.contains(stranger),
    ensures
        s.without_relayer(stranger) == s,
{
    lemma_excluding_a_stranger(s.relayers, stranger);
}

proof fn lemma_excluding_a_stranger(addresses: Seq<Address>, stranger: Address)
    requires
        !addresses.contains(stranger),
    ensures
        lists::excluding(addresses, stranger) == addresses,
    decreases addresses.len(),
{
    reveal(Seq::filter);
    if addresses.len() > 0 {
        let rest = addresses.drop_last();
        assert(addresses =~= rest.push(addresses.last()));
        seqs::lemma_push_holds(rest, addresses.last());
        assert(!rest.contains(stranger));
        assert(addresses.contains(addresses.last()));
        lemma_excluding_a_stranger(rest, stranger);
    }
}

/// Only relayers and the admin change what a feed holds.
pub proof fn only_relayers_and_the_admin_submit(s: OracleState, call: OracleCall)
    requires
        s.accepts(call),
        s.after(call).readings != s.readings,
    ensures
        call matches OracleCall::Submit { relayer, .. } && (s.relayers.contains(relayer)
            || s.admin == Some(relayer)),
{
}

/// An oracle is initialized once. After that, only a handover changes the admin.
pub proof fn only_a_handover_changes_the_admin(s: OracleState, call: OracleCall)
    requires
        s.admin is Some,
        s.accepts(call),
    ensures
        call !is Initialize,
        s.after(call).admin != s.admin ==> call is SetAdmin,
{
}

/// Every admin-only call asks for the authorization of the admin who is stored at that time,
/// before anything else.
pub proof fn admin_calls_ask_the_stored_admin(
    s: OracleState,
    relayer: Address,
    rest: Seq<OracleEffect>,
)
    requires
        s.admin is Some,
    ensures
        s.admin_effects(rest)[0] == (OracleEffect::RequireAuth { address: s.admin->0 }),
        s.add_effects(relayer)[0] == (OracleEffect::RequireAuth { address: s.admin->0 }),
        s.remove_effects(relayer)[0] == (OracleEffect::RequireAuth { address: s.admin->0 }),
{
}

// ── Readings ───────────────────────────────────────────────────────────────────

/// What was submitted is what is read, until it is 30 minutes old.
pub proof fn a_submitted_reading_is_read_back(
    s: OracleState,
    relayer: Address,
    feed: Seq<char>,
    reading: OracleReading,
    now: u64,
    later: u64,
)
    requires
        s.submission(relayer, feed, reading.timestamp, now) is Ok,
    ensures
        s.submitted(feed, reading).reading(feed, now) == Ok::<OracleReading, OracleError>(reading),
        s.submitted(feed, reading).reading(feed, later) == (if later <= reading.timestamp + 1_800 {
            Ok(reading)
        } else {
            Err(OracleError::StaleReading)
        }),
{
}

/// A submission to one feed leaves every other feed as it was.
pub proof fn feeds_are_independent(
    s: OracleState,
    feed: Seq<char>,
    reading: OracleReading,
    other: Seq<char>,
    now: u64,
)
    requires
        other != feed,
    ensures
        s.submitted(feed, reading).reading(other, now) == s.reading(other, now),
{
}

/// No accepted reading is dated after the ledger's time, or more than 30 minutes before it.
pub proof fn accepted_readings_are_recent(
    s: OracleState,
    relayer: Address,
    feed: Seq<char>,
    timestamp: u64,
    now: u64,
)
    requires
        s.submission(relayer, feed, timestamp, now) is Ok,
    ensures
        timestamp <= now <= timestamp + 1_800,
{
}

/// A feed that holds a reading holds one for good, and its time never goes back.
pub proof fn feed_times_never_go_back(s: OracleState, call: OracleCall, feed: Seq<char>)
    requires
        s.valid(),
        s.accepts(call),
        s.readings.contains_key(feed),
    ensures
        s.after(call).readings.contains_key(feed),
        s.after(call).readings[feed].timestamp >= s.readings[feed].timestamp,
{
}

/// Over any number of calls, a feed's time never goes back.
pub proof fn feed_times_never_go_back_over_time(
    s: OracleState,
    calls: Seq<OracleCall>,
    feed: Seq<char>,
)
    requires
        s.valid(),
        all_accepted(s, calls),
        s.readings.contains_key(feed),
    ensures
        run(s, calls).valid(),
        run(s, calls).readings.contains_key(feed),
        run(s, calls).readings[feed].timestamp >= s.readings[feed].timestamp,
    decreases calls.len(),
{
    if calls.len() != 0 {
        let earlier = calls.drop_last();
        feed_times_never_go_back_over_time(s, earlier, feed);
        feed_times_never_go_back(run(s, earlier), calls.last(), feed);
        every_call_keeps_the_oracle_valid(run(s, earlier), calls.last());
    }
}

/// A trigger that a reading meets is met by every worse one: a lower price, return, ratio or
/// value locked, or a longer delay.
pub proof fn worse_readings_trigger_too(coverage_type: u32, value: int, worse: int)
    requires
        coverage_type < 4 ==> worse <= value,
        coverage_type >= 4 ==> worse >= value,
        model::trigger_met(coverage_type, value) == Ok::<bool, OracleError>(true),
    ensures
        model::trigger_met(coverage_type, worse) == Ok::<bool, OracleError>(true),
{
}

/// A feed without a usable reading triggers nothing: it answers with the reading's error.
pub proof fn unusable_readings_trigger_nothing(
    s: OracleState,
    coverage_type: u32,
    feed: Seq<char>,
    now: u64,
)
    requires
        s.reading(feed, now) is Err,
    ensures
        s.triggered(coverage_type, feed, now) == Err::<bool, OracleError>(
            s.reading(feed, now)->Err_0,
        ),
{
}

} // verus!
