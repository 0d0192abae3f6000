use refract::address::Address;
use refract::ident::Ident;
use refract::oracle::{OracleEffect, OracleError, OracleEvent, RefractOracle};
use soroban_sdk::testutils::EnvTestConfig;
use soroban_sdk::{Env, Symbol};

const SCALE: i128 = 10_000_000;

struct Fixture {
    env: Env,
    oracle: RefractOracle,
    admin: Address,
    relayer: Address,
    now: u64,
}

fn env() -> Env {
    Env::new_with_config(EnvTestConfig { capture_snapshot_at_drop: false })
}

fn address(n: u128) -> Address {
    Address { contract: false, high: 7, low: n }
}

fn ident(text: &str) -> Ident {
    Ident::new(text).unwrap()
}

fn setup() -> Fixture {
    let env = env();
    let mut oracle = RefractOracle::new(&env);
    let admin = address(1);
    let relayer = address(2);
    oracle.initialize(&env, admin).unwrap();
    assert!(oracle.add_relayer_fits(relayer));
    oracle.add_relayer(relayer).unwrap();
    Fixture { env, oracle, admin, relayer, now: 0 }
}

fn try_submit(
    f: &mut Fixture,
    relayer: Address,
    feed: &str,
    value: i128,
    timestamp: u64,
) -> Result<(), OracleError> {
    f.oracle.submit(relayer, ident(feed), value, timestamp, ident("test_source"), f.now)
}

fn submit(f: &mut Fixture, feed: &str, value: i128) {
    let (relayer, now) = (f.relayer, f.now);
    try_submit(f, relayer, feed, value, now).unwrap();
}

fn events(f: &Fixture) -> usize {
    f.oracle.effects.iter().filter(|e| matches!(e, OracleEffect::Publish { .. })).count()
}

#[test]
fn submit_then_read_roundtrips() {
    let mut f = setup();
    submit(&mut f, "USDC_PRICE", 9_990_000); // $0.999
    let reading = f.oracle.get_reading(&ident("USDC_PRICE"), f.now).unwrap();
    assert_eq!(reading.value, 9_990_000);
    assert_eq!(reading.timestamp, f.now);
    assert_eq!(reading.source.as_str(), "test_source");
}

#[test]
fn depeg_trigger_evaluates_threshold() {
    let mut f = setup();
    let feed = ident("USDC_PRICE");

    submit(&mut f, "USDC_PRICE", 9_900_000); // $0.99: healthy
    assert_eq!(f.oracle.is_triggered(0, &feed, f.now), Ok(false));

    submit(&mut f, "USDC_PRICE", 9_000_000); // $0.90: depegged
    assert_eq!(f.oracle.is_triggered(0, &feed, f.now), Ok(true));
}

#[test]
fn crash_trigger_uses_negative_return() {
    let mut f = setup();
    let feed = ident("MARKET_24H");

    submit(&mut f, "MARKET_24H", -20 * SCALE / 100); // -20%: no trigger
    assert_eq!(f.oracle.is_triggered(1, &feed, f.now), Ok(false));

    submit(&mut f, "MARKET_24H", -35 * SCALE / 100); // -35%: crash
    assert_eq!(f.oracle.is_triggered(1, &feed, f.now), Ok(true));
}

#[test]
fn each_trigger_has_an_exact_level() {
    let mut f = setup();
    let levels: [(u32, i128, i128); 5] = [
        (0, 9_499_999, 9_500_000),
        (1, -3_000_001, -3_000_000),
        (2, 8_499_999, 8_500_000),
        (3, 4_999_999_999_999, 5_000_000_000_000),
        (4, 121, 120),
    ];
    for (coverage_type, met, missed) in levels {
        submit(&mut f, "LEVEL", met);
        assert_eq!(f.oracle.is_triggered(coverage_type, &ident("LEVEL"), f.now), Ok(true));
        submit(&mut f, "LEVEL", missed);
        assert_eq!(f.oracle.is_triggered(coverage_type, &ident("LEVEL"), f.now), Ok(false));
    }
}

#[test]
fn unregistered_relayer_cannot_submit() {
    let mut f = setup();
    let now = f.now;
    let res = try_submit(&mut f, address(99), "USDC_PRICE", 9_000_000, now);
    assert_eq!(res, Err(OracleError::Unauthorized));
}

#[test]
fn the_admin_may_submit() {
    let mut f = setup();
    let (admin, now) = (f.admin, f.now);
    assert_eq!(try_submit(&mut f, admin, "USDC_PRICE", 9_000_000, now), Ok(()));
}

#[test]
fn remove_relayer_revokes_access() {
    let mut f = setup();
    let (relayer, now) = (f.relayer, f.now);
    f.oracle.remove_relayer(&f.env, relayer).unwrap();
    let res = try_submit(&mut f, relayer, "USDC_PRICE", 9_000_000, now);
    assert!(res.is_err());
}

#[test]
fn a_second_initialize_of_the_oracle_is_rejected() {
    let mut f = setup();
    let res = f.oracle.initialize(&f.env, address(50));
    assert_eq!(res, Err(OracleError::AlreadyInitialized));
    assert_eq!(f.oracle.admin, Some(f.admin));
    assert_eq!(f.oracle.list_relayers(), vec![f.relayer]);
}

#[test]
fn nothing_goes_before_initialize() {
    let env = env();
    let mut oracle = RefractOracle::new(&env);
    let a = address(1);
    assert_eq!(oracle.add_relayer(a), Err(OracleError::NotInitialized));
    assert_eq!(oracle.remove_relayer(&env, a), Err(OracleError::NotInitialized));
    assert_eq!(oracle.set_admin(a), Err(OracleError::NotInitialized));
    assert_eq!(
        oracle.submit(a, ident("F"), 1, 0, ident("s"), 0),
        Err(OracleError::NotInitialized)
    );
    assert!(oracle.list_relayers().is_empty());
}

#[test]
fn stale_submission_is_rejected() {
    let mut f = setup();
    // Advance the ledger clock well past the greatest age relative to the timestamp being
    // submitted.
    let stale_ts = f.now;
    f.now = stale_ts + 3_600;

    let relayer = f.relayer;
    let res = try_submit(&mut f, relayer, "USDC_PRICE", 9_000_000, stale_ts);
    assert_eq!(res, Err(OracleError::StaleReading));
}

#[test]
fn a_submission_may_be_exactly_thirty_minutes_old() {
    let mut f = setup();
    f.now = 10_000;
    let relayer = f.relayer;
    assert_eq!(
        try_submit(&mut f, relayer, "USDC_PRICE", 1, 8_199),
        Err(OracleError::StaleReading)
    );
    assert_eq!(try_submit(&mut f, relayer, "USDC_PRICE", 1, 8_200), Ok(()));
}

#[test]
fn future_dated_submission_is_rejected() {
    let mut f = setup();
    let future_ts = f.now + 3_600;
    let relayer = f.relayer;
    let res = try_submit(&mut f, relayer, "USDC_PRICE", 9_000_000, future_ts);
    assert_eq!(res, Err(OracleError::FutureTimestamp));
}

#[test]
fn a_timestamp_equal_to_the_current_ledger_time_is_accepted() {
    let mut f = setup();
    let (relayer, now) = (f.relayer, f.now);
    let res = try_submit(&mut f, relayer, "USDC_PRICE", 9_000_000, now);
    assert!(res.is_ok());
}

#[test]
fn submitting_an_older_timestamp_than_the_stored_reading_is_rejected() {
    let mut f = setup();
    let feed = ident("USDC_PRICE");
    let t1 = f.now + 1_000;
    f.now = t1;
    let relayer = f.relayer;

    // Freshest reading on file: submitted at t1.
    try_submit(&mut f, relayer, "USDC_PRICE", 9_990_000, t1).unwrap();

    // A delayed retry submits a reading 100s older. It is young enough on its own, so only the
    // order can refuse it.
    let res = try_submit(&mut f, relayer, "USDC_PRICE", 9_000_000, t1 - 100);
    assert_eq!(res, Err(OracleError::StaleSubmission));

    // The fresher reading must still be what's on file.
    assert_eq!(f.oracle.get_reading(&feed, f.now).unwrap().value, 9_990_000);
}

#[test]
fn submitting_a_newer_timestamp_replaces_the_stored_reading() {
    let mut f = setup();
    let feed = ident("USDC_PRICE");
    let now = f.now;
    let relayer = f.relayer;

    try_submit(&mut f, relayer, "USDC_PRICE", 9_990_000, now).unwrap();

    f.now = now + 60;
    try_submit(&mut f, relayer, "USDC_PRICE", 9_000_000, now + 60).unwrap();

    assert_eq!(f.oracle.get_reading(&feed, f.now).unwrap().value, 9_000_000);
}

#[test]
fn resubmitting_the_same_timestamp_is_allowed() {
    let mut f = setup();
    let feed = ident("USDC_PRICE");
    let (relayer, now) = (f.relayer, f.now);

    try_submit(&mut f, relayer, "USDC_PRICE", 9_990_000, now).unwrap();

    let res = try_submit(&mut f, relayer, "USDC_PRICE", 9_980_000, now);
    assert!(res.is_ok());
    assert_eq!(f.oracle.get_reading(&feed, f.now).unwrap().value, 9_980_000);
}

#[test]
fn get_reading_rejects_unknown_feed() {
    let f = setup();
    let res = f.oracle.get_reading(&ident("NOPE"), f.now);
    assert_eq!(res, Err(OracleError::FeedNotFound));
    assert_eq!(
        f.oracle.is_triggered(0, &ident("NOPE"), f.now),
        Err(OracleError::FeedNotFound)
    );
}

#[test]
fn a_reading_goes_stale_after_thirty_minutes() {
    let mut f = setup();
    f.now = 5_000;
    submit(&mut f, "USDC_PRICE", 9_000_000);
    let feed = ident("USDC_PRICE");
    assert!(f.oracle.get_reading(&feed, 6_800).is_ok());
    assert_eq!(f.oracle.get_reading(&feed, 6_801), Err(OracleError::StaleReading));
    assert_eq!(f.oracle.is_triggered(0, &feed, 6_801), Err(OracleError::StaleReading));
}

#[test]
fn is_triggered_rejects_unknown_coverage_type() {
    let mut f = setup();
    let feed = ident("USDC_PRICE");
    submit(&mut f, "USDC_PRICE", 9_900_000);
    let res = f.oracle.is_triggered(99, &feed, f.now);
    assert_eq!(res, Err(OracleError::UnknownCoverageType));
}

#[test]
fn list_relayers_reflects_adds_and_removes() {
    let mut f = setup();
    // setup() already added f.relayer.
    assert_eq!(f.oracle.list_relayers(), vec![f.relayer]);

    let second = address(3);
    f.oracle.add_relayer(second).unwrap();
    assert_eq!(f.oracle.list_relayers(), vec![f.relayer, second]);

    f.oracle.remove_relayer(&f.env, f.relayer).unwrap();
    assert_eq!(f.oracle.list_relayers(), vec![second]);
}

#[test]
fn a_relayer_may_be_a_contract() {
    let mut f = setup();
    let account = Address { contract: false, high: u128::MAX, low: 4 };
    let contract = Address { contract: true, high: u128::MAX, low: 4 };
    f.oracle.add_relayer(contract).unwrap();
    assert_eq!(f.oracle.list_relayers(), vec![f.relayer, contract]);
    let now = f.now;
    assert_eq!(
        try_submit(&mut f, account, "F", 1, now),
        Err(OracleError::Unauthorized)
    );
    assert_eq!(try_submit(&mut f, contract, "F", 1, now), Ok(()));
}

#[test]
fn add_relayer_emits_an_event() {
    let mut f = setup();
    let new_relayer = address(3);

    let before = events(&f);
    f.oracle.add_relayer(new_relayer).unwrap();
    let after = events(&f);

    assert_eq!(after, before + 1);
}

#[test]
fn adding_a_duplicate_relayer_does_not_emit_an_event() {
    let mut f = setup();

    let before = events(&f);
    f.oracle.add_relayer(f.relayer).unwrap(); // already added in setup()
    let after = events(&f);

    assert_eq!(after, before);
}

#[test]
fn remove_relayer_emits_an_event() {
    let mut f = setup();

    let before = events(&f);
    f.oracle.remove_relayer(&f.env, f.relayer).unwrap();
    let after = events(&f);

    assert_eq!(after, before + 1);
}

#[test]
fn removing_an_unknown_relayer_does_not_emit_an_event() {
    let mut f = setup();
    let stranger = address(77);

    let before = events(&f);
    f.oracle.remove_relayer(&f.env, stranger).unwrap();
    let after = events(&f);

    assert_eq!(after, before);
    assert_eq!(f.oracle.list_relayers(), vec![f.relayer]);
}

#[test]
fn set_admin_updates_the_stored_admin() {
    let mut f = setup();
    let new_admin = address(5);

    f.oracle.set_admin(new_admin).unwrap();

    assert_eq!(f.oracle.admin, Some(new_admin));
}

#[test]
fn admin_calls_ask_for_the_stored_admin() {
    let mut f = setup();
    f.oracle.effects.clear();
    f.oracle.set_admin(address(5)).unwrap();
    f.oracle.add_relayer(address(6)).unwrap();
    let asked: Vec<Address> = f
        .oracle
        .effects
        .iter()
        .filter_map(|e| match e {
            OracleEffect::RequireAuth { address } => Some(*address),
            _ => None,
        })
        .collect();
    assert_eq!(asked, vec![f.admin, address(5)]);
}

#[test]
fn set_admin_emits_an_event() {
    let mut f = setup();
    let new_admin = address(5);

    let before = events(&f);
    f.oracle.set_admin(new_admin).unwrap();
    let after = events(&f);

    assert_eq!(after, before + 1);
}

#[test]
fn a_submission_announces_its_feed() {
    let mut f = setup();
    f.now = 50;
    f.oracle.effects.clear();
    submit(&mut f, "XLM_TVL", 42);
    assert_eq!(f.oracle.effects.len(), 2);
    match &f.oracle.effects[1] {
        OracleEffect::Publish { event: OracleEvent::Updated { feed_id, value, timestamp } } => {
            assert_eq!(feed_id.as_str(), "XLM_TVL");
            assert_eq!((*value, *timestamp), (42, 50));
        }
        other => panic!("unexpected {:?}", other),
    }
}

#[test]
fn adding_the_same_relayer_twice_is_a_no_op() {
    let mut f = setup();
    // Adding an already-registered relayer must not create a duplicate entry.
    f.oracle.add_relayer(f.relayer).unwrap();
    submit(&mut f, "USDC_PRICE", 9_900_000);
    f.oracle.remove_relayer(&f.env, f.relayer).unwrap();
    // A single remove should fully revoke access even though add was called twice.
    let (relayer, now) = (f.relayer, f.now);
    let res = try_submit(&mut f, relayer, "USDC_PRICE", 9_000_000, now);
    assert_eq!(res, Err(OracleError::Unauthorized));
}

#[test]
fn list_feeds_gives_the_times_of_known_feeds() {
    let mut f = setup();
    f.now = 100;
    submit(&mut f, "USDC_PRICE", 1);
    f.now = 9_000;
    submit(&mut f, "XLM_TVL", 2);
    let ids = vec![ident("XLM_TVL"), ident("NOPE"), ident("USDC_PRICE"), ident("XLM_TVL")];
    let times = f.oracle.list_feeds(&f.env, &ids);
    assert_eq!(times.len(), 2);
    assert_eq!(times.get(Symbol::new(&f.env, "XLM_TVL")), Some(9_000));
    // A stale feed is listed all the same.
    assert_eq!(times.get(Symbol::new(&f.env, "USDC_PRICE")), Some(100));
    assert_eq!(times.get(Symbol::new(&f.env, "NOPE")), None);
    assert_eq!(f.oracle.list_feeds(&f.env, &vec![]).len(), 0);
}

#[test]
fn list_feeds_reads_times_as_signed() {
    let mut f = setup();
    f.now = u64::MAX;
    submit(&mut f, "LATE", 1);
    let times = f.oracle.list_feeds(&f.env, &vec![ident("LATE")]);
    assert_eq!(times.get(Symbol::new(&f.env, "LATE")), Some(-1));
}

#[test]
fn feeds_do_not_touch_each_other() {
    let mut f = setup();
    f.now = 500;
    submit(&mut f, "A", 1);
    let relayer = f.relayer;
    try_submit(&mut f, relayer, "B", 2, 400).unwrap();
    assert_eq!(f.oracle.get_reading(&ident("A"), 500).unwrap().value, 1);
    assert_eq!(f.oracle.get_reading(&ident("B"), 500).unwrap().value, 2);
}

#[test]
fn identifiers_are_short_and_plain() {
    assert!(Ident::new("FLIGHT_DL420").is_some());
    assert!(Ident::new("").is_some());
    assert!(Ident::new("abcdefghijklmnopqrstuvwxyz012345").is_some());
    assert!(Ident::new("abcdefghijklmnopqrstuvwxyz0123456").is_none());
    assert!(Ident::new("USDC-PRICE").is_none());
    assert!(Ident::new("prix é").is_none());
}
