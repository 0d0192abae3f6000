use proptest::test_runner::TestRunner;
use refract::pool::{CoverageType, PolicyParams, PoolConfig, RefractPool};

const PRECISION: i128 = 10_000_000;

fn config() -> PoolConfig {
    PoolConfig {
        base_premium_rate_bps: 300,
        max_utilization_bps: 8_000,
        min_coverage: 0,
        max_coverage: i128::MAX / (PRECISION * 400), // headroom for the premium
        lockup_days: 7,
    }
}

fn all_coverage_types() -> [CoverageType; 5] {
    [
        CoverageType::StablecoinDepeg,
        CoverageType::MarketCrash,
        CoverageType::LiquidationShield,
        CoverageType::SmartContractRisk,
        CoverageType::FlightDelay,
    ]
}

fn premium(coverage_amount: i128, coverage_type: CoverageType, duration_days: u32) -> i128 {
    RefractPool::_calc_premium(
        &config(),
        &PolicyParams { coverage_amount, coverage_type, duration_days, trigger_threshold: 0 },
    )
}

#[test]
fn premium_is_never_negative() {
    TestRunner::default()
        .run(&(0i128..1_000_000_000 * PRECISION, 0u32..3_650), |(coverage_amount, days)| {
            for ct in all_coverage_types() {
                assert!(premium(coverage_amount, ct, days) >= 0);
            }
            Ok(())
        })
        .unwrap();
}

#[test]
fn premium_is_zero_when_coverage_or_duration_is_zero() {
    TestRunner::default()
        .run(&(0i128..1_000_000_000 * PRECISION, 0u32..3_650), |(coverage_amount, days)| {
            assert_eq!(premium(0, CoverageType::StablecoinDepeg, days), 0);
            assert_eq!(premium(coverage_amount, CoverageType::StablecoinDepeg, 0), 0);
            Ok(())
        })
        .unwrap();
}

#[test]
fn premium_is_monotonic_in_coverage_amount() {
    let cases = (
        0i128..500_000_000 * PRECISION,
        0i128..500_000_000 * PRECISION,
        1u32..3_650,
    );
    TestRunner::default()
        .run(&cases, |(low, delta, days)| {
            for ct in all_coverage_types() {
                assert!(premium(low + delta, ct, days) >= premium(low, ct, days));
            }
            Ok(())
        })
        .unwrap();
}

#[test]
fn premium_is_monotonic_in_duration() {
    let cases = (1i128..1_000_000_000 * PRECISION, 0u32..3_650, 0u32..3_650);
    TestRunner::default()
        .run(&cases, |(coverage_amount, low_days, delta_days)| {
            for ct in all_coverage_types() {
                let low = premium(coverage_amount, ct, low_days);
                let high = premium(coverage_amount, ct, low_days + delta_days);
                assert!(high >= low);
            }
            Ok(())
        })
        .unwrap();
}

fn pool_with(total_capital: i128, total_shares: i128) -> RefractPool {
    let mut pool = RefractPool::new();
    pool.total_capital = total_capital;
    pool.total_shares = total_shares;
    pool
}

/// A deposit must never mint shares worth more than the capital deposited for it, i.e.
/// `shares * total_capital <= amount * total_shares`.
#[test]
fn calc_shares_never_mints_value_out_of_thin_air() {
    let cases = (
        1i128..1_000_000_000 * PRECISION,
        1i128..1_000_000_000 * PRECISION,
        1i128..1_000_000_000 * PRECISION,
    );
    TestRunner::default()
        .run(&cases, |(total_capital, total_shares, amount)| {
            let shares = pool_with(total_capital, total_shares)._calc_shares(amount);
            assert!(shares >= 0);
            assert!(shares * total_capital <= amount * total_shares);
            Ok(())
        })
        .unwrap();
}

#[test]
fn calc_shares_is_1to1_when_pool_is_empty() {
    TestRunner::default()
        .run(&(0i128..1_000_000_000 * PRECISION), |amount| {
            assert_eq!(pool_with(0, 0)._calc_shares(amount), amount);
            Ok(())
        })
        .unwrap();
}

#[test]
fn a_year_of_each_category_has_an_exact_price() {
    let coverage = 1_000 * PRECISION;
    // 3% of 1,000 USDC is 30 USDC, weighed by risk.
    let prices = [
        (CoverageType::StablecoinDepeg, 300_000_000),
        (CoverageType::MarketCrash, 450_000_000),
        (CoverageType::LiquidationShield, 600_000_000),
        (CoverageType::SmartContractRisk, 900_000_000),
        (CoverageType::FlightDelay, 240_000_000),
    ];
    for (ct, price) in prices {
        assert_eq!(premium(coverage, ct, 365), price);
    }
    // Each step rounds toward zero.
    assert_eq!(premium(333, CoverageType::StablecoinDepeg, 365), 9);
    assert_eq!(premium(coverage, CoverageType::StablecoinDepeg, 1), 821_910);
}

#[test]
fn shares_round_toward_the_pool() {
    assert_eq!(pool_with(3, 2)._calc_shares(4), 2);
    assert_eq!(pool_with(1_000, 500)._calc_shares(3), 1);
    assert_eq!(pool_with(0, 500)._calc_shares(3), 3);
    assert_eq!(pool_with(500, 0)._calc_shares(3), 3);
}

#[test]
fn a_premium_that_overflows_is_foreseen() {
    let params = PolicyParams {
        coverage_amount: i128::MAX,
        coverage_type: CoverageType::SmartContractRisk,
        duration_days: 1,
        trigger_threshold: 0,
    };
    assert_eq!(RefractPool::checked_premium(&config(), &params), None);
    let small = PolicyParams { coverage_amount: 10_000, duration_days: 365, ..params };
    assert_eq!(RefractPool::checked_premium(&config(), &small), Some(900));
}
