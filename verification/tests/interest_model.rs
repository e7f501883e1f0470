use solignition::calculate_interest;

#[test]
fn test_calculate_interest_zero_principal() {
    let principal = 0;
    let rate_bps = 500; // 5%
    let elapsed = 31_536_000; // 1 year

    let interest = calculate_interest(principal, rate_bps, elapsed);
    assert_eq!(interest, 0);
}

#[test]
fn test_calculate_interest_zero_rate() {
    let principal = 1_000_000_000; // 1 SOL
    let rate_bps = 0;
    let elapsed = 31_536_000; // 1 year

    let interest = calculate_interest(principal, rate_bps, elapsed);
    assert_eq!(interest, 0);
}

#[test]
fn test_calculate_interest_zero_time() {
    let principal = 1_000_000_000; // 1 SOL
    let rate_bps = 500; // 5%
    let elapsed = 0;

    let interest = calculate_interest(principal, rate_bps, elapsed);
    assert_eq!(interest, 0);
}

#[test]
fn test_calculate_interest_one_year_simple() {
    let principal = 1_000_000_000; // 1 SOL (1 billion lamports)
    let rate_bps = 500; // 5%
    let elapsed = 31_536_000; // 1 year in seconds

    // Expected: 1 SOL * 5% * 1 year = 0.05 SOL = 50_000_000 lamports
    let interest = calculate_interest(principal, rate_bps, elapsed);
    assert_eq!(interest, 50_000_000);
}

#[test]
fn test_calculate_interest_half_year() {
    let principal = 1_000_000_000; // 1 SOL
    let rate_bps = 1000; // 10%
    let elapsed = 15_768_000; // 0.5 year in seconds

    // Expected: 1 SOL * 10% * 0.5 year = 0.05 SOL = 50_000_000 lamports
    let interest = calculate_interest(principal, rate_bps, elapsed);
    assert_eq!(interest, 50_000_000);
}

#[test]
fn test_calculate_interest_one_month() {
    let principal = 10_000_000_000; // 10 SOL
    let rate_bps = 1200; // 12% annual
    let elapsed = 2_628_000; // ~1 month (1/12 year)

    // Expected: 10 SOL * 12% * (1/12) = 0.1 SOL = 100_000_000 lamports
    let interest = calculate_interest(principal, rate_bps, elapsed);
    assert_eq!(interest, 100_000_000);
}

#[test]
fn test_calculate_interest_one_day() {
    let principal = 1_000_000_000; // 1 SOL
    let rate_bps = 730; // 7.3% annual
    let elapsed = 86_400; // 1 day in seconds

    // Expected: 1 SOL * 7.3% * (1/365) = 200_000 lamports
    let interest = calculate_interest(principal, rate_bps, elapsed);
    assert_eq!(interest, 200_000);
}

#[test]
fn test_calculate_interest_large_principal() {
    let principal = 100_000_000_000; // 100 SOL
    let rate_bps = 800; // 8%
    let elapsed = 31_536_000; // 1 year

    // Expected: 100 SOL * 8% * 1 year = 8 SOL = 8_000_000_000 lamports
    let interest = calculate_interest(principal, rate_bps, elapsed);
    assert_eq!(interest, 8_000_000_000);
}

#[test]
fn test_calculate_interest_max_rate() {
    let principal = 1_000_000_000; // 1 SOL
    let rate_bps = 10000; // 100%
    let elapsed = 31_536_000; // 1 year

    // Expected: 1 SOL * 100% * 1 year = 1 SOL = 1_000_000_000 lamports
    let interest = calculate_interest(principal, rate_bps, elapsed);
    assert_eq!(interest, 1_000_000_000);
}

#[test]
fn test_calculate_interest_small_amounts() {
    let principal = 1_000_000; // 0.001 SOL
    let rate_bps = 500; // 5%
    let elapsed = 31_536_000; // 1 year

    // Expected: 0.001 SOL * 5% * 1 year = 0.00005 SOL = 50_000 lamports
    let interest = calculate_interest(principal, rate_bps, elapsed);
    assert_eq!(interest, 50_000);
}

#[test]
fn test_calculate_interest_multiple_years() {
    let principal = 5_000_000_000; // 5 SOL
    let rate_bps = 600; // 6%
    let elapsed = 63_072_000; // 2 years

    // Expected: 5 SOL * 6% * 2 years = 0.6 SOL = 600_000_000 lamports
    let interest = calculate_interest(principal, rate_bps, elapsed);
    assert_eq!(interest, 600_000_000);
}

#[test]
fn test_calculate_interest_fractional_bps() {
    let principal = 10_000_000_000; // 10 SOL
    let rate_bps = 123; // 1.23%
    let elapsed = 31_536_000; // 1 year

    // Expected: 10 SOL * 1.23% * 1 year = 0.123 SOL = 123_000_000 lamports
    let interest = calculate_interest(principal, rate_bps, elapsed);
    assert_eq!(interest, 123_000_000);
}

#[test]
fn test_calculate_interest_very_short_duration() {
    let principal = 1_000_000_000; // 1 SOL
    let rate_bps = 500; // 5%
    let elapsed = 3600; // 1 hour

    // Expected: very small interest for 1 hour
    let interest = calculate_interest(principal, rate_bps, elapsed);
    assert!(interest < 10_000); // Should be less than 0.00001 SOL
}

#[test]
fn test_calculate_interest_overflow_protection() {
    // Test with very large values to ensure no overflow
    let principal = u64::MAX / 100; // Large but safe principal
    let rate_bps = 100; // 1%
    let elapsed = 31_536_000; // 1 year

    // Should not panic
    let interest = calculate_interest(principal, rate_bps, elapsed);
    assert!(interest > 0);
}

#[test]
fn test_calculate_interest_precision() {
    // Test that small interest amounts are calculated correctly
    let principal = 1_000; // Very small amount
    let rate_bps = 1; // 0.01%
    let elapsed = 31_536_000; // 1 year

    // Expected: 1000 * 0.0001 * 1 = 0 (rounds down due to integer math)
    let interest = calculate_interest(principal, rate_bps, elapsed);
    assert_eq!(interest, 0);
}

#[test]
fn test_calculate_interest_monotonic() {
    // Growing any one argument never shrinks the interest.
    assert!(
        calculate_interest(1_000_000_000, 500, 3600)
            <= calculate_interest(2_000_000_000, 500, 3600)
    );
    assert!(
        calculate_interest(1_000_000_000, 500, 3600)
            <= calculate_interest(1_000_000_000, 501, 3600)
    );
    assert!(
        calculate_interest(1_000_000_000, 500, 3600)
            <= calculate_interest(1_000_000_000, 500, 7200)
    );
}
