use solignition::{distribute_yield, ProtocolConfig};

fn config_with_totals(total_deposits: u64, total_loans_outstanding: u64, loan_counter: u64) -> ProtocolConfig {
    ProtocolConfig {
        admin: 0,
        treasury: 0,
        deployer: 0,
        admin_fee_split_bps: 5000,
        default_interest_rate_bps: 500,
        default_admin_fee_bps: 100,
        total_deposits,
        total_loans_outstanding,
        total_yield_distributed: 0,
        loan_counter,
        is_paused: false,
    }
}

#[test]
fn test_distribute_yield_zero_deposits() {
    let mut config = config_with_totals(0, 0, 0);

    let initial_yield = config.total_yield_distributed;
    distribute_yield(&mut config, 1_000_000);

    // Should not increase yield when no deposits
    assert_eq!(config.total_yield_distributed, initial_yield);
}

#[test]
fn test_distribute_yield_zero_amount() {
    let mut config = config_with_totals(10_000_000_000, 0, 0);

    let initial_yield = config.total_yield_distributed;
    distribute_yield(&mut config, 0);

    // Should not change when amount is zero
    assert_eq!(config.total_yield_distributed, initial_yield);
}

#[test]
fn test_distribute_yield_normal_case() {
    let mut config = config_with_totals(10_000_000_000, 5_000_000_000, 1);

    let yield_amount = 500_000_000; // 0.5 SOL
    distribute_yield(&mut config, yield_amount);

    assert_eq!(config.total_yield_distributed, yield_amount);
}

#[test]
fn test_distribute_yield_multiple_distributions() {
    let mut config = config_with_totals(20_000_000_000, 10_000_000_000, 2);

    // First distribution
    distribute_yield(&mut config, 100_000_000);
    assert_eq!(config.total_yield_distributed, 100_000_000);

    // Second distribution
    distribute_yield(&mut config, 200_000_000);
    assert_eq!(config.total_yield_distributed, 300_000_000);

    // Third distribution
    distribute_yield(&mut config, 150_000_000);
    assert_eq!(config.total_yield_distributed, 450_000_000);
}

#[test]
fn test_distribute_yield_large_amount() {
    let mut config = config_with_totals(100_000_000_000, 50_000_000_000, 5);

    let yield_amount = 10_000_000_000; // 10 SOL
    distribute_yield(&mut config, yield_amount);

    assert_eq!(config.total_yield_distributed, yield_amount);
}

#[test]
fn test_distribute_yield_small_deposits_large_yield() {
    let mut config = config_with_totals(1_000_000, 0, 0);

    let yield_amount = 10_000_000_000; // 10 SOL (yield exceeds deposits)
    distribute_yield(&mut config, yield_amount);

    // Should still work, just means high APY
    assert_eq!(config.total_yield_distributed, yield_amount);
}
