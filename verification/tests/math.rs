use fateswap::errors::FateSwapError;
use fateswap::math::{
    bps_share, calculate_max_bet, calculate_payout, is_valid_multiplier, available_liquidity,
    i64_as_u64, u64_as_i64, MAX_MULTIPLIER, MIN_MULTIPLIER, MULTIPLIER_BASE, MINIMUM_LIQUIDITY,
};

#[test]
fn test_max_bet_at_2x() {
    let base = 1_000_000;
    let max = calculate_max_bet(base, 200_000).unwrap();
    assert_eq!(max, base);
}

#[test]
fn test_multiplier_validation_tier1() {
    assert!(is_valid_multiplier(101_000));
    assert!(is_valid_multiplier(150_000));
    assert!(is_valid_multiplier(199_000));
    assert!(!is_valid_multiplier(101_500));
}

#[test]
fn test_multiplier_validation_tier2() {
    assert!(is_valid_multiplier(200_000));
    assert!(is_valid_multiplier(250_000));
    assert!(!is_valid_multiplier(201_000));
}

#[test]
fn test_multiplier_validation_tier3() {
    assert!(is_valid_multiplier(300_000));
    assert!(is_valid_multiplier(395_000));
    assert!(!is_valid_multiplier(301_000));
}

#[test]
fn test_multiplier_validation_tier4() {
    assert!(is_valid_multiplier(400_000));
    assert!(is_valid_multiplier(500_000));
    assert!(!is_valid_multiplier(405_000));
}

#[test]
fn test_multiplier_validation_tier5() {
    assert!(is_valid_multiplier(600_000));
    assert!(is_valid_multiplier(980_000));
    assert!(!is_valid_multiplier(610_000));
}

#[test]
fn test_multiplier_validation_tier6() {
    assert!(is_valid_multiplier(1_000_000));
}

#[test]
fn test_multiplier_out_of_range() {
    assert!(!is_valid_multiplier(100_000));
    assert!(!is_valid_multiplier(1_020_000));
}

#[test]
fn exactly_210_valid_multipliers_with_expected_tier_counts() {
    let mut counts = [0u32; 6];
    let mut total = 0u32;
    let mut previous = 0u32;
    for m in 0..=1_100_000u32 {
        if is_valid_multiplier(m) {
            assert!(m > previous || total == 0);
            previous = m;
            total += 1;
            let tier = if m < 200_000 {
                0
            } else if m < 300_000 {
                1
            } else if m < 400_000 {
                2
            } else if m < 600_000 {
                3
            } else if m < 1_000_000 {
                4
            } else {
                5
            };
            counts[tier] += 1;
        }
    }
    assert_eq!(total, 210);
    assert_eq!(counts, [99, 50, 20, 20, 20, 1]);
    assert!(!is_valid_multiplier(u32::MAX));
}

#[test]
fn tier_boundaries() {
    assert!(!is_valid_multiplier(MIN_MULTIPLIER - 1));
    assert!(is_valid_multiplier(MIN_MULTIPLIER));
    assert!(is_valid_multiplier(MAX_MULTIPLIER));
    assert!(!is_valid_multiplier(MAX_MULTIPLIER + 1));
    assert!(is_valid_multiplier(298_000));
    assert!(!is_valid_multiplier(299_000));
    assert!(is_valid_multiplier(590_000));
    assert!(!is_valid_multiplier(595_000));
    assert!(!is_valid_multiplier(990_000));
    assert!(!is_valid_multiplier(0));
}

#[test]
fn max_bet_scales_inversely() {
    // 1,000,000 * 200,000 / 101,000 = 1,980,198 (rounded down)
    assert_eq!(calculate_max_bet(1_000_000, 101_000), Ok(1_980_198));
    // at 10x the max bet is a fifth of the base
    assert_eq!(calculate_max_bet(1_000_000, 1_000_000), Ok(200_000));
    assert_eq!(calculate_max_bet(0, 300_000), Ok(0));
    let mut last = u64::MAX;
    for m in [101_000u32, 150_000, 200_000, 298_000, 395_000, 590_000, 980_000, 1_000_000] {
        let v = calculate_max_bet(123_456_789, m).unwrap();
        assert!(v <= last);
        assert!((v as u128) * (m as u128) <= 123_456_789u128 * 200_000);
        assert!(((v as u128) + 1) * (m as u128) > 123_456_789u128 * 200_000);
        last = v;
    }
}

#[test]
fn max_bet_errors() {
    assert_eq!(calculate_max_bet(1_000, 0), Err(FateSwapError::MathOverflow));
    assert_eq!(calculate_max_bet(u64::MAX, 101_000), Err(FateSwapError::MathOverflow));
    assert_eq!(calculate_max_bet(u64::MAX, 200_000), Ok(u64::MAX));
}

#[test]
fn payout_and_shares() {
    assert_eq!(MULTIPLIER_BASE, 100_000);
    assert_eq!(calculate_payout(10_000_000, 200_000), Ok(20_000_000));
    assert_eq!(calculate_payout(1_234_567, 101_000), Ok(1_246_912));
    assert_eq!(calculate_payout(u64::MAX, 200_000), Err(FateSwapError::MathOverflow));
    assert_eq!(calculate_payout(u64::MAX, 100_000), Ok(u64::MAX));
    assert_eq!(bps_share(1_000_000, 50), Ok(5_000));
    assert_eq!(bps_share(199, 50), Ok(0));
    assert_eq!(bps_share(u64::MAX, 2), Err(FateSwapError::MathOverflow));
}

#[test]
fn net_balance_saturates() {
    assert_eq!(available_liquidity(1_000_000, 890_880, 0), 109_120);
    assert_eq!(available_liquidity(1_000_000, 890_880, 9_120), 100_000);
    assert_eq!(available_liquidity(1_000_000, 890_880, 200_000), 0);
    assert_eq!(available_liquidity(500, 890_880, 0), 0);
    assert_eq!(MINIMUM_LIQUIDITY, 10_000);
}

#[test]
fn wrapping_casts() {
    assert_eq!(u64_as_i64(5), 5);
    assert_eq!(u64_as_i64(u64::MAX), -1);
    assert_eq!(i64_as_u64(-1), u64::MAX);
    assert_eq!(i64_as_u64(60), 60);
}
