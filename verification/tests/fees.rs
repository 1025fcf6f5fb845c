use pump69_program::fees::checked_bps_part;
use pump69_program::split_pool;
use pump69_program::validate_fee_split;
use pump69_program::ErrorCode;
use pump69_program::FeeShares;

fn total(shares: &FeeShares) -> u128 {
    shares.winner_share as u128
        + shares.creator_share as u128
        + shares.platform_share as u128
        + shares.referrer_share as u128
}

#[test]
fn policy_split_is_accepted() {
    assert_eq!(validate_fee_split(600, 300, 100), Ok(()));
}

#[test]
fn other_split_within_cap_is_refused() {
    assert_eq!(validate_fee_split(500, 300, 100), Err(ErrorCode::InvalidFeePercentages));
    assert_eq!(validate_fee_split(300, 600, 100), Err(ErrorCode::InvalidFeePercentages));
    assert_eq!(validate_fee_split(0, 0, 0), Err(ErrorCode::InvalidFeePercentages));
    assert_eq!(validate_fee_split(600, 300, 99), Err(ErrorCode::InvalidFeePercentages));
}

#[test]
fn split_over_cap_is_refused() {
    assert_eq!(validate_fee_split(600, 300, 101), Err(ErrorCode::InvalidFeePercentages));
    assert_eq!(validate_fee_split(u16::MAX, u16::MAX, u16::MAX), Err(ErrorCode::InvalidFeePercentages));
}

#[test]
fn split_with_referrer() {
    let shares = split_pool(200, 600, 300, 100, 0, true).unwrap();
    assert_eq!(
        shares,
        FeeShares { winner_share: 180, creator_share: 12, platform_share: 6, referrer_share: 2 }
    );
    assert_eq!(total(&shares), 200);
}

#[test]
fn split_without_referrer_gives_referrer_part_to_platform() {
    let shares = split_pool(200, 600, 300, 100, 0, false).unwrap();
    assert_eq!(
        shares,
        FeeShares { winner_share: 180, creator_share: 12, platform_share: 8, referrer_share: 0 }
    );
    assert_eq!(total(&shares), 200);
}

#[test]
fn split_leaves_rounding_to_winner() {
    let shares = split_pool(99, 600, 300, 100, 0, true).unwrap();
    assert_eq!(
        shares,
        FeeShares { winner_share: 92, creator_share: 5, platform_share: 2, referrer_share: 0 }
    );
    assert_eq!(total(&shares), 99);
}

#[test]
fn split_with_tier_discount_moves_platform_part_to_creator() {
    let shares = split_pool(10_000, 600, 300, 100, 50, true).unwrap();
    assert_eq!(
        shares,
        FeeShares { winner_share: 9_000, creator_share: 650, platform_share: 250, referrer_share: 100 }
    );
    let shares = split_pool(10_000, 600, 300, 100, 150, false).unwrap();
    assert_eq!(
        shares,
        FeeShares { winner_share: 9_000, creator_share: 750, platform_share: 250, referrer_share: 0 }
    );
}

#[test]
fn split_with_discount_above_platform_rate_leaves_platform_nothing() {
    let shares = split_pool(10_000, 600, 300, 100, 400, true).unwrap();
    assert_eq!(
        shares,
        FeeShares { winner_share: 9_000, creator_share: 900, platform_share: 0, referrer_share: 100 }
    );
}

#[test]
fn split_of_empty_pool_is_empty() {
    let shares = split_pool(0, 600, 300, 100, 0, true).unwrap();
    assert_eq!(
        shares,
        FeeShares { winner_share: 0, creator_share: 0, platform_share: 0, referrer_share: 0 }
    );
}

#[test]
fn split_over_cap_fails() {
    assert_eq!(split_pool(200, 600, 300, 200, 0, true), Err(ErrorCode::InvalidFeePercentages));
    assert_eq!(split_pool(u64::MAX, 600, 300, 200, 0, true), Err(ErrorCode::InvalidFeePercentages));
}

#[test]
fn split_overflow_fails() {
    assert_eq!(split_pool(u64::MAX, 600, 300, 100, 0, true), Err(ErrorCode::MathOverflow));
    let largest: u64 = u64::MAX / 600;
    assert!(split_pool(largest, 600, 300, 100, 0, true).is_ok());
    assert_eq!(split_pool(largest + 1, 600, 300, 100, 0, true), Err(ErrorCode::MathOverflow));
}

#[test]
fn split_is_conservative() {
    let pools: [u64; 9] = [0, 1, 9, 10, 99, 101, 9_999, 1_234_567, u64::MAX / 600];
    let discounts: [u16; 5] = [0, 50, 100, 150, 1000];
    for pool in pools {
        for discount in discounts {
            for has_referrer in [false, true] {
                let shares = split_pool(pool, 600, 300, 100, discount, has_referrer).unwrap();
                assert_eq!(total(&shares), pool as u128);
                if !has_referrer {
                    assert_eq!(shares.referrer_share, 0);
                }
            }
        }
    }
}

#[test]
fn split_accepts_any_rates_within_cap() {
    let shares = split_pool(1_000, 500, 250, 250, 0, true).unwrap();
    assert_eq!(
        shares,
        FeeShares { winner_share: 900, creator_share: 50, platform_share: 25, referrer_share: 25 }
    );
    let shares = split_pool(1_000, 0, 0, 0, 0, true).unwrap();
    assert_eq!(shares.winner_share, 1_000);
}

#[test]
fn bps_part_rounds_down_and_checks_the_product() {
    assert_eq!(checked_bps_part(99, 600), Some(5));
    assert_eq!(checked_bps_part(10_000, 1), Some(1));
    assert_eq!(checked_bps_part(9_999, 1), Some(0));
    assert_eq!(checked_bps_part(u64::MAX, 1), Some(u64::MAX / 10_000));
    assert_eq!(checked_bps_part(u64::MAX, 2), None);
}
