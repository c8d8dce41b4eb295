use wager_engine::feed::{parse_price_account, PythPriceStatus, PYTH_PRICE_ACCOUNT_SIZE};
use wager_engine::math::{
    calculate_amount_after_fee, calculate_fee, calculate_proportional_payout,
};
use wager_engine::prediction::{get_pyth_price, ErrorCode};

#[test]
fn fee_exact_values() {
    assert_eq!(calculate_fee(2_000_000_000, 1000), Some(200_000_000));
    assert_eq!(calculate_fee(100_000_000, 500), Some(5_000_000));
    assert_eq!(calculate_fee(0, 1000), Some(0));
    // Rounds down.
    assert_eq!(calculate_fee(9999, 1), Some(0));
    assert_eq!(calculate_fee(10001, 1), Some(1));
    // The widened intermediate keeps the fee exact at any pool size.
    assert_eq!(calculate_fee(u64::MAX, 1000), Some(1_844_674_407_370_955_161));
    assert_eq!(calculate_fee(u64::MAX, 10000), Some(u64::MAX));
    // Only a rate above 100% can push the fee itself out of range.
    assert_eq!(calculate_fee(u64::MAX, 20000), None);
}

#[test]
fn amount_after_fee_exact_values() {
    assert_eq!(calculate_amount_after_fee(2_000_000_000, 1000), Some(1_800_000_000));
    assert_eq!(calculate_amount_after_fee(100_000_000, 500), Some(95_000_000));
    assert_eq!(calculate_amount_after_fee(7, 0), Some(7));
    assert_eq!(calculate_amount_after_fee(7, 10000), Some(0));
    // The widened intermediate keeps the remainder exact at any size.
    assert_eq!(
        calculate_amount_after_fee(u64::MAX, 1000),
        Some(16_602_069_666_338_596_453)
    );
    // More than 100% is rejected.
    assert_eq!(calculate_amount_after_fee(7, 10001), None);
}

#[test]
fn proportional_payout_exact_values() {
    assert_eq!(calculate_proportional_payout(10, 100, 50), Some(20));
    assert_eq!(calculate_proportional_payout(10_000_000, 95_000_000, 40_000_000), Some(23_750_000));
    // Rounds down.
    assert_eq!(calculate_proportional_payout(1, 2, 3), Some(0));
    // Division by an empty winning pool is rejected.
    assert_eq!(calculate_proportional_payout(10, 100, 0), None);
    // A share too large for a u64 is rejected.
    assert_eq!(calculate_proportional_payout(u64::MAX, u64::MAX, 1), None);
    // The same share exactly at the boundary is fine.
    assert_eq!(calculate_proportional_payout(u64::MAX, 1, 1), Some(u64::MAX));
}

/// A fee and its complement never exceed the amount they split.
#[test]
fn fee_split_conserves() {
    for amount in [0u64, 1, 9999, 10_000, 123_456_789, 2_000_000_000] {
        for bps in [0u64, 1, 500, 1000, 9999, 10_000] {
            let fee = calculate_fee(amount, bps).unwrap();
            let rest = calculate_amount_after_fee(amount, bps).unwrap();
            assert!(fee + rest <= amount);
        }
    }
}

fn put_u32(buf: &mut [u8], off: usize, v: u32) {
    buf[off..off + 4].copy_from_slice(&v.to_le_bytes());
}

fn put_u64(buf: &mut [u8], off: usize, v: u64) {
    buf[off..off + 8].copy_from_slice(&v.to_le_bytes());
}

fn put_i64(buf: &mut [u8], off: usize, v: i64) {
    buf[off..off + 8].copy_from_slice(&v.to_le_bytes());
}

fn sample_feed(price: i64, status: u32, timestamp: i64) -> Vec<u8> {
    let mut buf = vec![0u8; PYTH_PRICE_ACCOUNT_SIZE];
    put_u32(&mut buf, 0, 0xa1b2c3d4); // magic
    put_u32(&mut buf, 4, 2); // ver
    buf[20..24].copy_from_slice(&(-8i32).to_le_bytes()); // expo
    put_i64(&mut buf, 64, timestamp);
    put_u64(&mut buf, 144, 41); // prev_slot
    put_i64(&mut buf, 176, price); // agg.price
    put_u64(&mut buf, 184, 5); // agg.conf
    put_u32(&mut buf, 192, status); // agg.status
    put_u64(&mut buf, 200, 42); // agg.pub_slot
    buf
}

#[test]
fn parse_price_account_reads_fields() {
    let data = sample_feed(12_345_678_900, 1, 1_700_000_000);
    let account = parse_price_account(&data).unwrap();
    assert_eq!(account.magic, 0xa1b2c3d4);
    assert_eq!(account.ver, 2);
    assert_eq!(account.expo, -8);
    assert_eq!(account.timestamp, 1_700_000_000);
    assert_eq!(account.agg.price, 12_345_678_900);
    assert_eq!(account.agg.conf, 5);
    assert_eq!(account.agg.status, 1);
    assert_eq!(account.agg.pub_slot, 42);
    assert_eq!(account.prev_slot, 41);
}

#[test]
fn parse_price_account_negative_price() {
    let data = sample_feed(-7, 1, 0);
    let account = parse_price_account(&data).unwrap();
    assert_eq!(account.agg.price, -7);
}

#[test]
fn parse_price_account_rejects_short_buffer() {
    let data = vec![0u8; PYTH_PRICE_ACCOUNT_SIZE - 1];
    assert!(parse_price_account(&data).is_none());
}

#[test]
fn get_pyth_price_accepts_fresh_trading_price() {
    let now = 1_700_000_030;
    let data = sample_feed(12_345_678_900, 1, 1_700_000_000);
    assert_eq!(get_pyth_price(&data, now), Ok(12_345_678_900));
}

#[test]
fn get_pyth_price_rejects_bad_magic() {
    let now = 1_700_000_030;
    let mut data = sample_feed(100, 1, 1_700_000_000);
    data[0] = 0;
    assert_eq!(get_pyth_price(&data, now), Err(ErrorCode::InvalidPriceFeed));
    let short = vec![0u8; 10];
    assert_eq!(get_pyth_price(&short, now), Err(ErrorCode::InvalidPriceFeed));
}

#[test]
fn get_pyth_price_rejects_non_trading_status() {
    let now = 1_700_000_030;
    let data = sample_feed(100, 2, 1_700_000_000);
    assert_eq!(get_pyth_price(&data, now), Err(ErrorCode::StalePriceFeed));
}

#[test]
fn get_pyth_price_rejects_stale_and_future_timestamps() {
    let published = 1_700_000_000;
    let data = sample_feed(100, 1, published);
    // 61 seconds old: stale.
    assert_eq!(get_pyth_price(&data, published + 61), Err(ErrorCode::StalePriceFeed));
    // From the future: stale.
    assert_eq!(get_pyth_price(&data, published - 1), Err(ErrorCode::StalePriceFeed));
    // Exactly at the age bound: accepted.
    assert_eq!(get_pyth_price(&data, published + 60), Ok(100));
}

#[test]
fn get_pyth_price_rejects_non_positive_price() {
    let now = 1_700_000_000;
    let zero = sample_feed(0, 1, now);
    assert_eq!(get_pyth_price(&zero, now), Err(ErrorCode::InvalidPrice));
    let negative = sample_feed(-5, 1, now);
    assert_eq!(get_pyth_price(&negative, now), Err(ErrorCode::InvalidPrice));
}

#[test]
fn price_status_codes_round_trip() {
    assert_eq!(PythPriceStatus::from_code(0), Some(PythPriceStatus::Unknown));
    assert_eq!(PythPriceStatus::from_code(1), Some(PythPriceStatus::Trading));
    assert_eq!(PythPriceStatus::from_code(2), Some(PythPriceStatus::Halted));
    assert_eq!(PythPriceStatus::from_code(3), Some(PythPriceStatus::Auction));
    assert_eq!(PythPriceStatus::from_code(4), None);
}
