use solation::errors::ErrorCode;
use solation::oracle::{check_price_update, magnitude, read_settlement_price, PriceUpdate};

/// The bytes of a fully verified price update account, field by field.
fn update_bytes(feed_id: [u8; 32], price: i64, publish_time: i64) -> Vec<u8> {
    let mut data: Vec<u8> = Vec::new();
    data.extend_from_slice(&[7u8; 32]); // write authority
    data.push(1); // verification level: full
    data.extend_from_slice(&feed_id);
    data.extend_from_slice(&price.to_le_bytes());
    data.extend_from_slice(&25u64.to_le_bytes()); // confidence
    data.extend_from_slice(&(-8i32).to_le_bytes()); // exponent
    data.extend_from_slice(&publish_time.to_le_bytes());
    data.extend_from_slice(&(publish_time - 1).to_le_bytes()); // previous publish time
    data.extend_from_slice(&price.to_le_bytes()); // moving average price
    data.extend_from_slice(&30u64.to_le_bytes()); // moving average confidence
    data.extend_from_slice(&99u64.to_le_bytes()); // posted slot
    data
}

#[test]
fn reads_price_from_account_bytes() {
    let feed = [3u8; 32];
    let data = update_bytes(feed, 120, 1_000);
    assert_eq!(read_settlement_price(&data, &feed, 1_010), Ok(120));
}

#[test]
fn drops_the_sign_of_the_price() {
    let feed = [3u8; 32];
    let data = update_bytes(feed, -120, 1_000);
    assert_eq!(read_settlement_price(&data, &feed, 1_010), Ok(120));
    assert_eq!(magnitude(i64::MIN), 1u64 << 63);
    assert_eq!(magnitude(i64::MAX), i64::MAX as u64);
    assert_eq!(magnitude(0), 0);
}

#[test]
fn rejects_bytes_that_are_no_update() {
    let feed = [3u8; 32];
    assert_eq!(read_settlement_price(&[], &feed, 1_010), Err(ErrorCode::PriceTooStale));
    let mut data = update_bytes(feed, 120, 1_000);
    data.push(0);
    assert_eq!(read_settlement_price(&data, &feed, 1_010), Err(ErrorCode::PriceTooStale));
}

#[test]
fn rejects_update_for_another_feed() {
    let data = update_bytes([3u8; 32], 120, 1_000);
    assert_eq!(
        read_settlement_price(&data, &[4u8; 32], 1_010),
        Err(ErrorCode::PythFeedIdMismatch)
    );
}

#[test]
fn rejects_stale_update() {
    let feed = [3u8; 32];
    let data = update_bytes(feed, 120, 1_000);
    assert_eq!(read_settlement_price(&data, &feed, 1_059), Ok(120));
    assert_eq!(read_settlement_price(&data, &feed, 1_060), Err(ErrorCode::PriceTooStale));
}

#[test]
fn feed_mismatch_comes_before_staleness() {
    let update = PriceUpdate {
        feed_id: [3u8; 32],
        price: 5,
        conf: 0,
        exponent: 0,
        publish_time: 0,
    };
    assert_eq!(
        check_price_update(Some(update), &[9u8; 32], 1_000_000),
        Err(ErrorCode::PythFeedIdMismatch)
    );
    assert_eq!(check_price_update(None, &[9u8; 32], 0), Err(ErrorCode::PriceTooStale));
}

#[test]
fn accepts_update_from_the_future() {
    let update = PriceUpdate {
        feed_id: [3u8; 32],
        price: 5,
        conf: 0,
        exponent: 0,
        publish_time: i64::MAX,
    };
    assert_eq!(check_price_update(Some(update), &[3u8; 32], i64::MIN), Ok(5));
}
