//! The price-feed reader and the oracle resolution path: magic, exponent,
//! staleness and status validation, and the outcome-match requirement.

use ilowa::errors::IlowaError;
use ilowa::light::{
    create_light_market, resolve_light_market_oracle, LightMarketStub, OUTCOME_NO, OUTCOME_YES,
};
use ilowa::oracle::read_pyth_price;

fn key(tag: u8) -> [u8; 32] {
    let mut k = [0u8; 32];
    k[0] = tag;
    k
}

fn put_u32(buf: &mut Vec<u8>, off: usize, v: u32) {
    let b = v.to_le_bytes();
    buf[off..off + 4].copy_from_slice(&b);
}

fn put_u64(buf: &mut Vec<u8>, off: usize, v: u64) {
    let b = v.to_le_bytes();
    buf[off..off + 8].copy_from_slice(&b);
}

/// A well-formed live feed: given exponent, aggregate price, publish slot.
fn feed(expo: i32, price: i64, pub_slot: u64) -> Vec<u8> {
    let mut buf = vec![0u8; 240];
    put_u32(&mut buf, 0, 0xa1b2c3d4);
    put_u32(&mut buf, 20, expo as u32);
    put_u64(&mut buf, 208, price as u64);
    put_u32(&mut buf, 224, 1); // trading
    put_u64(&mut buf, 232, pub_slot);
    buf
}

fn oracle_market(authority: [u8; 32], threshold: i64, above: bool) -> LightMarketStub {
    create_light_market(key(1), [7u8; 32], 3, 2, 2000, authority, threshold, above, 1000).unwrap()
}

#[test]
fn read_pyth_price_accepts_live_feed() {
    let f = feed(-8, 12_000_000_000, 100);
    assert_eq!(read_pyth_price(&f, 100), Ok(12_000_000_000));
    // Up to the full freshness window behind the current slot is fine.
    assert_eq!(read_pyth_price(&f, 125), Ok(12_000_000_000));
    // A negative price round-trips through two's complement.
    let f = feed(-8, -42, 100);
    assert_eq!(read_pyth_price(&f, 100), Ok(-42));
}

#[test]
fn read_pyth_price_rejects_short_buffer() {
    let f = vec![0u8; 239];
    assert_eq!(read_pyth_price(&f, 100), Err(IlowaError::InvalidOracleAccount));
}

#[test]
fn read_pyth_price_rejects_wrong_magic_regardless_of_rest() {
    let mut f = feed(-8, 12_000_000_000, 100);
    put_u32(&mut f, 0, 0xa1b2c3d5);
    assert_eq!(read_pyth_price(&f, 100), Err(IlowaError::InvalidOracleAccount));
}

#[test]
fn read_pyth_price_rejects_bad_exponent() {
    let f = feed(-13, 12_000_000_000, 100);
    assert_eq!(read_pyth_price(&f, 100), Err(IlowaError::InvalidOracleExponent));
    let f = feed(1, 12_000_000_000, 100);
    assert_eq!(read_pyth_price(&f, 100), Err(IlowaError::InvalidOracleExponent));
}

#[test]
fn read_pyth_price_rejects_stale_slot_regardless_of_price() {
    // 26 slots behind: one past the freshness window.
    let f = feed(-8, 12_000_000_000, 100);
    assert_eq!(read_pyth_price(&f, 126), Err(IlowaError::OraclePriceStale));
    // A zero publish slot is never fresh.
    let f = feed(-8, 999, 0);
    assert_eq!(read_pyth_price(&f, 10), Err(IlowaError::OraclePriceStale));
}

#[test]
fn read_pyth_price_rejects_non_trading_status() {
    let mut f = feed(-8, 12_000_000_000, 100);
    put_u32(&mut f, 224, 2); // halted
    assert_eq!(read_pyth_price(&f, 100), Err(IlowaError::OraclePriceStale));
}

#[test]
fn oracle_resolution_reads_feed_and_checks_outcome() {
    // Threshold 12_000_000_000, direction "above": the feed price equals the
    // threshold, so YES is the only acceptable outcome.
    let mut m = oracle_market(key(5), 12_000_000_000, true);
    let f = Some(feed(-8, 12_000_000_000, 100));
    let r = resolve_light_market_oracle(&mut m, key(5), &f, 0, false, 100);
    assert_eq!(r.err(), Some(IlowaError::OraclePriceMismatch));
    assert!(!m.resolved);
    let r = resolve_light_market_oracle(&mut m, key(5), &f, 0, true, 100);
    assert!(r.is_ok());
    assert!(m.resolved);
    assert!(!m.is_active);
    assert_eq!(m.outcome, OUTCOME_YES);
}

#[test]
fn oracle_resolution_stale_feed_fails_whatever_the_price() {
    let mut m = oracle_market(key(5), 0, true);
    let f = Some(feed(-8, i64::MAX, 100));
    let r = resolve_light_market_oracle(&mut m, key(5), &f, 0, true, 200);
    assert_eq!(r.err(), Some(IlowaError::OraclePriceStale));
    assert!(!m.resolved);
}

#[test]
fn oracle_resolution_manual_attestation_path() {
    // No feed: the sentinel path trusts the attested price outright.
    let mut m = oracle_market(key(5), 100, false);
    let r = resolve_light_market_oracle(&mut m, key(5), &None, 101, true, 50);
    assert_eq!(r.err(), Some(IlowaError::OraclePriceMismatch));
    let r = resolve_light_market_oracle(&mut m, key(5), &None, 101, false, 50);
    assert!(r.is_ok());
    assert_eq!(m.outcome, OUTCOME_NO);
}

#[test]
fn oracle_resolution_authorization_guards() {
    let mut m = oracle_market(key(5), 100, true);
    let r = resolve_light_market_oracle(&mut m, key(6), &None, 200, true, 50);
    assert_eq!(r.err(), Some(IlowaError::Unauthorized));
    // A market with no oracle bound: the zero authority can never resolve.
    let mut plain = oracle_market([0u8; 32], 100, true);
    let r = resolve_light_market_oracle(&mut plain, [0u8; 32], &None, 200, true, 50);
    assert_eq!(r.err(), Some(IlowaError::OracleNotSet));
}

#[test]
fn oracle_resolution_already_resolved_fails() {
    let mut m = oracle_market(key(5), 100, true);
    resolve_light_market_oracle(&mut m, key(5), &None, 200, true, 50).unwrap();
    let r = resolve_light_market_oracle(&mut m, key(5), &None, 200, true, 50);
    assert_eq!(r.err(), Some(IlowaError::MarketAlreadyResolved));
}
