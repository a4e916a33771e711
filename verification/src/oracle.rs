//! Price-feed record reader: parses a fixed-layout external price record
//! (little-endian fields at fixed offsets) into a validated price, without
//! trusting the caller's claims about its contents. Stateless — a pure
//! function of the bytes and the current host slot.

use crate::errors::IlowaError;
use vstd::prelude::*;

verus! {

/// Leading magic constant of a genuine price record.
pub const PYTH_MAGIC: u32 = 0xa1b2c3d4;
/// Freshness window: a price published more than this many slots ago is
/// stale.
pub const MAX_PRICE_AGE_SLOTS: u64 = 25;

/// The unsigned 32-bit little-endian value of the four bytes at `i`.
pub open spec fn u32_le(s: Seq<u8>, i: int) -> int
    recommends
        0 <= i,
        i + 4 <= s.len(),
{
    s[i] + 0x100 * (s[i + 1] + 0x100 * (s[i + 2] + 0x100 * s[i + 3]))
}

/// The signed 32-bit little-endian value of the four bytes at `i`
/// (two's complement).
pub open spec fn i32_le(s: Seq<u8>, i: int) -> int
    recommends
        0 <= i,
        i + 4 <= s.len(),
{
    if u32_le(s, i) < 0x8000_0000 {
        u32_le(s, i)
    } else {
        u32_le(s, i) - 0x1_0000_0000
    }
}

/// The unsigned 64-bit little-endian value of the eight bytes at `i`.
pub open spec fn u64_le(s: Seq<u8>, i: int) -> int
    recommends
        0 <= i,
        i + 8 <= s.len(),
{
    u32_le(s, i) + 0x1_0000_0000 * u32_le(s, i + 4)
}

/// The signed 64-bit little-endian value of the eight bytes at `i`
/// (two's complement).
pub open spec fn i64_le(s: Seq<u8>, i: int) -> int
    recommends
        0 <= i,
        i + 8 <= s.len(),
{
    if u64_le(s, i) < 0x8000_0000_0000_0000 {
        u64_le(s, i)
    } else {
        u64_le(s, i) - 0x1_0000_0000_0000_0000
    }
}

/// Reads the unsigned 32-bit little-endian field at `off`.
pub fn read_u32_le(data: &[u8], off: usize) -> (r: u32)
    requires
        off + 4 <= data@.len(),
    ensures
        r == u32_le(data@, off as int),
{
    let b0 = data[off] as u32;
    let b1 = data[off + 1] as u32;
    let b2 = data[off + 2] as u32;
    let b3 = data[off + 3] as u32;
    b0 + 0x100 * (b1 + 0x100 * (b2 + 0x100 * b3))
}

/// Reads the signed 32-bit little-endian field at `off`.
pub fn read_i32_le(data: &[u8], off: usize) -> (r: i32)
    requires
        off + 4 <= data@.len(),
    ensures
        r == i32_le(data@, off as int),
{
    let u = read_u32_le(data, off);
    if u < 0x8000_0000 {
        u as i32
    } else {
        -((u32::MAX - u) as i32) - 1
    }
}

/// Reads the unsigned 64-bit little-endian field at `off`.
pub fn read_u64_le(data: &[u8], off: usize) -> (r: u64)
    requires
        off + 8 <= data@.len(),
    ensures
        r == u64_le(data@, off as int),
{
    proof {
        vstd::slice::axiom_spec_len::<u8>(data);
    }
    let lo = read_u32_le(data, off) as u64;
    let hi = read_u32_le(data, off + 4) as u64;
    lo + 0x1_0000_0000 * hi
}

/// Reads the signed 64-bit little-endian field at `off`.
pub fn read_i64_le(data: &[u8], off: usize) -> (r: i64)
    requires
        off + 8 <= data@.len(),
    ensures
        r == i64_le(data@, off as int),
{
    let u = read_u64_le(data, off);
    if u < 0x8000_0000_0000_0000 {
        u as i64
    } else {
        -((u64::MAX - u) as i64) - 1
    }
}

/// What reading a claimed price record yields: the validated aggregate
/// price, or the first failed check. Field offsets, little-endian: magic at
/// 0, exponent at 20, aggregate price at 208, trading status at 224, publish
/// slot at 232; a record shorter than 240 bytes cannot be genuine.
pub open spec fn pyth_read(data: Seq<u8>, current_slot: u64) -> Result<i64, IlowaError> {
    if data.len() < 240 {
        Err(IlowaError::InvalidOracleAccount)
    } else if u32_le(data, 0) != PYTH_MAGIC {
        Err(IlowaError::InvalidOracleAccount)
    } else if !(-12 <= i32_le(data, 20) <= 0) {
        Err(IlowaError::InvalidOracleExponent)
    } else if !(u64_le(data, 232) > 0 && (current_slot <= u64_le(data, 232) || current_slot - u64_le(
        data,
        232,
    ) <= MAX_PRICE_AGE_SLOTS)) {
        Err(IlowaError::OraclePriceStale)
    } else if u32_le(data, 224) != 1 {
        Err(IlowaError::OraclePriceStale)
    } else {
        Ok((i64_le(data, 208)) as i64)
    }
}

/// Parses and validates a claimed price record against the current slot and
/// returns its aggregate price. Each malformed or stale field is a distinct
/// rejection: short buffer or wrong magic, exponent outside `[-12, 0]`,
/// publish slot zero or more than the freshness window behind the current
/// slot, or a status other than live trading.
pub fn read_pyth_price(data: &[u8], current_slot: u64) -> (r: Result<i64, IlowaError>)
    ensures
        r == pyth_read(data@, current_slot),
{
    if data.len() < 240 {
        return Err(IlowaError::InvalidOracleAccount);
    }
    let magic = read_u32_le(data, 0);
    if magic != PYTH_MAGIC {
        return Err(IlowaError::InvalidOracleAccount);
    }
    let expo = read_i32_le(data, 20);
    if expo < -12 || expo > 0 {
        return Err(IlowaError::InvalidOracleExponent);
    }
    let pub_slot = read_u64_le(data, 232);
    if !(pub_slot > 0 && (current_slot <= pub_slot || current_slot - pub_slot
        <= MAX_PRICE_AGE_SLOTS)) {
        return Err(IlowaError::OraclePriceStale);
    }
    let status = read_u32_le(data, 224);
    if status != 1 {
        return Err(IlowaError::OraclePriceStale);
    }
    Ok(read_i64_le(data, 208))
}

/// A record that is too short, or whose leading magic bytes are wrong, is
/// never accepted: reading it always fails with `InvalidOracleAccount`,
/// whatever the rest of its bytes say.
pub proof fn lemma_bad_magic_rejected(data: Seq<u8>, current_slot: u64)
    requires
        data.len() < 240 || u32_le(data, 0) != PYTH_MAGIC,
    ensures
        pyth_read(data, current_slot) == Err::<i64, IlowaError>(IlowaError::InvalidOracleAccount),
{
}

/// A stale price is never accepted: if the publish slot is zero or lies more
/// than the freshness window behind the current slot, reading an otherwise
/// well-formed record always fails with `OraclePriceStale`, whatever price
/// value the record carries.
pub proof fn lemma_stale_price_rejected(data: Seq<u8>, current_slot: u64)
    requires
        data.len() >= 240,
        u32_le(data, 0) == PYTH_MAGIC,
        -12 <= i32_le(data, 20) <= 0,
        u64_le(data, 232) == 0 || (u64_le(data, 232) < current_slot && current_slot - u64_le(
            data,
            232,
        ) > MAX_PRICE_AGE_SLOTS),
    ensures
        pyth_read(data, current_slot) == Err::<i64, IlowaError>(IlowaError::OraclePriceStale),
{
}

} // verus!
