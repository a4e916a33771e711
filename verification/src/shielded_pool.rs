//! Shielded aggregate coordination: one record per market tracks the
//! external secure-computation authority's encrypted running totals for that
//! market's shielded wagers, with a one-way finalization latch. The engine
//! trusts the bound authority's arithmetic unconditionally; it only enforces
//! who may write, the ciphertext size, and the latch.

use crate::errors::IlowaError;
use crate::keys::{keys_equal, AccountKey};
use crate::light::LightMarketStub;
use vstd::prelude::*;

verus! {

/// Longest admissible aggregate ciphertext, in bytes.
pub const MAX_AGGREGATE_CIPHERTEXT: usize = 80;

/// Encrypted running totals of one market's shielded wagers, writable only
/// by `mxe_authority` until `is_finalized` latches.
#[derive(Clone)]
pub struct ShieldedPoolAggregate {
    pub market: AccountKey,
    pub encrypted_yes_total: Vec<u8>,
    pub encrypted_no_total: Vec<u8>,
    pub total_shielded_bets: u32,
    pub last_updated: i64,
    pub mxe_authority: AccountKey,
    pub is_finalized: bool,
}

/// Why `init_shielded_pool` rejects, or `Ok` when it must succeed.
pub open spec fn init_shielded_pool_check(
    m: LightMarketStub,
    creator: AccountKey,
) -> Result<(), IlowaError> {
    if m.creator@ != creator@ {
        Err(IlowaError::Unauthorized)
    } else {
        Ok(())
    }
}

/// Creates the aggregate record for a market, bound to exactly one external
/// authority, empty and unfinalized. Only the market's creator may do so.
pub fn init_shielded_pool(
    market: &LightMarketStub,
    market_key: AccountKey,
    creator: AccountKey,
    mxe_authority: AccountKey,
) -> (r: Result<ShieldedPoolAggregate, IlowaError>)
    ensures
        r is Ok <==> init_shielded_pool_check(*market, creator) is Ok,
        r matches Err(e) ==> init_shielded_pool_check(*market, creator) == Err::<(), IlowaError>(e),
        r matches Ok(p) ==> ({
            &&& p.market == market_key
            &&& p.mxe_authority == mxe_authority
            &&& p.encrypted_yes_total@ == Seq::<u8>::empty()
            &&& p.encrypted_no_total@ == Seq::<u8>::empty()
            &&& p.total_shielded_bets == 0
            &&& p.last_updated == 0
            &&& !p.is_finalized
        }),
{
    if !keys_equal(&market.creator, &creator) {
        return Err(IlowaError::Unauthorized);
    }
    let p = ShieldedPoolAggregate {
        market: market_key,
        encrypted_yes_total: Vec::new(),
        encrypted_no_total: Vec::new(),
        total_shielded_bets: 0,
        last_updated: 0,
        mxe_authority,
        is_finalized: false,
    };
    Ok(p)
}

/// Why `submit_shielded_aggregate` rejects, or `Ok` when it must succeed.
pub open spec fn submit_aggregate_check(
    p: ShieldedPoolAggregate,
    caller: AccountKey,
    yes_len: int,
    no_len: int,
) -> Result<(), IlowaError> {
    if p.mxe_authority@ != caller@ {
        Err(IlowaError::NotMxeAuthority)
    } else if p.is_finalized {
        Err(IlowaError::ShieldedPoolFinalized)
    } else if yes_len > MAX_AGGREGATE_CIPHERTEXT || no_len > MAX_AGGREGATE_CIPHERTEXT {
        Err(IlowaError::InvalidEncryptedData)
    } else {
        Ok(())
    }
}

/// Stores whatever totals the bound authority submits — writes are
/// unrestricted in content, only the writer, the ciphertext size and the
/// latch are enforced — and optionally latches `is_finalized` permanently.
pub fn submit_shielded_aggregate(
    pool: &mut ShieldedPoolAggregate,
    caller: AccountKey,
    encrypted_yes_total: Vec<u8>,
    encrypted_no_total: Vec<u8>,
    total_shielded_bets: u32,
    finalize: bool,
    now: i64,
) -> (r: Result<(), IlowaError>)
    ensures
        r is Ok <==> submit_aggregate_check(
            *old(pool),
            caller,
            encrypted_yes_total@.len() as int,
            encrypted_no_total@.len() as int,
        ) is Ok,
        r matches Err(e) ==> submit_aggregate_check(
            *old(pool),
            caller,
            encrypted_yes_total@.len() as int,
            encrypted_no_total@.len() as int,
        ) == Err::<(), IlowaError>(e) && *final(pool) == *old(pool),
        r is Ok ==> *final(pool) == (ShieldedPoolAggregate {
            encrypted_yes_total,
            encrypted_no_total,
            total_shielded_bets,
            last_updated: now,
            is_finalized: finalize,
            ..*old(pool)
        }),
{
    if !keys_equal(&pool.mxe_authority, &caller) {
        return Err(IlowaError::NotMxeAuthority);
    }
    if pool.is_finalized {
        return Err(IlowaError::ShieldedPoolFinalized);
    }
    if encrypted_yes_total.len() > MAX_AGGREGATE_CIPHERTEXT || encrypted_no_total.len()
        > MAX_AGGREGATE_CIPHERTEXT {
        return Err(IlowaError::InvalidEncryptedData);
    }
    pool.encrypted_yes_total = encrypted_yes_total;
    pool.encrypted_no_total = encrypted_no_total;
    pool.total_shielded_bets = total_shielded_bets;
    pool.last_updated = now;
    pool.is_finalized = finalize;
    Ok(())
}

/// Finalization is a one-way latch: once a pool is finalized, no submission
/// touches it again — every later write fails, and for the bound authority
/// it fails precisely with `ShieldedPoolFinalized`.
pub proof fn lemma_finalization_latch(
    p: ShieldedPoolAggregate,
    caller: AccountKey,
    yes_len: int,
    no_len: int,
)
    requires
        p.is_finalized,
    ensures
        submit_aggregate_check(p, caller, yes_len, no_len) is Err,
        p.mxe_authority@ == caller@ ==> submit_aggregate_check(p, caller, yes_len, no_len) == Err::<
            (),
            IlowaError,
        >(IlowaError::ShieldedPoolFinalized),
{
}

} // verus!
