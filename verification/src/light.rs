//! The light market variant: a compact fixed-layout record (question stored
//! as a hash, small-integer category and region) with an optional oracle
//! binding, plain and shielded wager admission, manual and oracle-verified
//! resolution, and a ratio-form claim computed in 128-bit intermediates.

use crate::compressed::ONE_YEAR;
use crate::errors::IlowaError;
use crate::keys::{is_zero_key, key_is_zero, keys_equal, AccountKey};
use crate::oracle::{pyth_read, read_pyth_price};
use crate::payout::{
    fee_of, lemma_fee_split, net_of, payout_ratio, MAX_BET, MIN_BET, PLATFORM_FEE_BPS,
};
use vstd::prelude::*;

verus! {

/// Largest admissible category code.
pub const MAX_CATEGORY: u8 = 6;
/// Largest admissible region code.
pub const MAX_REGION: u8 = 8;
/// Exact ciphertext length of a shielded light wager, in bytes.
pub const LIGHT_CIPHERTEXT_LEN: usize = 80;
/// Exact proof-blob length of a shielded light wager, in bytes.
pub const LIGHT_PROOF_LEN: usize = 64;

/// Outcome code of an unresolved light market.
pub const OUTCOME_UNRESOLVED: u8 = 0;
/// Outcome code for a YES resolution.
pub const OUTCOME_YES: u8 = 1;
/// Outcome code for a NO resolution.
pub const OUTCOME_NO: u8 = 2;

/// A light market record. An all-zero `oracle_authority` means manual-only
/// resolution; otherwise that authority may resolve against a price feed,
/// with YES winning when the price is at or above `oracle_threshold` if
/// `oracle_above` is set, and at or below it otherwise.
#[derive(Clone)]
pub struct LightMarketStub {
    pub creator: AccountKey,
    pub question_hash: [u8; 32],
    pub category: u8,
    pub region: u8,
    pub resolve_date: i64,
    pub yes_pool: u64,
    pub no_pool: u64,
    pub total_bets: u32,
    pub shielded_bet_count: u32,
    pub is_active: bool,
    pub resolved: bool,
    pub outcome: u8,
    pub created_at: i64,
    pub oracle_authority: AccountKey,
    pub oracle_threshold: i64,
    pub oracle_above: bool,
}

/// A plain stake on a light market, net of the platform fee.
#[derive(Clone)]
pub struct LightBetStub {
    pub market: AccountKey,
    pub bettor: AccountKey,
    pub amount: u64,
    pub outcome: bool,
    pub timestamp: i64,
    pub claimed: bool,
}

/// A shielded stake on a light market: fixed-length ciphertext and proof
/// blob, no plaintext amount.
#[derive(Clone)]
pub struct ShieldedLightBetStub {
    pub market: AccountKey,
    pub bettor: AccountKey,
    pub encrypted_amount: Vec<u8>,
    pub outcome: bool,
    pub zk_proof: Vec<u8>,
    pub timestamp: i64,
    pub claimed: bool,
}

/// Why `create_light_market` rejects, or `Ok` when it must succeed.
pub open spec fn create_light_market_check(
    category: u8,
    region: u8,
    resolve_date: i64,
    now: i64,
) -> Result<(), IlowaError> {
    if category > MAX_CATEGORY {
        Err(IlowaError::InvalidCategory)
    } else if region > MAX_REGION {
        Err(IlowaError::InvalidRegion)
    } else if resolve_date <= now {
        Err(IlowaError::InvalidResolveDate)
    } else if resolve_date >= now + ONE_YEAR {
        Err(IlowaError::ResolveDateTooFar)
    } else {
        Ok(())
    }
}

/// Opens a light market: category and region must be known codes and the
/// resolve date strictly in the future but less than a year away. The oracle
/// binding is stored as given; an all-zero authority leaves the market
/// manual-only.
pub fn create_light_market(
    creator: AccountKey,
    question_hash: [u8; 32],
    category: u8,
    region: u8,
    resolve_date: i64,
    oracle_authority: AccountKey,
    oracle_threshold: i64,
    oracle_above: bool,
    now: i64,
) -> (r: Result<LightMarketStub, IlowaError>)
    ensures
        r is Ok <==> create_light_market_check(category, region, resolve_date, now) is Ok,
        r matches Err(e) ==> create_light_market_check(category, region, resolve_date, now)
            == Err::<(), IlowaError>(e),
        r matches Ok(m) ==> m == (LightMarketStub {
            creator,
            question_hash,
            category,
            region,
            resolve_date,
            yes_pool: 0,
            no_pool: 0,
            total_bets: 0,
            shielded_bet_count: 0,
            is_active: true,
            resolved: false,
            outcome: OUTCOME_UNRESOLVED,
            created_at: now,
            oracle_authority,
            oracle_threshold,
            oracle_above,
        }),
{
    if category > MAX_CATEGORY {
        return Err(IlowaError::InvalidCategory);
    }
    if region > MAX_REGION {
        return Err(IlowaError::InvalidRegion);
    }
    if resolve_date <= now {
        return Err(IlowaError::InvalidResolveDate);
    }
    match now.checked_add(ONE_YEAR) {
        Some(limit) => {
            if resolve_date >= limit {
                return Err(IlowaError::ResolveDateTooFar);
            }
        },
        None => {
            // `now + ONE_YEAR` exceeds every representable date, so the bound
            // cannot be violated.
        },
    }
    Ok(
        LightMarketStub {
            creator,
            question_hash,
            category,
            region,
            resolve_date,
            yes_pool: 0,
            no_pool: 0,
            total_bets: 0,
            shielded_bet_count: 0,
            is_active: true,
            resolved: false,
            outcome: OUTCOME_UNRESOLVED,
            created_at: now,
            oracle_authority,
            oracle_threshold,
            oracle_above,
        },
    )
}

/// Why `place_light_bet` rejects, or `Ok` when it must succeed.
pub open spec fn place_light_bet_check(
    m: LightMarketStub,
    amount: u64,
    outcome: bool,
    now: i64,
) -> Result<(), IlowaError> {
    if !m.is_active {
        Err(IlowaError::MarketNotActive)
    } else if amount < MIN_BET {
        Err(IlowaError::BetTooSmall)
    } else if amount > MAX_BET {
        Err(IlowaError::BetTooLarge)
    } else if now >= m.resolve_date {
        Err(IlowaError::MarketExpired)
    } else if (if outcome {
        m.yes_pool
    } else {
        m.no_pool
    }) + net_of(amount) > u64::MAX || m.total_bets + 1 > u32::MAX {
        Err(IlowaError::ArithmeticOverflow)
    } else {
        Ok(())
    }
}

/// Admits a plain wager on an active, unexpired light market: splits the
/// stake into fee and net, credits the chosen pool with the net, counts the
/// bet, and returns the new bet record with the fee. The host must move
/// `fee` to the treasury and `bet.amount` to the market vault atomically
/// with committing the records.
pub fn place_light_bet(
    market: &mut LightMarketStub,
    market_key: AccountKey,
    bettor: AccountKey,
    amount: u64,
    outcome: bool,
    now: i64,
) -> (r: Result<(LightBetStub, u64), IlowaError>)
    ensures
        r is Ok <==> place_light_bet_check(*old(market), amount, outcome, now) is Ok,
        r matches Err(e) ==> place_light_bet_check(*old(market), amount, outcome, now) == Err::<
            (),
            IlowaError,
        >(e) && *final(market) == *old(market),
        r matches Ok(p) ==> ({
            &&& p.1 == fee_of(amount)
            &&& p.0 == (LightBetStub {
                market: market_key,
                bettor,
                amount: (net_of(amount)) as u64,
                outcome,
                timestamp: now,
                claimed: false,
            })
            &&& p.1 + p.0.amount == amount
            &&& final(market).yes_pool == old(market).yes_pool + (if outcome {
                net_of(amount)
            } else {
                0
            })
            &&& final(market).no_pool == old(market).no_pool + (if outcome {
                0
            } else {
                net_of(amount)
            })
            &&& final(market).total_bets == old(market).total_bets + 1
            &&& *final(market) == (LightMarketStub {
                yes_pool: final(market).yes_pool,
                no_pool: final(market).no_pool,
                total_bets: final(market).total_bets,
                ..*old(market)
            })
        }),
{
    if !market.is_active {
        return Err(IlowaError::MarketNotActive);
    }
    if amount < MIN_BET {
        return Err(IlowaError::BetTooSmall);
    }
    if amount > MAX_BET {
        return Err(IlowaError::BetTooLarge);
    }
    if now >= market.resolve_date {
        return Err(IlowaError::MarketExpired);
    }
    proof {
        lemma_fee_split(amount);
    }
    let fee = amount * PLATFORM_FEE_BPS / 10_000;
    let net = amount - fee;
    let (new_yes, new_no) = if outcome {
        match market.yes_pool.checked_add(net) {
            Some(p) => (p, market.no_pool),
            None => {
                return Err(IlowaError::ArithmeticOverflow);
            },
        }
    } else {
        match market.no_pool.checked_add(net) {
            Some(p) => (market.yes_pool, p),
            None => {
                return Err(IlowaError::ArithmeticOverflow);
            },
        }
    };
    let new_total = match market.total_bets.checked_add(1) {
        Some(t) => t,
        None => {
            return Err(IlowaError::ArithmeticOverflow);
        },
    };
    market.yes_pool = new_yes;
    market.no_pool = new_no;
    market.total_bets = new_total;
    Ok(
        (
            LightBetStub {
                market: market_key,
                bettor,
                amount: net,
                outcome,
                timestamp: now,
                claimed: false,
            },
            fee,
        ),
    )
}

/// Why `place_shielded_light_bet` rejects, or `Ok` when it must succeed.
pub open spec fn place_shielded_light_bet_check(
    m: LightMarketStub,
    enc_len: int,
    proof_len: int,
    now: i64,
) -> Result<(), IlowaError> {
    if !m.is_active {
        Err(IlowaError::MarketNotActive)
    } else if enc_len != LIGHT_CIPHERTEXT_LEN {
        Err(IlowaError::InvalidEncryptedData)
    } else if proof_len != LIGHT_PROOF_LEN {
        Err(IlowaError::InvalidZkProof)
    } else if now >= m.resolve_date {
        Err(IlowaError::MarketExpired)
    } else if m.total_bets + 1 > u32::MAX || m.shielded_bet_count + 1 > u32::MAX {
        Err(IlowaError::ArithmeticOverflow)
    } else {
        Ok(())
    }
}

/// Admits a shielded wager on an active, unexpired light market: the
/// ciphertext and proof blob must have exactly their expected lengths
/// (structural validation only), both counters advance, and the pools stay
/// untouched. The host must move the flat `PRIVACY_FEE` to the treasury
/// atomically with committing the records.
pub fn place_shielded_light_bet(
    market: &mut LightMarketStub,
    market_key: AccountKey,
    bettor: AccountKey,
    encrypted_amount: Vec<u8>,
    zk_proof: Vec<u8>,
    outcome: bool,
    now: i64,
) -> (r: Result<ShieldedLightBetStub, IlowaError>)
    ensures
        r is Ok <==> place_shielded_light_bet_check(
            *old(market),
            encrypted_amount@.len() as int,
            zk_proof@.len() as int,
            now,
        ) is Ok,
        r matches Err(e) ==> place_shielded_light_bet_check(
            *old(market),
            encrypted_amount@.len() as int,
            zk_proof@.len() as int,
            now,
        ) == Err::<(), IlowaError>(e) && *final(market) == *old(market),
        r matches Ok(b) ==> ({
            &&& b == (ShieldedLightBetStub {
                market: market_key,
                bettor,
                encrypted_amount,
                outcome,
                zk_proof,
                timestamp: now,
                claimed: false,
            })
            &&& *final(market) == (LightMarketStub {
                total_bets: (old(market).total_bets + 1) as u32,
                shielded_bet_count: (old(market).shielded_bet_count + 1) as u32,
                ..*old(market)
            })
        }),
{
    if !market.is_active {
        return Err(IlowaError::MarketNotActive);
    }
    if encrypted_amount.len() != LIGHT_CIPHERTEXT_LEN {
        return Err(IlowaError::InvalidEncryptedData);
    }
    if zk_proof.len() != LIGHT_PROOF_LEN {
        return Err(IlowaError::InvalidZkProof);
    }
    if now >= market.resolve_date {
        return Err(IlowaError::MarketExpired);
    }
    let new_total = match market.total_bets.checked_add(1) {
        Some(t) => t,
        None => {
            return Err(IlowaError::ArithmeticOverflow);
        },
    };
    let new_shielded = match market.shielded_bet_count.checked_add(1) {
        Some(t) => t,
        None => {
            return Err(IlowaError::ArithmeticOverflow);
        },
    };
    market.total_bets = new_total;
    market.shielded_bet_count = new_shielded;
    Ok(
        ShieldedLightBetStub {
            market: market_key,
            bettor,
            encrypted_amount,
            outcome,
            zk_proof,
            timestamp: now,
            claimed: false,
        },
    )
}

/// Why `resolve_light_market` rejects, or `Ok` when it must succeed.
pub open spec fn resolve_light_market_check(
    m: LightMarketStub,
    resolver: AccountKey,
    now: i64,
) -> Result<(), IlowaError> {
    if m.creator@ != resolver@ {
        Err(IlowaError::Unauthorized)
    } else if m.resolved {
        Err(IlowaError::MarketAlreadyResolved)
    } else if !m.is_active {
        Err(IlowaError::MarketNotActive)
    } else if now < m.resolve_date {
        Err(IlowaError::MarketNotExpired)
    } else {
        Ok(())
    }
}

/// Manual resolution of a light market: only the creator, only once the
/// resolve date has passed, only while still active and unresolved.
pub fn resolve_light_market(
    market: &mut LightMarketStub,
    resolver: AccountKey,
    outcome: bool,
    now: i64,
) -> (r: Result<(), IlowaError>)
    ensures
        r is Ok <==> resolve_light_market_check(*old(market), resolver, now) is Ok,
        r matches Err(e) ==> resolve_light_market_check(*old(market), resolver, now) == Err::<
            (),
            IlowaError,
        >(e) && *final(market) == *old(market),
        r is Ok ==> *final(market) == (LightMarketStub {
            resolved: true,
            is_active: false,
            outcome: if outcome {
                OUTCOME_YES
            } else {
                OUTCOME_NO
            },
            ..*old(market)
        }),
{
    if !keys_equal(&market.creator, &resolver) {
        return Err(IlowaError::Unauthorized);
    }
    if market.resolved {
        return Err(IlowaError::MarketAlreadyResolved);
    }
    if !market.is_active {
        return Err(IlowaError::MarketNotActive);
    }
    if now < market.resolve_date {
        return Err(IlowaError::MarketNotExpired);
    }
    market.resolved = true;
    market.is_active = false;
    market.outcome = if outcome {
        OUTCOME_YES
    } else {
        OUTCOME_NO
    };
    Ok(())
}

/// The outcome the oracle comparison demands for `price`: YES exactly when
/// the price is at or above the threshold if `oracle_above` is set, at or
/// below it otherwise.
pub open spec fn oracle_expected_outcome(m: LightMarketStub, price: i64) -> bool {
    if m.oracle_above {
        price >= m.oracle_threshold
    } else {
        price <= m.oracle_threshold
    }
}

/// Why `resolve_light_market_oracle` rejects, or `Ok` when it must succeed.
/// `feed` carries the raw price-feed record, or `None` for the designated
/// "no feed" sentinel with a manually attested price.
pub open spec fn resolve_light_oracle_check(
    m: LightMarketStub,
    caller: AccountKey,
    feed: Option<Seq<u8>>,
    attested_price: i64,
    outcome: bool,
    current_slot: u64,
) -> Result<(), IlowaError> {
    if m.oracle_authority@ != caller@ {
        Err(IlowaError::Unauthorized)
    } else if is_zero_key(m.oracle_authority) {
        Err(IlowaError::OracleNotSet)
    } else if m.resolved {
        Err(IlowaError::MarketAlreadyResolved)
    } else if !m.is_active {
        Err(IlowaError::MarketNotActive)
    } else {
        match feed {
            None => if outcome != oracle_expected_outcome(m, attested_price) {
                Err(IlowaError::OraclePriceMismatch)
            } else {
                Ok(())
            },
            Some(d) => match pyth_read(d, current_slot) {
                Err(e) => Err(e),
                Ok(price) => if outcome != oracle_expected_outcome(m, price) {
                    Err(IlowaError::OraclePriceMismatch)
                } else {
                    Ok(())
                },
            },
        }
    }
}

/// Oracle-verified resolution: only the bound oracle authority, only on a
/// market that has one, only while unresolved and active. With a feed record
/// the price is read and validated from the bytes and the attested price is
/// ignored; without one the attested price is trusted outright. Either way
/// the caller's claimed outcome must match the comparison of the effective
/// price against the stored threshold exactly, or nothing changes.
pub fn resolve_light_market_oracle(
    market: &mut LightMarketStub,
    caller: AccountKey,
    feed: &Option<Vec<u8>>,
    attested_price: i64,
    outcome: bool,
    current_slot: u64,
) -> (r: Result<(), IlowaError>)
    ensures
        r is Ok <==> resolve_light_oracle_check(
            *old(market),
            caller,
            feed_view(*feed),
            attested_price,
            outcome,
            current_slot,
        ) is Ok,
        r matches Err(e) ==> resolve_light_oracle_check(
            *old(market),
            caller,
            feed_view(*feed),
            attested_price,
            outcome,
            current_slot,
        ) == Err::<(), IlowaError>(e) && *final(market) == *old(market),
        r is Ok ==> *final(market) == (LightMarketStub {
            resolved: true,
            is_active: false,
            outcome: if outcome {
                OUTCOME_YES
            } else {
                OUTCOME_NO
            },
            ..*old(market)
        }),
{
    if !keys_equal(&market.oracle_authority, &caller) {
        return Err(IlowaError::Unauthorized);
    }
    if key_is_zero(&market.oracle_authority) {
        return Err(IlowaError::OracleNotSet);
    }
    if market.resolved {
        return Err(IlowaError::MarketAlreadyResolved);
    }
    if !market.is_active {
        return Err(IlowaError::MarketNotActive);
    }
    let effective_price = match feed {
        None => attested_price,
        Some(data) => {
            match read_pyth_price(data.as_slice(), current_slot) {
                Ok(p) => p,
                Err(e) => {
                    return Err(e);
                },
            }
        },
    };
    let expected = if market.oracle_above {
        effective_price >= market.oracle_threshold
    } else {
        effective_price <= market.oracle_threshold
    };
    if outcome != expected {
        return Err(IlowaError::OraclePriceMismatch);
    }
    market.resolved = true;
    market.is_active = false;
    market.outcome = if outcome {
        OUTCOME_YES
    } else {
        OUTCOME_NO
    };
    Ok(())
}

/// The byte view of an optional feed record.
pub open spec fn feed_view(feed: Option<Vec<u8>>) -> Option<Seq<u8>> {
    match feed {
        None => None,
        Some(d) => Some(d@),
    }
}

/// A resolved light market stays resolved: both resolution paths — manual
/// and oracle-verified — fail on it, whoever calls and whatever they
/// supply, and for a caller who clears the authorization checks the error
/// is precisely `MarketAlreadyResolved`.
pub proof fn lemma_light_resolution_is_final(
    m: LightMarketStub,
    caller: AccountKey,
    feed: Option<Seq<u8>>,
    attested_price: i64,
    outcome: bool,
    current_slot: u64,
    now: i64,
)
    requires
        m.resolved,
    ensures
        resolve_light_market_check(m, caller, now) is Err,
        resolve_light_oracle_check(m, caller, feed, attested_price, outcome, current_slot) is Err,
        m.creator@ == caller@ ==> resolve_light_market_check(m, caller, now) == Err::<
            (),
            IlowaError,
        >(IlowaError::MarketAlreadyResolved),
        m.oracle_authority@ == caller@ && !is_zero_key(m.oracle_authority)
            ==> resolve_light_oracle_check(m, caller, feed, attested_price, outcome, current_slot)
            == Err::<(), IlowaError>(IlowaError::MarketAlreadyResolved),
{
}

/// An authorized oracle caller cannot resolve against the price: whenever
/// the authorization and state checks pass and the effective price — read
/// from the feed record, or attested when there is none — disagrees with the
/// claimed outcome, oracle resolution fails with `OraclePriceMismatch`.
pub proof fn lemma_oracle_outcome_mismatch(
    m: LightMarketStub,
    caller: AccountKey,
    feed: Option<Seq<u8>>,
    attested_price: i64,
    outcome: bool,
    current_slot: u64,
)
    requires
        m.oracle_authority@ == caller@,
        !is_zero_key(m.oracle_authority),
        !m.resolved,
        m.is_active,
        feed matches Some(d) ==> pyth_read(d, current_slot) is Ok,
        outcome != oracle_expected_outcome(
            m,
            match feed {
                None => attested_price,
                Some(d) => pyth_read(d, current_slot)->Ok_0,
            },
        ),
    ensures
        resolve_light_oracle_check(m, caller, feed, attested_price, outcome, current_slot) == Err::<
            (),
            IlowaError,
        >(IlowaError::OraclePriceMismatch),
{
}

/// The winning and losing pools of a resolved light market.
pub open spec fn light_pools(m: LightMarketStub) -> (u64, u64) {
    if m.outcome == OUTCOME_YES {
        (m.yes_pool, m.no_pool)
    } else {
        (m.no_pool, m.yes_pool)
    }
}

/// Why `claim_light_winnings` rejects, or `Ok` when the payout is owed.
pub open spec fn claim_light_check(
    m: LightMarketStub,
    b: LightBetStub,
    bettor: AccountKey,
) -> Result<(), IlowaError> {
    if !m.resolved {
        Err(IlowaError::MarketNotResolved)
    } else if b.bettor@ != bettor@ {
        Err(IlowaError::Unauthorized)
    } else if b.claimed {
        Err(IlowaError::AlreadyClaimed)
    } else if !((m.outcome == OUTCOME_YES && b.outcome) || (m.outcome == OUTCOME_NO
        && !b.outcome)) {
        Err(IlowaError::BetLost)
    } else if m.yes_pool + m.no_pool > u64::MAX {
        Err(IlowaError::ArithmeticOverflow)
    } else if light_pools(m).0 == 0 {
        Err(IlowaError::NoWinningBets)
    } else if payout_ratio(b.amount, light_pools(m).0, light_pools(m).1) > u64::MAX {
        Err(IlowaError::ArithmeticOverflow)
    } else {
        Ok(())
    }
}

/// Pays a winning light bet its proportional share of the combined pool,
/// ratio form in 128-bit intermediates: `stake * (winning + losing) /
/// winning`. Succeeds exactly once per bet — the returned amount must be
/// moved from the market vault to the claimant atomically with committing
/// the `claimed` latch.
pub fn claim_light_winnings(
    market: &LightMarketStub,
    bet: &mut LightBetStub,
    bettor: AccountKey,
) -> (r: Result<u64, IlowaError>)
    ensures
        r is Ok <==> claim_light_check(*market, *old(bet), bettor) is Ok,
        r matches Err(e) ==> claim_light_check(*market, *old(bet), bettor) == Err::<
            (),
            IlowaError,
        >(e) && *final(bet) == *old(bet),
        r matches Ok(w) ==> ({
            &&& w == payout_ratio(old(bet).amount, light_pools(*market).0, light_pools(*market).1)
            &&& *final(bet) == (LightBetStub { claimed: true, ..*old(bet) })
        }),
{
    if !market.resolved {
        return Err(IlowaError::MarketNotResolved);
    }
    if !keys_equal(&bet.bettor, &bettor) {
        return Err(IlowaError::Unauthorized);
    }
    if bet.claimed {
        return Err(IlowaError::AlreadyClaimed);
    }
    let bet_won = (market.outcome == OUTCOME_YES && bet.outcome) || (market.outcome == OUTCOME_NO
        && !bet.outcome);
    if !bet_won {
        return Err(IlowaError::BetLost);
    }
    let total_pool = match market.yes_pool.checked_add(market.no_pool) {
        Some(t) => t,
        None => {
            return Err(IlowaError::ArithmeticOverflow);
        },
    };
    let winning_pool = if market.outcome == OUTCOME_YES {
        market.yes_pool
    } else {
        market.no_pool
    };
    if winning_pool == 0 {
        return Err(IlowaError::NoWinningBets);
    }
    proof {
        assert((bet.amount as int) * (total_pool as int) <= (u64::MAX as int) * (u64::MAX as int))
            by (nonlinear_arith)
            requires
                bet.amount <= u64::MAX,
                total_pool <= u64::MAX,
        ;
    }
    let payout_wide = (bet.amount as u128) * (total_pool as u128) / (winning_pool as u128);
    if payout_wide > u64::MAX as u128 {
        return Err(IlowaError::ArithmeticOverflow);
    }
    bet.claimed = true;
    Ok(payout_wide as u64)
}

/// A light bet pays out at most once: after a successful claim the record is
/// latched `claimed`, and a second claim of the same bet always fails with
/// `AlreadyClaimed`.
pub proof fn lemma_light_claim_only_once(m: LightMarketStub, b: LightBetStub, bettor: AccountKey)
    requires
        claim_light_check(m, b, bettor) is Ok,
    ensures
        claim_light_check(m, LightBetStub { claimed: true, ..b }, bettor) == Err::<(), IlowaError>(
            IlowaError::AlreadyClaimed,
        ),
{
}

} // verus!
