//! The full-size market variant: lifecycle, wager admission, manual
//! resolution and proportional claim.
//!
//! Every function here is the decision core of one atomic host transaction.
//! The host hands in the stored records and the caller's identity and clock
//! reading as plain values; the function validates, updates the records, and
//! returns the value transfers the host must perform (the fee to the
//! treasury, the net stake to the market vault, the payout from the vault).
//! On any error the records are left untouched — the host commits nothing.

use crate::errors::IlowaError;
use crate::keys::{keys_equal, AccountKey};
use crate::payout::{
    fee_of, lemma_fee_split, net_of, payout_additive, MAX_BET, MIN_BET, PLATFORM_FEE_BPS,
};
use vstd::prelude::*;

verus! {

/// Lifecycle state of a market. Only `Active` and `Resolved` are ever
/// reached; `Expired` and `Disputed` are declared states with no transition.
#[derive(Clone, Copy, Debug, PartialEq, Eq, Structural)]
pub enum MarketStatus {
    Active,
    Resolved,
    Expired,
    Disputed,
}

/// One binary proposition with two opposing stake pools. The pools are
/// bookkeeping history: they only ever grow, and resolution freezes them.
#[derive(Clone)]
pub struct Market {
    pub creator: AccountKey,
    pub question: String,
    pub category: String,
    pub region: String,
    pub is_private: bool,
    pub status: MarketStatus,
    pub outcome: Option<bool>,
    pub yes_pool: u64,
    pub no_pool: u64,
    pub total_bets: u32,
    pub created_at: i64,
    pub expires_at: i64,
    pub resolved_at: Option<i64>,
}

/// One user's stake on one market, net of the platform fee. `claimed` is the
/// single guard against double payout: it is set exactly once, at claim time.
#[derive(Clone)]
pub struct Bet {
    pub market: AccountKey,
    pub user: AccountKey,
    pub outcome: bool,
    pub amount: u64,
    pub is_shielded: bool,
    pub timestamp: i64,
    pub claimed: bool,
}

/// Longest admissible question, in characters.
pub const MAX_QUESTION_CHARS: usize = 280;

/// Why `create_market` rejects, or `Ok` when it must succeed.
pub open spec fn create_market_check(question: Seq<char>, expires_at: i64, now: i64) -> Result<
    (),
    IlowaError,
> {
    if question.len() > MAX_QUESTION_CHARS {
        Err(IlowaError::QuestionTooLong)
    } else if expires_at <= now {
        Err(IlowaError::InvalidExpiry)
    } else {
        Ok(())
    }
}

/// Opens a new market: rejects an over-long question and an expiry that is
/// not strictly in the future, and otherwise returns the freshly initialized
/// `Active` record with zeroed pools.
pub fn create_market(
    creator: AccountKey,
    question: String,
    category: String,
    region: String,
    is_private: bool,
    expires_at: i64,
    now: i64,
) -> (r: Result<Market, IlowaError>)
    ensures
        r is Ok <==> create_market_check(question@, expires_at, now) is Ok,
        r matches Err(e) ==> create_market_check(question@, expires_at, now) == Err::<
            (),
            IlowaError,
        >(e),
        r matches Ok(m) ==> m == (Market {
            creator,
            question,
            category,
            region,
            is_private,
            status: MarketStatus::Active,
            outcome: None,
            yes_pool: 0,
            no_pool: 0,
            total_bets: 0,
            created_at: now,
            expires_at,
            resolved_at: None,
        }),
{
    if question.as_str().unicode_len() > MAX_QUESTION_CHARS {
        return Err(IlowaError::QuestionTooLong);
    }
    if expires_at <= now {
        return Err(IlowaError::InvalidExpiry);
    }
    Ok(
        Market {
            creator,
            question,
            category,
            region,
            is_private,
            status: MarketStatus::Active,
            outcome: None,
            yes_pool: 0,
            no_pool: 0,
            total_bets: 0,
            created_at: now,
            expires_at,
            resolved_at: None,
        },
    )
}

/// Why `place_bet` rejects, or `Ok` when it must succeed.
pub open spec fn place_bet_check(m: Market, amount: u64, outcome: bool, now: i64) -> Result<
    (),
    IlowaError,
> {
    if m.status != MarketStatus::Active {
        Err(IlowaError::MarketNotActive)
    } else if amount < MIN_BET {
        Err(IlowaError::BetTooSmall)
    } else if amount > MAX_BET {
        Err(IlowaError::BetTooLarge)
    } else if now >= m.expires_at {
        Err(IlowaError::MarketExpired)
    } else if (if outcome {
        m.yes_pool
    } else {
        m.no_pool
    }) + net_of(amount) > u64::MAX || m.total_bets + 1 > u32::MAX {
        Err(IlowaError::ArithmeticOverflow)
    } else {
        Ok(())
    }
}

/// Admits a wager on an active, unexpired market: splits the stake into the
/// platform fee and the net amount, credits the chosen pool with the net,
/// and returns the new bet record together with the fee. The host must move
/// `fee` to the treasury and `bet.amount` to the market vault atomically with
/// committing the updated records.
pub fn place_bet(
    market: &mut Market,
    market_key: AccountKey,
    user: AccountKey,
    amount: u64,
    outcome: bool,
    now: i64,
) -> (r: Result<(Bet, u64), IlowaError>)
    ensures
        r is Ok <==> place_bet_check(*old(market), amount, outcome, now) is Ok,
        r matches Err(e) ==> place_bet_check(*old(market), amount, outcome, now) == Err::<
            (),
            IlowaError,
        >(e) && *final(market) == *old(market),
        r matches Ok(p) ==> ({
            &&& p.1 == fee_of(amount)
            &&& p.0 == (Bet {
                market: market_key,
                user,
                outcome,
                amount: (net_of(amount)) as u64,
                is_shielded: false,
                timestamp: now,
                claimed: false,
            })
            &&& p.1 + p.0.amount == amount
            &&& final(market).yes_pool == old(market).yes_pool + (if outcome {
                net_of(amount)
            } else {
                0
            })
            &&& final(market).no_pool == old(market).no_pool + (if outcome {
                0
            } else {
                net_of(amount)
            })
            &&& final(market).total_bets == old(market).total_bets + 1
            &&& *final(market) == (Market {
                yes_pool: final(market).yes_pool,
                no_pool: final(market).no_pool,
                total_bets: final(market).total_bets,
                ..*old(market)
            })
        }),
{
    if market.status != MarketStatus::Active {
        return Err(IlowaError::MarketNotActive);
    }
    if amount < MIN_BET {
        return Err(IlowaError::BetTooSmall);
    }
    if amount > MAX_BET {
        return Err(IlowaError::BetTooLarge);
    }
    if now >= market.expires_at {
        return Err(IlowaError::MarketExpired);
    }
    proof {
        lemma_fee_split(amount);
    }
    let fee = amount * PLATFORM_FEE_BPS / 10_000;
    let net = amount - fee;
    let (new_yes, new_no) = if outcome {
        match market.yes_pool.checked_add(net) {
            Some(p) => (p, market.no_pool),
            None => {
                return Err(IlowaError::ArithmeticOverflow);
            },
        }
    } else {
        match market.no_pool.checked_add(net) {
            Some(p) => (market.yes_pool, p),
            None => {
                return Err(IlowaError::ArithmeticOverflow);
            },
        }
    };
    let new_total = match market.total_bets.checked_add(1) {
        Some(t) => t,
        None => {
            return Err(IlowaError::ArithmeticOverflow);
        },
    };
    market.yes_pool = new_yes;
    market.no_pool = new_no;
    market.total_bets = new_total;
    Ok(
        (
            Bet {
                market: market_key,
                user,
                outcome,
                amount: net,
                is_shielded: false,
                timestamp: now,
                claimed: false,
            },
            fee,
        ),
    )
}

/// Why `resolve_market` rejects, or `Ok` when it must succeed.
pub open spec fn resolve_market_check(m: Market, resolver: AccountKey, now: i64) -> Result<
    (),
    IlowaError,
> {
    if m.status == MarketStatus::Resolved {
        Err(IlowaError::MarketAlreadyResolved)
    } else if m.status != MarketStatus::Active {
        Err(IlowaError::MarketNotActive)
    } else if m.creator@ != resolver@ {
        Err(IlowaError::Unauthorized)
    } else if now < m.expires_at {
        Err(IlowaError::MarketNotExpired)
    } else {
        Ok(())
    }
}

/// Manual resolution: only the creator, only once the market has expired,
/// only while it is still `Active`. Freezes the pools, records the outcome
/// and the resolution time.
pub fn resolve_market(market: &mut Market, resolver: AccountKey, outcome: bool, now: i64) -> (r:
    Result<(), IlowaError>)
    ensures
        r is Ok <==> resolve_market_check(*old(market), resolver, now) is Ok,
        r matches Err(e) ==> resolve_market_check(*old(market), resolver, now) == Err::<
            (),
            IlowaError,
        >(e) && *final(market) == *old(market),
        r is Ok ==> *final(market) == (Market {
            status: MarketStatus::Resolved,
            outcome: Some(outcome),
            resolved_at: Some(now),
            ..*old(market)
        }),
{
    if market.status == MarketStatus::Resolved {
        return Err(IlowaError::MarketAlreadyResolved);
    }
    if market.status != MarketStatus::Active {
        return Err(IlowaError::MarketNotActive);
    }
    if !keys_equal(&market.creator, &resolver) {
        return Err(IlowaError::Unauthorized);
    }
    if now < market.expires_at {
        return Err(IlowaError::MarketNotExpired);
    }
    market.status = MarketStatus::Resolved;
    market.outcome = Some(outcome);
    market.resolved_at = Some(now);
    Ok(())
}

/// A market is already resolved: nothing resolves it a second time —
/// whoever calls and whenever, the attempt fails with precisely
/// `MarketAlreadyResolved` and the recorded outcome is never overwritten.
pub proof fn lemma_resolve_is_final(m: Market, resolver: AccountKey, now: i64)
    requires
        m.status == MarketStatus::Resolved,
    ensures
        resolve_market_check(m, resolver, now) == Err::<(), IlowaError>(
            IlowaError::MarketAlreadyResolved,
        ),
{
}

/// The winning and losing pools of a resolved market, as seen from `outcome`.
pub open spec fn pools_for_outcome(m: Market, outcome: bool) -> (u64, u64) {
    if outcome {
        (m.yes_pool, m.no_pool)
    } else {
        (m.no_pool, m.yes_pool)
    }
}

/// Why `claim_winnings` rejects, or `Ok` when the payout is owed.
pub open spec fn claim_check(m: Market, b: Bet, user: AccountKey) -> Result<(), IlowaError> {
    if m.status != MarketStatus::Resolved {
        Err(IlowaError::MarketNotResolved)
    } else if b.user@ != user@ {
        Err(IlowaError::Unauthorized)
    } else if b.claimed {
        Err(IlowaError::AlreadyClaimed)
    } else if m.outcome is None {
        Err(IlowaError::MarketNotResolved)
    } else if b.outcome != m.outcome->0 {
        Err(IlowaError::BetLost)
    } else if pools_for_outcome(m, m.outcome->0).0 == 0 {
        Err(IlowaError::NoWinningBets)
    } else if payout_additive(
        b.amount,
        pools_for_outcome(m, m.outcome->0).0,
        pools_for_outcome(m, m.outcome->0).1,
    ) > u64::MAX {
        Err(IlowaError::ArithmeticOverflow)
    } else {
        Ok(())
    }
}

/// Pays a winning bet its proportional share of the combined pool, additive
/// form in 128-bit intermediates: the stake back plus `stake * losing_pool /
/// winning_pool`, overflow-free for pools up to the full 64-bit range.
/// Succeeds exactly once per bet — the returned amount must be moved from
/// the market vault to the claimant atomically with committing the `claimed`
/// latch.
pub fn claim_winnings(market: &Market, bet: &mut Bet, user: AccountKey) -> (r: Result<
    u64,
    IlowaError,
>)
    ensures
        r is Ok <==> claim_check(*market, *old(bet), user) is Ok,
        r matches Err(e) ==> claim_check(*market, *old(bet), user) == Err::<(), IlowaError>(e)
            && *final(bet) == *old(bet),
        r matches Ok(w) ==> ({
            &&& w == payout_additive(
                old(bet).amount,
                pools_for_outcome(*market, market.outcome->0).0,
                pools_for_outcome(*market, market.outcome->0).1,
            )
            &&& *final(bet) == (Bet { claimed: true, ..*old(bet) })
        }),
{
    if market.status != MarketStatus::Resolved {
        return Err(IlowaError::MarketNotResolved);
    }
    if !keys_equal(&bet.user, &user) {
        return Err(IlowaError::Unauthorized);
    }
    if bet.claimed {
        return Err(IlowaError::AlreadyClaimed);
    }
    let market_outcome = match market.outcome {
        Some(o) => o,
        None => {
            return Err(IlowaError::MarketNotResolved);
        },
    };
    if bet.outcome != market_outcome {
        return Err(IlowaError::BetLost);
    }
    let (winning_pool, losing_pool) = if market_outcome {
        (market.yes_pool, market.no_pool)
    } else {
        (market.no_pool, market.yes_pool)
    };
    if winning_pool == 0 {
        return Err(IlowaError::NoWinningBets);
    }
    proof {
        assert((bet.amount as int) * (losing_pool as int) <= (u64::MAX as int) * (
        u64::MAX as int)) by (nonlinear_arith)
            requires
                bet.amount <= u64::MAX,
                losing_pool <= u64::MAX,
        ;
    }
    let share = (bet.amount as u128) * (losing_pool as u128) / (winning_pool as u128);
    let winnings_wide = (bet.amount as u128) + share;
    if winnings_wide > u64::MAX as u128 {
        return Err(IlowaError::ArithmeticOverflow);
    }
    bet.claimed = true;
    Ok(winnings_wide as u64)
}

/// A bet pays out at most once: a successful claim leaves the record
/// latched `claimed`, and a second claim of that record on the same market
/// — which stays resolved forever — always fails with `AlreadyClaimed`.
pub proof fn lemma_claim_only_once(m: Market, b: Bet, user: AccountKey)
    requires
        claim_check(m, b, user) is Ok,
    ensures
        claim_check(m, Bet { claimed: true, ..b }, user) == Err::<(), IlowaError>(
            IlowaError::AlreadyClaimed,
        ),
{
}

/// An empty winning pool is guarded, never divided by: a not-yet-claimed
/// winning-side bet on a resolved market whose winning pool holds nothing is
/// refused with precisely `NoWinningBets`. (A bet already claimed in that
/// state is refused earlier, as `AlreadyClaimed`.)
pub proof fn lemma_empty_winning_pool_guarded(m: Market, b: Bet, user: AccountKey)
    requires
        m.status == MarketStatus::Resolved,
        b.user@ == user@,
        !b.claimed,
        m.outcome matches Some(o) && b.outcome == o,
        pools_for_outcome(m, m.outcome->0).0 == 0,
    ensures
        claim_check(m, b, user) == Err::<(), IlowaError>(IlowaError::NoWinningBets),
{
}

} // verus!
