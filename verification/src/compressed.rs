//! The compact market variant: a smaller record with an enumerated category,
//! a bounded resolve date, and the same fee-split wager admission as the
//! full-size market. This variant only creates markets and admits wagers;
//! it has no resolution or claim path of its own.

use crate::errors::IlowaError;
use crate::keys::AccountKey;
use crate::payout::{fee_of, lemma_fee_split, net_of, MAX_BET, MIN_BET, PLATFORM_FEE_BPS};
use vstd::prelude::*;

verus! {

/// How far in the future a resolve date may lie, in seconds.
pub const ONE_YEAR: i64 = 365 * 24 * 60 * 60;

/// Shortest admissible question, in characters.
pub const MIN_COMPRESSED_QUESTION_CHARS: usize = 10;
/// Longest admissible question, in characters.
pub const MAX_COMPRESSED_QUESTION_CHARS: usize = 280;

/// Subject area of a compact market.
#[derive(Clone, Copy, Debug, PartialEq, Eq, Structural)]
pub enum CompressedMarketCategory {
    Currency,
    Weather,
    Politics,
    Crypto,
    Sports,
    Culture,
    Other,
}

/// A compact market record.
#[derive(Clone)]
pub struct CompressedMarket {
    pub creator: AccountKey,
    pub question: String,
    pub category: CompressedMarketCategory,
    pub resolve_date: i64,
    pub yes_bets: u64,
    pub no_bets: u64,
    pub is_active: bool,
    pub resolved: bool,
    pub outcome: Option<bool>,
    pub created_at: i64,
}

/// A stake on a compact market, net of the platform fee.
#[derive(Clone)]
pub struct CompressedBet {
    pub market: AccountKey,
    pub user: AccountKey,
    pub outcome: bool,
    pub amount: u64,
    pub timestamp: i64,
    pub claimed: bool,
}

/// Why `create_compressed_market` rejects, or `Ok` when it must succeed.
pub open spec fn create_compressed_market_check(
    question: Seq<char>,
    resolve_date: i64,
    now: i64,
) -> Result<(), IlowaError> {
    if question.len() < MIN_COMPRESSED_QUESTION_CHARS || question.len()
        > MAX_COMPRESSED_QUESTION_CHARS {
        Err(IlowaError::InvalidQuestionLength)
    } else if resolve_date <= now {
        Err(IlowaError::InvalidResolveDate)
    } else if resolve_date >= now + ONE_YEAR {
        Err(IlowaError::ResolveDateTooFar)
    } else {
        Ok(())
    }
}

/// Opens a compact market: the question must be of middling length and the
/// resolve date strictly in the future but less than a year away.
pub fn create_compressed_market(
    creator: AccountKey,
    question: String,
    resolve_date: i64,
    category: CompressedMarketCategory,
    now: i64,
) -> (r: Result<CompressedMarket, IlowaError>)
    ensures
        r is Ok <==> create_compressed_market_check(question@, resolve_date, now) is Ok,
        r matches Err(e) ==> create_compressed_market_check(question@, resolve_date, now) == Err::<
            (),
            IlowaError,
        >(e),
        r matches Ok(m) ==> m == (CompressedMarket {
            creator,
            question,
            category,
            resolve_date,
            yes_bets: 0,
            no_bets: 0,
            is_active: true,
            resolved: false,
            outcome: None,
            created_at: now,
        }),
{
    let qlen = question.as_str().unicode_len();
    if qlen < MIN_COMPRESSED_QUESTION_CHARS || qlen > MAX_COMPRESSED_QUESTION_CHARS {
        return Err(IlowaError::InvalidQuestionLength);
    }
    if resolve_date <= now {
        return Err(IlowaError::InvalidResolveDate);
    }
    match now.checked_add(ONE_YEAR) {
        Some(limit) => {
            if resolve_date >= limit {
                return Err(IlowaError::ResolveDateTooFar);
            }
        },
        None => {
            // `now + ONE_YEAR` exceeds every representable date, so the bound
            // cannot be violated.
        },
    }
    Ok(
        CompressedMarket {
            creator,
            question,
            category,
            resolve_date,
            yes_bets: 0,
            no_bets: 0,
            is_active: true,
            resolved: false,
            outcome: None,
            created_at: now,
        },
    )
}

/// Why `place_compressed_bet` rejects, or `Ok` when it must succeed.
pub open spec fn place_compressed_bet_check(
    m: CompressedMarket,
    amount: u64,
    outcome: bool,
    now: i64,
) -> Result<(), IlowaError> {
    if !m.is_active {
        Err(IlowaError::MarketNotActive)
    } else if amount < MIN_BET {
        Err(IlowaError::BetTooSmall)
    } else if amount > MAX_BET {
        Err(IlowaError::BetTooLarge)
    } else if now >= m.resolve_date {
        Err(IlowaError::MarketExpired)
    } else if (if outcome {
        m.yes_bets
    } else {
        m.no_bets
    }) + net_of(amount) > u64::MAX {
        Err(IlowaError::ArithmeticOverflow)
    } else {
        Ok(())
    }
}

/// Admits a wager on an active, unexpired compact market: splits the stake
/// into fee and net, credits the chosen pool with the net, and returns the
/// new bet record with the fee. The host must move `fee` to the treasury and
/// `bet.amount` to the market vault atomically with committing the records.
pub fn place_compressed_bet(
    market: &mut CompressedMarket,
    market_key: AccountKey,
    user: AccountKey,
    amount: u64,
    outcome: bool,
    now: i64,
) -> (r: Result<(CompressedBet, u64), IlowaError>)
    ensures
        r is Ok <==> place_compressed_bet_check(*old(market), amount, outcome, now) is Ok,
        r matches Err(e) ==> place_compressed_bet_check(*old(market), amount, outcome, now) == Err::<
            (),
            IlowaError,
        >(e) && *final(market) == *old(market),
        r matches Ok(p) ==> ({
            &&& p.1 == fee_of(amount)
            &&& p.0 == (CompressedBet {
                market: market_key,
                user,
                outcome,
                amount: (net_of(amount)) as u64,
                timestamp: now,
                claimed: false,
            })
            &&& p.1 + p.0.amount == amount
            &&& final(market).yes_bets == old(market).yes_bets + (if outcome {
                net_of(amount)
            } else {
                0
            })
            &&& final(market).no_bets == old(market).no_bets + (if outcome {
                0
            } else {
                net_of(amount)
            })
            &&& *final(market) == (CompressedMarket {
                yes_bets: final(market).yes_bets,
                no_bets: final(market).no_bets,
                ..*old(market)
            })
        }),
{
    if !market.is_active {
        return Err(IlowaError::MarketNotActive);
    }
    if amount < MIN_BET {
        return Err(IlowaError::BetTooSmall);
    }
    if amount > MAX_BET {
        return Err(IlowaError::BetTooLarge);
    }
    if now >= market.resolve_date {
        return Err(IlowaError::MarketExpired);
    }
    proof {
        lemma_fee_split(amount);
    }
    let fee = amount * PLATFORM_FEE_BPS / 10_000;
    let net = amount - fee;
    if outcome {
        match market.yes_bets.checked_add(net) {
            Some(p) => {
                market.yes_bets = p;
            },
            None => {
                return Err(IlowaError::ArithmeticOverflow);
            },
        }
    } else {
        match market.no_bets.checked_add(net) {
            Some(p) => {
                market.no_bets = p;
            },
            None => {
                return Err(IlowaError::ArithmeticOverflow);
            },
        }
    }
    Ok(
        (
            CompressedBet { market: market_key, user, outcome, amount: net, timestamp: now, claimed: false },
            fee,
        ),
    )
}

} // verus!
