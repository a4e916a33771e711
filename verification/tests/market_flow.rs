//! End-to-end flows of the full-size market: admission, fee split,
//! resolution, and proportional claims.

use ilowa::errors::IlowaError;
use ilowa::market::{
    claim_winnings, create_market, place_bet, resolve_market, Bet, Market, MarketStatus,
};
use ilowa::payout::{MAX_BET, MIN_BET};

fn key(tag: u8) -> [u8; 32] {
    let mut k = [0u8; 32];
    k[0] = tag;
    k
}

fn open_market(creator: [u8; 32], expires_at: i64, now: i64) -> Market {
    create_market(
        creator,
        String::from("Will Naira hit 2000 by March?"),
        String::from("finance"),
        String::from("westAfrica"),
        false,
        expires_at,
        now,
    )
    .expect("market account should exist")
}

#[test]
fn create_market_initializes_active_with_zero_pools() {
    let m = open_market(key(1), 2000, 1000);
    assert_eq!(m.status, MarketStatus::Active);
    assert_eq!(m.outcome, None);
    assert_eq!(m.yes_pool, 0);
    assert_eq!(m.no_pool, 0);
    assert_eq!(m.total_bets, 0);
    assert_eq!(m.created_at, 1000);
    assert_eq!(m.expires_at, 2000);
    assert_eq!(m.resolved_at, None);
}

#[test]
fn create_market_question_too_long_rejected() {
    let question: String = std::iter::repeat('x').take(281).collect();
    let r = create_market(
        key(1),
        question,
        String::from("finance"),
        String::from("westAfrica"),
        false,
        9_999_999_999,
        7_777_777_777,
    );
    assert_eq!(r.err(), Some(IlowaError::QuestionTooLong));
}

#[test]
fn create_market_expiry_in_past_rejected() {
    let r = create_market(
        key(1),
        String::from("q"),
        String::from("c"),
        String::from("r"),
        false,
        1000,
        1000,
    );
    assert_eq!(r.err(), Some(IlowaError::InvalidExpiry));
}

#[test]
fn place_bet_splits_fee_exactly() {
    let mut m = open_market(key(1), 2000, 1000);
    let (bet, fee) = place_bet(&mut m, key(9), key(2), 10_000_000_000, true, 1100).unwrap();
    // fee = 10_000_000_000 * 50 / 10_000, net = the rest
    assert_eq!(fee, 50_000_000);
    assert_eq!(bet.amount, 9_950_000_000);
    assert_eq!(fee + bet.amount, 10_000_000_000);
    assert_eq!(m.yes_pool, 9_950_000_000);
    assert_eq!(m.no_pool, 0);
    assert_eq!(m.total_bets, 1);
    assert!(!bet.claimed);
    assert!(!bet.is_shielded);
    assert_eq!(bet.user, key(2));
    assert_eq!(bet.market, key(9));
}

#[test]
fn place_bet_one_below_minimum_rejected_at_minimum_accepted() {
    let mut m = open_market(key(1), 2000, 1000);
    let r = place_bet(&mut m, key(9), key(2), MIN_BET - 1, true, 1100);
    assert_eq!(r.err(), Some(IlowaError::BetTooSmall));
    assert_eq!(m.yes_pool, 0);
    assert_eq!(m.total_bets, 0);
    let r = place_bet(&mut m, key(9), key(2), MIN_BET, true, 1100);
    assert!(r.is_ok());
    assert_eq!(m.total_bets, 1);
}

#[test]
fn place_bet_above_maximum_rejected() {
    let mut m = open_market(key(1), 2000, 1000);
    let r = place_bet(&mut m, key(9), key(2), MAX_BET + 1, true, 1100);
    assert_eq!(r.err(), Some(IlowaError::BetTooLarge));
}

#[test]
fn place_bet_after_expiry_rejected() {
    let mut m = open_market(key(1), 2000, 1000);
    let r = place_bet(&mut m, key(9), key(2), MIN_BET, true, 2000);
    assert_eq!(r.err(), Some(IlowaError::MarketExpired));
}

#[test]
fn place_bet_pool_overflow_is_fatal() {
    let mut m = open_market(key(1), 2000, 1000);
    m.yes_pool = u64::MAX - 1;
    let r = place_bet(&mut m, key(9), key(2), MIN_BET, true, 1100);
    assert_eq!(r.err(), Some(IlowaError::ArithmeticOverflow));
    assert_eq!(m.yes_pool, u64::MAX - 1);
    assert_eq!(m.total_bets, 0);
}

#[test]
fn resolve_market_only_by_creator() {
    let mut m = open_market(key(1), 2000, 1000);
    let r = resolve_market(&mut m, key(2), true, 2100);
    assert_eq!(r.err(), Some(IlowaError::Unauthorized));
    assert_eq!(m.status, MarketStatus::Active);
    let r = resolve_market(&mut m, key(1), true, 2100);
    assert!(r.is_ok());
    assert_eq!(m.status, MarketStatus::Resolved);
    assert_eq!(m.outcome, Some(true));
    assert_eq!(m.resolved_at, Some(2100));
}

#[test]
fn resolve_market_before_expiry_rejected() {
    let mut m = open_market(key(1), 2000, 1000);
    let r = resolve_market(&mut m, key(1), true, 1999);
    assert_eq!(r.err(), Some(IlowaError::MarketNotExpired));
    assert_eq!(m.status, MarketStatus::Active);
}

#[test]
fn resolve_market_twice_always_fails() {
    let mut m = open_market(key(1), 2000, 1000);
    resolve_market(&mut m, key(1), true, 2100).unwrap();
    let r = resolve_market(&mut m, key(1), false, 2200);
    assert_eq!(r.err(), Some(IlowaError::MarketAlreadyResolved));
    // Whoever calls: a stranger is told the same.
    let r = resolve_market(&mut m, key(4), false, 2200);
    assert_eq!(r.err(), Some(IlowaError::MarketAlreadyResolved));
    assert_eq!(m.outcome, Some(true));
    // Wagering on the resolved market is refused as not active.
    let r = place_bet(&mut m, key(9), key(2), MIN_BET, true, 2300);
    assert_eq!(r.err(), Some(IlowaError::MarketNotActive));
}

#[test]
fn single_yes_bettor_wins_entire_pool() {
    // Market expires at now + 1000; A stakes 10 units YES, B stakes 30 NO.
    let now = 1_000_000;
    let mut m = open_market(key(1), now + 1000, now);
    let (mut bet_a, _) = place_bet(&mut m, key(9), key(2), 10_000_000_000, true, now + 1).unwrap();
    let (_bet_b, _) = place_bet(&mut m, key(9), key(3), 30_000_000_000, false, now + 2).unwrap();
    let net_a = 9_950_000_000u64;
    let net_b = 29_850_000_000u64;
    assert_eq!(m.yes_pool, net_a);
    assert_eq!(m.no_pool, net_b);
    resolve_market(&mut m, key(1), true, now + 1001).unwrap();
    let payout = claim_winnings(&m, &mut bet_a, key(2)).unwrap();
    // A is the only YES bettor: net_a + net_a * net_b / net_a == net_a + net_b.
    assert_eq!(payout, net_a + net_b);
    assert_eq!(payout, m.yes_pool + m.no_pool);
    assert!(bet_a.claimed);
}

#[test]
fn claim_twice_fails_already_claimed() {
    let now = 1_000_000;
    let mut m = open_market(key(1), now + 1000, now);
    let (mut bet, _) = place_bet(&mut m, key(9), key(2), 10_000_000_000, true, now + 1).unwrap();
    resolve_market(&mut m, key(1), true, now + 1001).unwrap();
    let first = claim_winnings(&m, &mut bet, key(2)).unwrap();
    assert_eq!(first, 9_950_000_000);
    let second = claim_winnings(&m, &mut bet, key(2));
    assert_eq!(second.err(), Some(IlowaError::AlreadyClaimed));
    assert!(bet.claimed);
}

#[test]
fn claim_on_losing_side_fails_bet_lost() {
    // No bets on the winning side: the only bet is NO, market resolves YES.
    let now = 1_000_000;
    let mut m = open_market(key(1), now + 1000, now);
    let (mut bet_b, _) = place_bet(&mut m, key(9), key(3), 30_000_000_000, false, now + 1).unwrap();
    resolve_market(&mut m, key(1), true, now + 1001).unwrap();
    let r = claim_winnings(&m, &mut bet_b, key(3));
    assert_eq!(r.err(), Some(IlowaError::BetLost));
    assert!(!bet_b.claimed);
}

#[test]
fn claim_with_empty_winning_pool_fails_no_winning_bets() {
    // A winning-side bet record over an empty winning pool is refused before
    // any division happens.
    let m = Market {
        creator: key(1),
        question: String::from("q"),
        category: String::from("c"),
        region: String::from("r"),
        is_private: false,
        status: MarketStatus::Resolved,
        outcome: Some(true),
        yes_pool: 0,
        no_pool: 5_000_000_000,
        total_bets: 1,
        created_at: 0,
        expires_at: 10,
        resolved_at: Some(20),
    };
    let mut bet = Bet {
        market: key(9),
        user: key(2),
        outcome: true,
        amount: 1_000_000_000,
        is_shielded: false,
        timestamp: 5,
        claimed: false,
    };
    let r = claim_winnings(&m, &mut bet, key(2));
    assert_eq!(r.err(), Some(IlowaError::NoWinningBets));
}

#[test]
fn claim_before_resolution_fails() {
    let now = 1_000_000;
    let mut m = open_market(key(1), now + 1000, now);
    let (mut bet, _) = place_bet(&mut m, key(9), key(2), 10_000_000_000, true, now + 1).unwrap();
    let r = claim_winnings(&m, &mut bet, key(2));
    assert_eq!(r.err(), Some(IlowaError::MarketNotResolved));
}

#[test]
fn claim_by_wrong_user_fails() {
    let now = 1_000_000;
    let mut m = open_market(key(1), now + 1000, now);
    let (mut bet, _) = place_bet(&mut m, key(9), key(2), 10_000_000_000, true, now + 1).unwrap();
    resolve_market(&mut m, key(1), true, now + 1001).unwrap();
    let r = claim_winnings(&m, &mut bet, key(4));
    assert_eq!(r.err(), Some(IlowaError::Unauthorized));
}

#[test]
fn claim_overflow_is_fatal() {
    let m = Market {
        creator: key(1),
        question: String::from("q"),
        category: String::from("c"),
        region: String::from("r"),
        is_private: false,
        status: MarketStatus::Resolved,
        outcome: Some(true),
        yes_pool: 2,
        no_pool: u64::MAX,
        total_bets: 2,
        created_at: 0,
        expires_at: 10,
        resolved_at: Some(20),
    };
    let mut bet = Bet {
        market: key(9),
        user: key(2),
        outcome: true,
        amount: u64::MAX,
        is_shielded: false,
        timestamp: 5,
        claimed: false,
    };
    let r = claim_winnings(&m, &mut bet, key(2));
    assert_eq!(r.err(), Some(IlowaError::ArithmeticOverflow));
    assert!(!bet.claimed);
}

#[test]
fn payout_proportional_share_exact_value() {
    // Two YES bettors share the NO pool proportionally.
    let now = 1_000_000;
    let mut m = open_market(key(1), now + 1000, now);
    let (mut bet_a, _) = place_bet(&mut m, key(9), key(2), 10_000_000_000, true, now + 1).unwrap();
    let (_bet_c, _) = place_bet(&mut m, key(9), key(4), 10_000_000_000, true, now + 2).unwrap();
    let (_bet_b, _) = place_bet(&mut m, key(9), key(3), 30_000_000_000, false, now + 3).unwrap();
    resolve_market(&mut m, key(1), true, now + 1001).unwrap();
    let payout = claim_winnings(&m, &mut bet_a, key(2)).unwrap();
    // net_a + net_a * no_pool / yes_pool = 9_950_000_000 + 29_850_000_000 / 2
    assert_eq!(payout, 9_950_000_000 + 14_925_000_000);
}
