//! Fee split and parimutuel payout arithmetic, shared by every market
//! variant, with proofs that the fee split is exact and that the two payout
//! formulas in use agree.

use vstd::arithmetic::div_mod::{
    lemma_div_is_ordered, lemma_div_multiples_vanish, lemma_fundamental_div_mod,
    lemma_fundamental_div_mod_converse, lemma_mod_bound,
};
use vstd::arithmetic::mul::lemma_mul_inequality;
use vstd::prelude::*;

verus! {

/// Smallest admissible stake, in minor units (0.01 native units).
pub const MIN_BET: u64 = 10_000_000;
/// Largest admissible stake, in minor units (100 native units).
pub const MAX_BET: u64 = 100_000_000_000;
/// Platform fee on each plain wager, in basis points (0.5%).
pub const PLATFORM_FEE_BPS: u64 = 50;
/// Flat fee charged for a shielded wager, in minor units.
pub const PRIVACY_FEE: u64 = 5_000_000;

/// The platform's cut of a stake: `amount * 50 / 10_000`, rounded down.
pub open spec fn fee_of(amount: u64) -> int {
    (amount as int) * (PLATFORM_FEE_BPS as int) / 10_000
}

/// What remains of a stake once the fee is taken; this is what enters a pool.
pub open spec fn net_of(amount: u64) -> int {
    amount - fee_of(amount)
}

/// Parimutuel payout, additive form: the winner's own stake back, plus their
/// proportional share of the losing pool.
pub open spec fn payout_additive(amount: u64, winning_pool: u64, losing_pool: u64) -> int
    recommends
        winning_pool > 0,
{
    amount + (amount as int) * (losing_pool as int) / (winning_pool as int)
}

/// Parimutuel payout, ratio form: the winner's stake scaled by the combined
/// pool over the winning pool.
pub open spec fn payout_ratio(amount: u64, winning_pool: u64, losing_pool: u64) -> int
    recommends
        winning_pool > 0,
{
    (amount as int) * (winning_pool + losing_pool) / (winning_pool as int)
}

/// A percentage cut never exceeds the whole: for `num <= den`,
/// `amount * num / den` lies between zero and `amount`.
pub proof fn lemma_fraction_le(amount: u64, num: int, den: int)
    requires
        0 <= num <= den,
        0 < den,
    ensures
        0 <= (amount as int) * num / den <= amount,
{
    let a = amount as int;
    lemma_mul_inequality(num, den, a);
    assert(a * num == num * a && a * den == den * a && 0 <= a * num) by (nonlinear_arith)
        requires
            0 <= a,
            0 <= num,
    ;
    lemma_div_is_ordered(a * num, a * den, den);
    lemma_div_multiples_vanish(a, den);
}

/// The fee split is exact accounting: fee plus net returns the stake, the fee
/// is `amount * 50 / 10_000` rounded down, and the net is never negative.
/// Holds in particular for every admissible stake.
pub proof fn lemma_fee_split(amount: u64)
    ensures
        fee_of(amount) + net_of(amount) == amount,
        fee_of(amount) == (amount as int) * 50 / 10_000,
        0 <= fee_of(amount) <= amount,
{
    lemma_fraction_le(amount, PLATFORM_FEE_BPS as int, 10_000);
}

/// The additive and the ratio payout formulas agree exactly, for every stake
/// and every pair of pools with a nonempty winning pool: integer division
/// loses nothing when the winner's whole stake is added back first.
pub proof fn lemma_payout_forms_agree(amount: u64, winning_pool: u64, losing_pool: u64)
    requires
        winning_pool > 0,
    ensures
        payout_additive(amount, winning_pool, losing_pool) == payout_ratio(
            amount,
            winning_pool,
            losing_pool,
        ),
{
    let a = amount as int;
    let w = winning_pool as int;
    let l = losing_pool as int;
    let q = a * l / w;
    let r = a * l % w;
    lemma_fundamental_div_mod(a * l, w);
    lemma_mod_bound(a * l, w);
    assert(a * (w + l) == (a + q) * w + r) by (nonlinear_arith)
        requires
            a * l == w * q + r,
    ;
    lemma_fundamental_div_mod_converse(a * (w + l), w, a + q, r);
}

/// A winner's payout never exceeds the combined pool when their stake lies
/// within the winning pool, so a drained vault always covers the claim.
pub proof fn lemma_payout_within_pool(amount: u64, winning_pool: u64, losing_pool: u64)
    requires
        winning_pool > 0,
        amount <= winning_pool,
    ensures
        payout_additive(amount, winning_pool, losing_pool) <= winning_pool + losing_pool,
{
    let a = amount as int;
    let w = winning_pool as int;
    let l = losing_pool as int;
    lemma_mul_inequality(a, w, l);
    lemma_div_is_ordered(a * l, w * l, w);
    lemma_div_multiples_vanish(l, w);
}

} // verus!
