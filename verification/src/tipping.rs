//! Tip routing: splits a tip between the recipient and the platform
//! treasury. The engine computes the split; the host performs the two
//! transfers.

use crate::errors::IlowaError;
use crate::payout::lemma_fraction_le;
use vstd::prelude::*;

verus! {

/// Platform's percentage cut of each tip.
pub const TIP_FEE_PERCENT: u64 = 15;
/// Smallest admissible tip, in minor units.
pub const MIN_TIP: u64 = 1_000_000;

/// The platform's cut of a tip: `amount * 15 / 100`, rounded down.
pub open spec fn tip_fee_of(amount: u64) -> int {
    (amount as int) * (TIP_FEE_PERCENT as int) / 100
}

/// Why `tip_dj` rejects, or `Ok` when it must succeed.
pub open spec fn tip_check(amount: u64) -> Result<(), IlowaError> {
    if amount < MIN_TIP {
        Err(IlowaError::TipTooSmall)
    } else if (amount as int) * (TIP_FEE_PERCENT as int) > u64::MAX {
        Err(IlowaError::ArithmeticOverflow)
    } else {
        Ok(())
    }
}

/// Splits a tip: the platform keeps its percentage cut, the recipient gets
/// the rest, and the two parts return the tip exactly. Returns
/// `(recipient_amount, platform_fee)`; the host must move both atomically.
pub fn tip_dj(amount: u64) -> (r: Result<(u64, u64), IlowaError>)
    ensures
        r is Ok <==> tip_check(amount) is Ok,
        r matches Err(e) ==> tip_check(amount) == Err::<(), IlowaError>(e),
        r matches Ok(p) ==> ({
            &&& p.1 == tip_fee_of(amount)
            &&& p.0 == amount - tip_fee_of(amount)
            &&& p.0 + p.1 == amount
        }),
{
    if amount < MIN_TIP {
        return Err(IlowaError::TipTooSmall);
    }
    let fee = match amount.checked_mul(TIP_FEE_PERCENT) {
        Some(f) => f / 100,
        None => {
            return Err(IlowaError::ArithmeticOverflow);
        },
    };
    proof {
        lemma_fraction_le(amount, TIP_FEE_PERCENT as int, 100);
    }
    let dj_amount = amount - fee;
    Ok((dj_amount, fee))
}

} // verus!
