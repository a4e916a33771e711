//! Shielded wagers on the full-size market: the stake amount arrives as
//! opaque ciphertext with an opaque proof blob, both validated structurally
//! (length only — no cryptographic verification happens here), and only the
//! bet count becomes public. A flat privacy fee goes to the treasury.

use crate::errors::IlowaError;
use crate::keys::AccountKey;
use crate::market::{Market, MarketStatus};
use vstd::prelude::*;

verus! {

/// Shortest admissible ciphertext or proof blob, in bytes.
pub const MIN_SHIELDED_BLOB: usize = 32;
/// Longest admissible ciphertext or proof blob, in bytes.
pub const MAX_SHIELDED_BLOB: usize = 128;

/// A stake whose amount is stored only as ciphertext; no plaintext amount
/// ever reaches the ledger.
#[derive(Clone)]
pub struct ShieldedBetAccount {
    pub market: AccountKey,
    pub bettor: AccountKey,
    pub encrypted_amount: Vec<u8>,
    pub outcome: bool,
    pub zk_proof: Vec<u8>,
    pub timestamp: i64,
    pub resolved: bool,
}

/// Why `shielded_bet` rejects, or `Ok` when it must succeed.
pub open spec fn shielded_bet_check(
    m: Market,
    enc_len: int,
    proof_len: int,
    now: i64,
) -> Result<(), IlowaError> {
    if m.status != MarketStatus::Active {
        Err(IlowaError::MarketNotActive)
    } else if !(MIN_SHIELDED_BLOB <= enc_len <= MAX_SHIELDED_BLOB) {
        Err(IlowaError::InvalidEncryptedData)
    } else if !(MIN_SHIELDED_BLOB <= proof_len <= MAX_SHIELDED_BLOB) {
        Err(IlowaError::InvalidZkProof)
    } else if now >= m.expires_at {
        Err(IlowaError::MarketExpired)
    } else if m.total_bets + 1 > u32::MAX {
        Err(IlowaError::ArithmeticOverflow)
    } else {
        Ok(())
    }
}

/// Admits a shielded wager: checks only the shape of the ciphertext and the
/// proof blob, counts the bet, and stores the ciphertext untouched. The host
/// must move the flat `PRIVACY_FEE` to the treasury atomically with
/// committing the records; the pools stay untouched because no plaintext
/// amount is known.
pub fn shielded_bet(
    market: &mut Market,
    market_key: AccountKey,
    user: AccountKey,
    encrypted_amount: Vec<u8>,
    zk_proof: Vec<u8>,
    outcome: bool,
    now: i64,
) -> (r: Result<ShieldedBetAccount, IlowaError>)
    ensures
        r is Ok <==> shielded_bet_check(
            *old(market),
            encrypted_amount@.len() as int,
            zk_proof@.len() as int,
            now,
        ) is Ok,
        r matches Err(e) ==> shielded_bet_check(
            *old(market),
            encrypted_amount@.len() as int,
            zk_proof@.len() as int,
            now,
        ) == Err::<(), IlowaError>(e) && *final(market) == *old(market),
        r matches Ok(b) ==> ({
            &&& b == (ShieldedBetAccount {
                market: market_key,
                bettor: user,
                encrypted_amount,
                outcome,
                zk_proof,
                timestamp: now,
                resolved: false,
            })
            &&& *final(market) == (Market {
                total_bets: (old(market).total_bets + 1) as u32,
                ..*old(market)
            })
        }),
{
    if market.status != MarketStatus::Active {
        return Err(IlowaError::MarketNotActive);
    }
    if encrypted_amount.len() < MIN_SHIELDED_BLOB || encrypted_amount.len() > MAX_SHIELDED_BLOB {
        return Err(IlowaError::InvalidEncryptedData);
    }
    if zk_proof.len() < MIN_SHIELDED_BLOB || zk_proof.len() > MAX_SHIELDED_BLOB {
        return Err(IlowaError::InvalidZkProof);
    }
    if now >= market.expires_at {
        return Err(IlowaError::MarketExpired);
    }
    let new_total = match market.total_bets.checked_add(1) {
        Some(t) => t,
        None => {
            return Err(IlowaError::ArithmeticOverflow);
        },
    };
    market.total_bets = new_total;
    Ok(
        ShieldedBetAccount {
            market: market_key,
            bettor: user,
            encrypted_amount,
            outcome,
            zk_proof,
            timestamp: now,
            resolved: false,
        },
    )
}

} // verus!
