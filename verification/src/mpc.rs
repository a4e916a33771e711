//! Secure-computation session commitments and the federated-learning reward
//! ledger: per-user sessions with an expiry, hashed interaction and
//! contribution commitments, and a typed per-contribution reward that
//! accrues until claimed from a shared pool.

use crate::errors::IlowaError;
use crate::keys::{keys_equal, AccountKey};
use vstd::prelude::*;

verus! {

/// Reward for one plain interaction contribution, in minor units.
pub const REWARD_PER_CONTRIBUTION: u64 = 1_000_000;
/// Longest a session may live, in seconds.
pub const MAX_SESSION_DURATION: i64 = 7 * 24 * 60 * 60;
/// Contributions required before the first claim.
pub const MIN_CONTRIBUTIONS_FOR_CLAIM: u64 = 10;

/// One user's encryption-session commitment record.
#[derive(Clone)]
pub struct MpcSession {
    pub owner: AccountKey,
    pub session_nonce: [u8; 32],
    pub created_at: i64,
    pub expires_at: i64,
    pub is_active: bool,
    pub interaction_count: u64,
    pub last_interaction_hash: [u8; 32],
    pub last_interaction_at: i64,
}

/// Opens a session that expires after the maximum session length.
pub fn init_mpc_session(owner: AccountKey, session_nonce: [u8; 32], now: i64) -> (s: MpcSession)
    requires
        0 <= now <= i64::MAX - MAX_SESSION_DURATION,
    ensures
        s == (MpcSession {
            owner,
            session_nonce,
            created_at: now,
            expires_at: (now + MAX_SESSION_DURATION) as i64,
            is_active: true,
            interaction_count: 0,
            last_interaction_hash: s.last_interaction_hash,
            last_interaction_at: 0,
        }),
        crate::keys::is_zero_key(s.last_interaction_hash),
{
    MpcSession {
        owner,
        session_nonce,
        created_at: now,
        expires_at: now + MAX_SESSION_DURATION,
        is_active: true,
        interaction_count: 0,
        last_interaction_hash: [0u8; 32],
        last_interaction_at: 0,
    }
}

/// Whether a session may be closed now: by its owner at any time, by anyone
/// once it has expired.
pub fn close_mpc_session(s: &MpcSession, caller: AccountKey, now: i64) -> (r: Result<
    (),
    IlowaError,
>)
    ensures
        r is Ok <==> s.owner@ == caller@ || now > s.expires_at,
        r matches Err(e) ==> e == IlowaError::Unauthorized,
{
    if keys_equal(&s.owner, &caller) {
        return Ok(());
    }
    if now > s.expires_at {
        return Ok(());
    }
    Err(IlowaError::Unauthorized)
}

/// Why `record_interaction` rejects, or `Ok` when it must succeed.
pub open spec fn record_interaction_check(s: MpcSession, now: i64) -> Result<(), IlowaError> {
    if !s.is_active {
        Err(IlowaError::InvalidMpcSession)
    } else if now >= s.expires_at {
        Err(IlowaError::SessionExpired)
    } else if s.interaction_count + 1 > u64::MAX {
        Err(IlowaError::ArithmeticOverflow)
    } else {
        Ok(())
    }
}

/// Records one hashed interaction commitment on a live, unexpired session.
pub fn record_interaction(s: &mut MpcSession, interaction_hash: [u8; 32], now: i64) -> (r: Result<
    (),
    IlowaError,
>)
    ensures
        r is Ok <==> record_interaction_check(*old(s), now) is Ok,
        r matches Err(e) ==> record_interaction_check(*old(s), now) == Err::<(), IlowaError>(e)
            && *final(s) == *old(s),
        r is Ok ==> *final(s) == (MpcSession {
            interaction_count: (old(s).interaction_count + 1) as u64,
            last_interaction_hash: interaction_hash,
            last_interaction_at: now,
            ..*old(s)
        }),
{
    if !s.is_active {
        return Err(IlowaError::InvalidMpcSession);
    }
    if now >= s.expires_at {
        return Err(IlowaError::SessionExpired);
    }
    let count = match s.interaction_count.checked_add(1) {
        Some(c) => c,
        None => {
            return Err(IlowaError::ArithmeticOverflow);
        },
    };
    s.interaction_count = count;
    s.last_interaction_hash = interaction_hash;
    s.last_interaction_at = now;
    Ok(())
}

/// The shared reward pool's bookkeeping record.
#[derive(Clone)]
pub struct FLRewardPool {
    pub total_distributed: u64,
}

/// Creates the pool record with nothing distributed yet.
pub fn init_fl_reward_pool() -> (p: FLRewardPool)
    ensures
        p.total_distributed == 0,
{
    FLRewardPool { total_distributed: 0 }
}

/// One user's federated-learning ledger entry.
#[derive(Clone)]
pub struct FederatedLearningAccount {
    pub owner: AccountKey,
    pub enabled: bool,
    pub contribution_count: u64,
    pub total_earned: u64,
    pub pending_rewards: u64,
    pub last_contribution_at: i64,
    pub last_claim_at: i64,
    pub last_contribution_hash: [u8; 32],
    pub created_at: i64,
}

/// Opts a user in with a zeroed ledger entry.
pub fn init_federated_learning(owner: AccountKey, now: i64) -> (f: FederatedLearningAccount)
    ensures
        f == (FederatedLearningAccount {
            owner,
            enabled: true,
            contribution_count: 0,
            total_earned: 0,
            pending_rewards: 0,
            last_contribution_at: 0,
            last_claim_at: 0,
            last_contribution_hash: f.last_contribution_hash,
            created_at: now,
        }),
        crate::keys::is_zero_key(f.last_contribution_hash),
{
    FederatedLearningAccount {
        owner,
        enabled: true,
        contribution_count: 0,
        total_earned: 0,
        pending_rewards: 0,
        last_contribution_at: 0,
        last_claim_at: 0,
        last_contribution_hash: [0u8; 32],
        created_at: now,
    }
}

/// Opts a user out; the ledger entry otherwise keeps its history.
pub fn disable_federated_learning(f: &mut FederatedLearningAccount)
    ensures
        *final(f) == (FederatedLearningAccount { enabled: false, ..*old(f) }),
{
    f.enabled = false;
}

/// The reward one contribution earns, by kind: a correction is worth double
/// the base reward, feedback one and a half times, anything else the base.
pub open spec fn contribution_reward(contribution_type: u8) -> int {
    if contribution_type == 2 {
        2 * REWARD_PER_CONTRIBUTION
    } else if contribution_type == 1 {
        REWARD_PER_CONTRIBUTION + REWARD_PER_CONTRIBUTION / 2
    } else {
        REWARD_PER_CONTRIBUTION as int
    }
}

/// Why `record_contribution` rejects, or `Ok` when it must succeed.
pub open spec fn record_contribution_check(
    f: FederatedLearningAccount,
    contribution_type: u8,
) -> Result<(), IlowaError> {
    if !f.enabled {
        Err(IlowaError::FLNotEnabled)
    } else if f.contribution_count + 1 > u64::MAX || f.pending_rewards + contribution_reward(
        contribution_type,
    ) > u64::MAX {
        Err(IlowaError::ArithmeticOverflow)
    } else {
        Ok(())
    }
}

/// Records one hashed contribution for an opted-in user and accrues its
/// typed reward to the pending balance.
pub fn record_contribution(
    f: &mut FederatedLearningAccount,
    contribution_hash: [u8; 32],
    contribution_type: u8,
    now: i64,
) -> (r: Result<(), IlowaError>)
    ensures
        r is Ok <==> record_contribution_check(*old(f), contribution_type) is Ok,
        r matches Err(e) ==> record_contribution_check(*old(f), contribution_type) == Err::<
            (),
            IlowaError,
        >(e) && *final(f) == *old(f),
        r is Ok ==> *final(f) == (FederatedLearningAccount {
            contribution_count: (old(f).contribution_count + 1) as u64,
            pending_rewards: (old(f).pending_rewards + contribution_reward(
                contribution_type,
            )) as u64,
            last_contribution_at: now,
            last_contribution_hash: contribution_hash,
            ..*old(f)
        }),
{
    if !f.enabled {
        return Err(IlowaError::FLNotEnabled);
    }
    let reward: u64 = if contribution_type == 2 {
        REWARD_PER_CONTRIBUTION * 2
    } else if contribution_type == 1 {
        REWARD_PER_CONTRIBUTION + REWARD_PER_CONTRIBUTION / 2
    } else {
        REWARD_PER_CONTRIBUTION
    };
    let count = match f.contribution_count.checked_add(1) {
        Some(c) => c,
        None => {
            return Err(IlowaError::ArithmeticOverflow);
        },
    };
    let pending = match f.pending_rewards.checked_add(reward) {
        Some(p) => p,
        None => {
            return Err(IlowaError::ArithmeticOverflow);
        },
    };
    f.contribution_count = count;
    f.pending_rewards = pending;
    f.last_contribution_at = now;
    f.last_contribution_hash = contribution_hash;
    Ok(())
}

/// Why `claim_fl_rewards` rejects, or `Ok` when the payout is owed.
/// `pool_balance` is what the host reports the reward pool holds.
pub open spec fn claim_fl_check(
    f: FederatedLearningAccount,
    pool: FLRewardPool,
    pool_balance: u64,
) -> Result<(), IlowaError> {
    if !f.enabled {
        Err(IlowaError::FLNotEnabled)
    } else if f.pending_rewards == 0 {
        Err(IlowaError::NoRewardsToClaim)
    } else if f.contribution_count < MIN_CONTRIBUTIONS_FOR_CLAIM {
        Err(IlowaError::NoRewardsToClaim)
    } else if pool_balance < f.pending_rewards {
        Err(IlowaError::RewardPoolExhausted)
    } else if f.total_earned + f.pending_rewards > u64::MAX || pool.total_distributed
        + f.pending_rewards > u64::MAX {
        Err(IlowaError::ArithmeticOverflow)
    } else {
        Ok(())
    }
}

/// Pays out the pending rewards of an opted-in user with enough
/// contributions, provided the pool can cover them: the pending balance
/// moves to earned, the pool's distributed total grows by it, and the
/// returned amount must be transferred from the pool to the owner
/// atomically with committing both records.
pub fn claim_fl_rewards(
    f: &mut FederatedLearningAccount,
    pool: &mut FLRewardPool,
    pool_balance: u64,
    now: i64,
) -> (r: Result<u64, IlowaError>)
    ensures
        r is Ok <==> claim_fl_check(*old(f), *old(pool), pool_balance) is Ok,
        r matches Err(e) ==> claim_fl_check(*old(f), *old(pool), pool_balance) == Err::<
            (),
            IlowaError,
        >(e) && *final(f) == *old(f) && *final(pool) == *old(pool),
        r matches Ok(amount) ==> ({
            &&& amount == old(f).pending_rewards
            &&& *final(f) == (FederatedLearningAccount {
                total_earned: (old(f).total_earned + amount) as u64,
                pending_rewards: 0,
                last_claim_at: now,
                ..*old(f)
            })
            &&& final(pool).total_distributed == old(pool).total_distributed + amount
        }),
{
    if !f.enabled {
        return Err(IlowaError::FLNotEnabled);
    }
    if f.pending_rewards == 0 {
        return Err(IlowaError::NoRewardsToClaim);
    }
    if f.contribution_count < MIN_CONTRIBUTIONS_FOR_CLAIM {
        return Err(IlowaError::NoRewardsToClaim);
    }
    let amount = f.pending_rewards;
    if pool_balance < amount {
        return Err(IlowaError::RewardPoolExhausted);
    }
    let earned = match f.total_earned.checked_add(amount) {
        Some(e) => e,
        None => {
            return Err(IlowaError::ArithmeticOverflow);
        },
    };
    let distributed = match pool.total_distributed.checked_add(amount) {
        Some(d) => d,
        None => {
            return Err(IlowaError::ArithmeticOverflow);
        },
    };
    f.total_earned = earned;
    f.pending_rewards = 0;
    f.last_claim_at = now;
    pool.total_distributed = distributed;
    Ok(amount)
}

} // verus!
