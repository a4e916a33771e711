//! Wallet-control recovery: a single-guardian timelocked path and a
//! 3-of-5 social path. Both are record-keeping state machines driven by the
//! host's signers and clock; no value moves here.

use crate::errors::IlowaError;
use crate::keys::{key_in, key_list_contains, keys_equal, AccountKey};
use vstd::prelude::*;

verus! {

/// Delay between initiating and executing a guardian recovery, in seconds.
pub const ELDER_TIMELOCK: i64 = 7 * 24 * 60 * 60;

/// Count of guardians a social recovery must name.
pub const GUARDIAN_COUNT: usize = 5;
/// Approvals needed to complete a social recovery.
pub const SOCIAL_THRESHOLD: usize = 3;

/// One user's single-guardian recovery record.
#[derive(Clone)]
pub struct ElderGuardian {
    pub user_wallet: AccountKey,
    pub guardian_key: AccountKey,
    pub timelock: i64,
    pub recovery_initiated: bool,
    pub recovery_timestamp: i64,
    pub canceled: bool,
}

impl ElderGuardian {
    /// Well-formedness: stored instants and the timelock are nonnegative.
    pub open spec fn wf(self) -> bool {
        &&& 0 <= self.recovery_timestamp
        &&& 0 <= self.timelock
    }
}

/// Creates a user's guardian record: no guardian key yet, the standard
/// timelock, no recovery in progress.
pub fn init_elder_guardian(user: AccountKey) -> (g: ElderGuardian)
    ensures
        g == (ElderGuardian {
            user_wallet: user,
            guardian_key: g.guardian_key,
            timelock: ELDER_TIMELOCK,
            recovery_initiated: false,
            recovery_timestamp: 0,
            canceled: false,
        }),
        crate::keys::is_zero_key(g.guardian_key),
        g.wf(),
{
    ElderGuardian {
        user_wallet: user,
        guardian_key: [0u8; 32],
        timelock: ELDER_TIMELOCK,
        recovery_initiated: false,
        recovery_timestamp: 0,
        canceled: false,
    }
}

/// Sets the guardian key; only the wallet's owner may.
pub fn set_guardian_key(g: &mut ElderGuardian, user: AccountKey, guardian_key: AccountKey) -> (r:
    Result<(), IlowaError>)
    ensures
        r is Ok <==> old(g).user_wallet@ == user@,
        r is Ok ==> *final(g) == (ElderGuardian { guardian_key, ..*old(g) }),
        r matches Err(e) ==> e == IlowaError::Unauthorized && *final(g) == *old(g),
{
    if !keys_equal(&g.user_wallet, &user) {
        return Err(IlowaError::Unauthorized);
    }
    g.guardian_key = guardian_key;
    Ok(())
}

/// Starts the timelock: allowed whenever no recovery is in progress; the
/// record stamps the clock and clears any earlier cancellation.
pub fn initiate_recovery(g: &mut ElderGuardian, now: i64) -> (r: Result<(), IlowaError>)
    requires
        0 <= now,
    ensures
        r is Ok <==> !old(g).recovery_initiated,
        r is Ok ==> *final(g) == (ElderGuardian {
            recovery_initiated: true,
            recovery_timestamp: now,
            canceled: false,
            ..*old(g)
        }),
        r matches Err(e) ==> e == IlowaError::RecoveryAlreadyInProgress && *final(g) == *old(g),
{
    if g.recovery_initiated {
        return Err(IlowaError::RecoveryAlreadyInProgress);
    }
    g.recovery_initiated = true;
    g.recovery_timestamp = now;
    g.canceled = false;
    Ok(())
}

/// Why `cancel_recovery` rejects, or `Ok` when it must succeed.
pub open spec fn cancel_recovery_check(g: ElderGuardian, user: AccountKey) -> Result<
    (),
    IlowaError,
> {
    if g.user_wallet@ != user@ {
        Err(IlowaError::Unauthorized)
    } else if !g.recovery_initiated {
        Err(IlowaError::RecoveryNotInProgress)
    } else {
        Ok(())
    }
}

/// The owner stops a pending recovery; the cancellation is recorded.
pub fn cancel_recovery(g: &mut ElderGuardian, user: AccountKey) -> (r: Result<(), IlowaError>)
    ensures
        r is Ok <==> cancel_recovery_check(*old(g), user) is Ok,
        r matches Err(e) ==> cancel_recovery_check(*old(g), user) == Err::<(), IlowaError>(e)
            && *final(g) == *old(g),
        r is Ok ==> *final(g) == (ElderGuardian {
            recovery_initiated: false,
            recovery_timestamp: 0,
            canceled: true,
            ..*old(g)
        }),
{
    if !keys_equal(&g.user_wallet, &user) {
        return Err(IlowaError::Unauthorized);
    }
    if !g.recovery_initiated {
        return Err(IlowaError::RecoveryNotInProgress);
    }
    g.recovery_initiated = false;
    g.recovery_timestamp = 0;
    g.canceled = true;
    Ok(())
}

/// Why `execute_recovery` rejects, or `Ok` when it must succeed.
pub open spec fn execute_recovery_check(g: ElderGuardian, now: i64) -> Result<(), IlowaError> {
    if !g.recovery_initiated {
        Err(IlowaError::RecoveryNotInProgress)
    } else if g.canceled {
        Err(IlowaError::RecoveryCanceled)
    } else if now - g.recovery_timestamp < g.timelock {
        Err(IlowaError::TimelockNotElapsed)
    } else {
        Ok(())
    }
}

/// Completes a pending, uncanceled recovery once the timelock has elapsed;
/// the guardian key may then be rotated by the initiator.
pub fn execute_recovery(g: &mut ElderGuardian, now: i64) -> (r: Result<(), IlowaError>)
    requires
        old(g).wf(),
        0 <= now,
    ensures
        r is Ok <==> execute_recovery_check(*old(g), now) is Ok,
        r matches Err(e) ==> execute_recovery_check(*old(g), now) == Err::<(), IlowaError>(e)
            && *final(g) == *old(g),
        r is Ok ==> *final(g) == (ElderGuardian {
            recovery_initiated: false,
            recovery_timestamp: 0,
            ..*old(g)
        }),
{
    if !g.recovery_initiated {
        return Err(IlowaError::RecoveryNotInProgress);
    }
    if g.canceled {
        return Err(IlowaError::RecoveryCanceled);
    }
    if now - g.recovery_timestamp < g.timelock {
        return Err(IlowaError::TimelockNotElapsed);
    }
    g.recovery_initiated = false;
    g.recovery_timestamp = 0;
    Ok(())
}

/// One user's 3-of-5 social recovery record.
#[derive(Clone)]
pub struct SocialRecovery {
    pub user_wallet: AccountKey,
    pub guardians: Vec<AccountKey>,
    pub threshold: u8,
    pub recovery_in_progress: bool,
    pub approvals: Vec<AccountKey>,
    pub new_wallet: Option<AccountKey>,
}

/// Creates a social recovery record bound to exactly five guardians, with
/// the 3-of-5 threshold, no approvals, and no target wallet yet.
pub fn init_social_recovery(user: AccountKey, guardians: Vec<AccountKey>) -> (r: Result<
    SocialRecovery,
    IlowaError,
>)
    ensures
        r is Ok <==> guardians@.len() == GUARDIAN_COUNT,
        r matches Err(e) ==> e == IlowaError::InvalidGuardianCount && guardians@.len()
            != GUARDIAN_COUNT,
        r matches Ok(s) ==> ({
            &&& s.user_wallet == user
            &&& s.guardians == guardians
            &&& s.threshold == SOCIAL_THRESHOLD as u8
            &&& !s.recovery_in_progress
            &&& s.approvals@.len() == 0
            &&& s.new_wallet is None
        }),
{
    if guardians.len() != GUARDIAN_COUNT {
        return Err(IlowaError::InvalidGuardianCount);
    }
    Ok(
        SocialRecovery {
            user_wallet: user,
            guardians,
            threshold: SOCIAL_THRESHOLD as u8,
            recovery_in_progress: false,
            approvals: Vec::new(),
            new_wallet: None,
        },
    )
}

/// Why `approve_social_recovery` rejects, or `Ok` when it must succeed.
pub open spec fn approve_check(
    s: SocialRecovery,
    guardian: AccountKey,
    new_wallet: AccountKey,
) -> Result<(), IlowaError> {
    if !key_in(s.guardians@, guardian) {
        Err(IlowaError::NotAGuardian)
    } else if key_in(s.approvals@, guardian) {
        Err(IlowaError::AlreadyApproved)
    } else if s.new_wallet matches Some(w) && w@ != new_wallet@ {
        Err(IlowaError::Unauthorized)
    } else {
        Ok(())
    }
}

/// One guardian's approval of moving the wallet to `new_wallet`: the signer
/// must be a guardian who has not yet approved, and every approval must name
/// the same target. Returns whether the threshold is now reached — the
/// record keeps counting approvals either way, and completion is the host's
/// signal to hand control over.
pub fn approve_social_recovery(
    s: &mut SocialRecovery,
    guardian: AccountKey,
    new_wallet: AccountKey,
) -> (r: Result<bool, IlowaError>)
    ensures
        r is Ok <==> approve_check(*old(s), guardian, new_wallet) is Ok,
        r matches Err(e) ==> approve_check(*old(s), guardian, new_wallet) == Err::<(), IlowaError>(
            e,
        ) && *final(s) == *old(s),
        r matches Ok(complete) ==> ({
            &&& final(s).approvals@ == old(s).approvals@.push(guardian)
            &&& final(s).recovery_in_progress
            &&& final(s).new_wallet matches Some(w) && w@ == new_wallet@
            &&& (old(s).new_wallet matches Some(w) ==> final(s).new_wallet == old(s).new_wallet)
            &&& complete == (old(s).approvals@.len() + 1 >= old(s).threshold)
            &&& final(s).guardians == old(s).guardians
            &&& final(s).user_wallet == old(s).user_wallet
            &&& final(s).threshold == old(s).threshold
        }),
{
    if !key_list_contains(&s.guardians, &guardian) {
        return Err(IlowaError::NotAGuardian);
    }
    if key_list_contains(&s.approvals, &guardian) {
        return Err(IlowaError::AlreadyApproved);
    }
    match s.new_wallet {
        Some(existing) => {
            if !keys_equal(&existing, &new_wallet) {
                return Err(IlowaError::Unauthorized);
            }
        },
        None => {
            s.new_wallet = Some(new_wallet);
        },
    }
    s.approvals.push(guardian);
    s.recovery_in_progress = true;
    let complete = s.approvals.len() >= s.threshold as usize;
    Ok(complete)
}

/// No guardian approves twice: after a guardian's approval is recorded —
/// the state that `approve_social_recovery` leaves behind — the same
/// guardian's next approval always fails with `AlreadyApproved`, whatever
/// wallet it names.
pub proof fn lemma_no_double_approval(
    s: SocialRecovery,
    s2: SocialRecovery,
    guardian: AccountKey,
    w: AccountKey,
    w2: AccountKey,
)
    requires
        approve_check(s, guardian, w) is Ok,
        s2.guardians@ == s.guardians@,
        s2.approvals@ == s.approvals@.push(guardian),
    ensures
        approve_check(s2, guardian, w2) == Err::<(), IlowaError>(IlowaError::AlreadyApproved),
{
    assert(s2.approvals@[s.approvals@.len() as int]@ == guardian@);
    assert(key_in(s2.approvals@, guardian));
    let i = choose|i: int| 0 <= i < s.guardians@.len() && s.guardians@[i]@ == guardian@;
    assert(s2.guardians@[i]@ == guardian@);
}

} // verus!
