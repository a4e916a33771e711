//! Admission rate limiting: a sliding one-hour window with a per-bet
//! cooldown, and an automatic temporary ban on suspicious volume. This is
//! pluggable middleware in front of wager admission — `can_bet` decides,
//! `record_bet` updates the window after a successful wager.

use crate::errors::IlowaError;
use crate::keys::AccountKey;
use vstd::prelude::*;

verus! {

/// Most bets admitted inside one window.
pub const MAX_BETS_PER_HOUR: u8 = 10;
/// Shortest pause between two bets, in seconds.
pub const MIN_BET_INTERVAL: i64 = 60;
/// Length of the sliding window, in seconds.
pub const WINDOW_DURATION: i64 = 3600;
/// Window count above which a user is banned automatically.
pub const SUSPICIOUS_THRESHOLD: u8 = 20;
/// Length of an automatic ban, in seconds.
pub const BAN_DURATION: i64 = 24 * 3600;

/// Per-user rate-limit state.
#[derive(Clone)]
pub struct RateLimitAccount {
    pub user: AccountKey,
    pub last_bet_timestamp: i64,
    pub bets_in_window: u8,
    pub window_start: i64,
    pub banned_until: Option<i64>,
}

impl RateLimitAccount {
    /// Well-formedness: all stored instants are nonnegative, as every host
    /// clock reading is.
    pub open spec fn wf(self) -> bool {
        &&& 0 <= self.last_bet_timestamp
        &&& 0 <= self.window_start
        &&& (self.banned_until matches Some(b) ==> 0 <= b)
    }

    /// Why `can_bet` rejects, or `Ok` when a bet is admissible now.
    pub open spec fn can_bet_check(self, now: i64) -> Result<(), IlowaError> {
        if self.banned_until matches Some(ban) && now < ban {
            Err(IlowaError::UserBanned)
        } else if now - self.window_start >= WINDOW_DURATION {
            Ok(())
        } else if self.bets_in_window >= MAX_BETS_PER_HOUR {
            Err(IlowaError::RateLimitExceeded)
        } else if now - self.last_bet_timestamp < MIN_BET_INTERVAL {
            Err(IlowaError::BetTooSoon)
        } else {
            Ok(())
        }
    }

    /// Decides whether this user may bet at `now`: not while banned, always
    /// once the window has expired, otherwise only under the window's count
    /// cap and past the cooldown.
    pub fn can_bet(&self, now: i64) -> (r: Result<(), IlowaError>)
        requires
            self.wf(),
            0 <= now,
        ensures
            r == self.can_bet_check(now),
    {
        if let Some(ban) = self.banned_until {
            if now < ban {
                return Err(IlowaError::UserBanned);
            }
        }
        if now - self.window_start >= WINDOW_DURATION {
            return Ok(());
        }
        if self.bets_in_window >= MAX_BETS_PER_HOUR {
            return Err(IlowaError::RateLimitExceeded);
        }
        if now - self.last_bet_timestamp < MIN_BET_INTERVAL {
            return Err(IlowaError::BetTooSoon);
        }
        Ok(())
    }

    /// The state after recording a successful bet at `now`: the window
    /// resets if it had expired, the count advances (saturating), the
    /// cooldown restarts, and a count past the suspicious threshold bans the
    /// user until `now` plus the ban length.
    pub open spec fn record_bet_result(self, now: i64) -> RateLimitAccount {
        let reset = now - self.window_start >= WINDOW_DURATION;
        let window_start = if reset {
            now
        } else {
            self.window_start
        };
        let count = if reset {
            1u8
        } else if self.bets_in_window == u8::MAX {
            u8::MAX
        } else {
            (self.bets_in_window + 1) as u8
        };
        RateLimitAccount {
            user: self.user,
            last_bet_timestamp: now,
            bets_in_window: count,
            window_start,
            banned_until: if count > SUSPICIOUS_THRESHOLD {
                Some((now + BAN_DURATION) as i64)
            } else {
                self.banned_until
            },
        }
    }

    /// Updates the rate-limit state after a successful bet.
    pub fn record_bet(&mut self, now: i64)
        requires
            old(self).wf(),
            0 <= now <= i64::MAX - BAN_DURATION,
        ensures
            *final(self) == old(self).record_bet_result(now),
            final(self).wf(),
    {
        if now - self.window_start >= WINDOW_DURATION {
            self.window_start = now;
            self.bets_in_window = 0;
        }
        self.last_bet_timestamp = now;
        self.bets_in_window = if self.bets_in_window == u8::MAX {
            u8::MAX
        } else {
            self.bets_in_window + 1
        };
        if self.bets_in_window > SUSPICIOUS_THRESHOLD {
            self.banned_until = Some(now + BAN_DURATION);
        }
    }
}

} // verus!
