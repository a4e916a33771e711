//! Error codes of the settlement engine. Every rejected precondition maps to
//! one distinct, stable code, so callers can branch on the cause.

use vstd::prelude::*;

verus! {

/// Why a call was rejected. No partial effect accompanies any of these: a
/// function that returns an error leaves every record it took exactly as it
/// found it.
#[derive(Clone, Copy, Debug, PartialEq, Eq, Structural)]
pub enum IlowaError {
    // Market lifecycle
    QuestionTooLong,
    MarketAlreadyResolved,
    MarketExpired,
    MarketNotExpired,
    MarketNotActive,
    InvalidExpiry,
    // Wager admission
    BetTooSmall,
    BetTooLarge,
    // Tipping
    TipTooSmall,
    // Shielded wagers
    InvalidEncryptedData,
    InvalidZkProof,
    // Rate limiting
    RateLimitExceeded,
    BetTooSoon,
    UserBanned,
    // Compact market creation
    InvalidQuestionLength,
    InvalidResolveDate,
    ResolveDateTooFar,
    InvalidCategory,
    InvalidRegion,
    // Claims
    MarketNotResolved,
    AlreadyClaimed,
    BetLost,
    NoWinningBets,
    // Oracle resolution
    OracleNotSet,
    OraclePriceMismatch,
    OraclePriceStale,
    InvalidOracleAccount,
    InvalidOracleExponent,
    // Shielded pool aggregation
    ShieldedPoolFinalized,
    NotMxeAuthority,
    // Wallet recovery
    RecoveryAlreadyInProgress,
    RecoveryNotInProgress,
    TimelockNotElapsed,
    RecoveryCanceled,
    InvalidGuardianCount,
    NotAGuardian,
    AlreadyApproved,
    // Voice collectibles
    VoiceUriRequired,
    // Secure-computation sessions and reward ledger
    InvalidMpcSession,
    SessionExpired,
    FLNotEnabled,
    NoRewardsToClaim,
    RewardPoolExhausted,
    // General
    Unauthorized,
    ArithmeticOverflow,
}

} // verus!
