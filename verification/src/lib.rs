//! Wager-pool settlement engine: binary prediction markets with two opposing
//! stake pools, fee-split wager admission, manual and oracle-verified
//! resolution, and proportional parimutuel payout, plus a shielded-wager
//! variant whose amounts stay encrypted and are reconciled by an external
//! aggregator.
//!
//! The host ledger (account creation, deterministic addressing, value
//! transfer, the clock) is an external collaborator: every function here takes
//! plain values — records, amounts, timestamps, caller identities — decides,
//! and returns the updated records and the transfers the host must perform.
//! Beside the settlement core stand the service's record-keeping side
//! components: admission rate limiting, tip routing, wallet recovery, the
//! dapp-reputation registry, voice collectibles, and the secure-computation
//! session and reward ledger.

pub mod compressed;
pub mod errors;
pub mod keys;
pub mod light;
pub mod market;
pub mod mpc;
pub mod oracle;
pub mod payout;
pub mod rate_limit;
pub mod recovery;
pub mod registry;
pub mod shielded;
pub mod shielded_pool;
pub mod tipping;
pub mod voice_nft;
