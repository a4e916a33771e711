//! Wallet recovery, the dapp-reputation registry, voice collectibles, and
//! the secure-computation session and reward ledger.

use ilowa::errors::IlowaError;
use ilowa::mpc::{
    claim_fl_rewards, close_mpc_session, disable_federated_learning, init_federated_learning,
    init_fl_reward_pool, init_mpc_session, record_contribution, record_interaction,
    MAX_SESSION_DURATION,
};
use ilowa::recovery::{
    approve_social_recovery, cancel_recovery, execute_recovery, init_elder_guardian,
    init_social_recovery, initiate_recovery, set_guardian_key, ElderGuardian, ELDER_TIMELOCK,
};
use ilowa::registry::{register_dapp, report_dapp, verify_dapp};
use ilowa::voice_nft::mint_voice_nft;

fn key(tag: u8) -> [u8; 32] {
    let mut k = [0u8; 32];
    k[0] = tag;
    k
}

#[test]
fn elder_guardian_lifecycle() {
    let mut g = init_elder_guardian(key(1));
    assert_eq!(g.user_wallet, key(1));
    assert_eq!(g.guardian_key, [0u8; 32]);
    assert_eq!(g.timelock, ELDER_TIMELOCK);
    assert!(!g.recovery_initiated);

    let r = set_guardian_key(&mut g, key(2), key(9));
    assert_eq!(r.err(), Some(IlowaError::Unauthorized));
    set_guardian_key(&mut g, key(1), key(9)).unwrap();
    assert_eq!(g.guardian_key, key(9));

    initiate_recovery(&mut g, 1_000).unwrap();
    assert!(g.recovery_initiated);
    assert_eq!(g.recovery_timestamp, 1_000);
    let r = initiate_recovery(&mut g, 1_001);
    assert_eq!(r.err(), Some(IlowaError::RecoveryAlreadyInProgress));

    // One second short of the timelock is still too early.
    let r = execute_recovery(&mut g, 1_000 + ELDER_TIMELOCK - 1);
    assert_eq!(r.err(), Some(IlowaError::TimelockNotElapsed));
    execute_recovery(&mut g, 1_000 + ELDER_TIMELOCK).unwrap();
    assert!(!g.recovery_initiated);
}

#[test]
fn recovery_cancel_and_canceled_paths() {
    let mut g = init_elder_guardian(key(1));
    let r = cancel_recovery(&mut g, key(1));
    assert_eq!(r.err(), Some(IlowaError::RecoveryNotInProgress));
    initiate_recovery(&mut g, 1_000).unwrap();
    let r = cancel_recovery(&mut g, key(3));
    assert_eq!(r.err(), Some(IlowaError::Unauthorized));
    cancel_recovery(&mut g, key(1)).unwrap();
    assert!(g.canceled);
    assert!(!g.recovery_initiated);
    let r = execute_recovery(&mut g, i64::MAX - 1);
    assert_eq!(r.err(), Some(IlowaError::RecoveryNotInProgress));

    // A pending recovery that was marked canceled without being cleared is
    // refused outright.
    let mut stuck = ElderGuardian {
        user_wallet: key(1),
        guardian_key: key(9),
        timelock: 10,
        recovery_initiated: true,
        recovery_timestamp: 0,
        canceled: true,
    };
    let r = execute_recovery(&mut stuck, 1_000_000);
    assert_eq!(r.err(), Some(IlowaError::RecoveryCanceled));
}

#[test]
fn social_recovery_full_flow() {
    let guardians = vec![key(10), key(11), key(12), key(13), key(14)];
    let r = init_social_recovery(key(1), guardians[..4].to_vec());
    assert_eq!(r.err(), Some(IlowaError::InvalidGuardianCount));
    let mut rec = init_social_recovery(key(1), guardians).unwrap();
    assert_eq!(rec.threshold, 3);
    assert_eq!(rec.new_wallet, None);

    let complete = approve_social_recovery(&mut rec, key(10), key(77)).unwrap();
    assert!(!complete);
    assert_eq!(rec.new_wallet, Some(key(77)));
    assert!(rec.recovery_in_progress);

    // The same guardian cannot approve twice.
    let r = approve_social_recovery(&mut rec, key(10), key(77));
    assert_eq!(r.err(), Some(IlowaError::AlreadyApproved));

    // Every approval must name the same target wallet.
    let r = approve_social_recovery(&mut rec, key(11), key(78));
    assert_eq!(r.err(), Some(IlowaError::Unauthorized));

    let complete = approve_social_recovery(&mut rec, key(11), key(77)).unwrap();
    assert!(!complete);
    let complete = approve_social_recovery(&mut rec, key(12), key(77)).unwrap();
    assert!(complete);
    assert_eq!(rec.approvals.len(), 3);
}

#[test]
fn social_recovery_wrong_guardian() {
    let guardians = vec![key(10), key(11), key(12), key(13), key(14)];
    let mut rec = init_social_recovery(key(1), guardians).unwrap();
    let impostor = key(66);
    let r = approve_social_recovery(&mut rec, impostor, key(77));
    assert_eq!(r.err(), Some(IlowaError::NotAGuardian));
    assert_eq!(rec.approvals.len(), 0);
    assert_eq!(rec.new_wallet, None);
}

#[test]
fn dapp_registry_lifecycle() {
    let mut reg = register_dapp(key(5), String::from("https://example-dapp.com"));
    assert!(!reg.verified);
    assert_eq!(reg.risk_score, 50);
    for _ in 0..4 {
        let endorsed = verify_dapp(&mut reg, 2_000).unwrap();
        assert!(!endorsed);
    }
    assert!(!reg.verified);
    let endorsed = verify_dapp(&mut reg, 2_000).unwrap();
    assert!(endorsed);
    assert!(reg.verified);
    assert!(reg.elder_endorsed);
    assert_eq!(reg.risk_score, 10);
    assert_eq!(reg.date_verified, 2_000);

    report_dapp(&mut reg).unwrap();
    assert_eq!(reg.scam_reports, 1);
    assert_eq!(reg.risk_score, 15);

    // The risk score stops rising at the ceiling.
    reg.risk_score = 99;
    report_dapp(&mut reg).unwrap();
    assert_eq!(reg.risk_score, 104);
    report_dapp(&mut reg).unwrap();
    assert_eq!(reg.risk_score, 104);
}

#[test]
fn mint_voice_nft_requires_recording() {
    let r = mint_voice_nft(key(1), String::new(), String::from("m"), key(9), false, false, 100);
    assert_eq!(r.err(), Some(IlowaError::VoiceUriRequired));
    let nft = mint_voice_nft(
        key(1),
        String::from("ipfs://QmVoicePrediction123"),
        String::from("ipfs://QmMetadata456"),
        key(9),
        true,
        false,
        100,
    )
    .unwrap();
    assert_eq!(nft.mints, 1);
    assert!(nft.is_winner);
    assert_eq!(nft.created_at, 100);
}

#[test]
fn mpc_session_lifecycle() {
    let mut s = init_mpc_session(key(1), [7u8; 32], 1_000);
    assert_eq!(s.expires_at, 1_000 + MAX_SESSION_DURATION);
    assert!(s.is_active);

    record_interaction(&mut s, [1u8; 32], 1_500).unwrap();
    assert_eq!(s.interaction_count, 1);
    assert_eq!(s.last_interaction_hash, [1u8; 32]);

    let expiry = s.expires_at;
    let r = record_interaction(&mut s, [2u8; 32], expiry);
    assert_eq!(r.err(), Some(IlowaError::SessionExpired));

    // Only the owner may close a live session; anyone may once it expired.
    let r = close_mpc_session(&s, key(2), 2_000);
    assert_eq!(r.err(), Some(IlowaError::Unauthorized));
    assert!(close_mpc_session(&s, key(1), 2_000).is_ok());
    assert!(close_mpc_session(&s, key(2), s.expires_at + 1).is_ok());

    s.is_active = false;
    let r = record_interaction(&mut s, [3u8; 32], 1_600);
    assert_eq!(r.err(), Some(IlowaError::InvalidMpcSession));
}

#[test]
fn fl_contributions_and_rewards() {
    let mut f = init_federated_learning(key(1), 500);
    assert!(f.enabled);
    record_contribution(&mut f, [1u8; 32], 0, 600).unwrap();
    assert_eq!(f.pending_rewards, 1_000_000);
    record_contribution(&mut f, [2u8; 32], 1, 700).unwrap();
    assert_eq!(f.pending_rewards, 2_500_000);
    record_contribution(&mut f, [3u8; 32], 2, 800).unwrap();
    assert_eq!(f.pending_rewards, 4_500_000);
    assert_eq!(f.contribution_count, 3);

    let mut pool = init_fl_reward_pool();

    // Too few contributions to claim yet.
    let r = claim_fl_rewards(&mut f, &mut pool, u64::MAX, 900);
    assert_eq!(r.err(), Some(IlowaError::NoRewardsToClaim));

    for i in 3..10 {
        record_contribution(&mut f, [i as u8; 32], 0, 900).unwrap();
    }
    assert_eq!(f.contribution_count, 10);
    let pending = f.pending_rewards;

    // The pool cannot cover the claim.
    let r = claim_fl_rewards(&mut f, &mut pool, pending - 1, 1_000);
    assert_eq!(r.err(), Some(IlowaError::RewardPoolExhausted));

    let amount = claim_fl_rewards(&mut f, &mut pool, pending, 1_000).unwrap();
    assert_eq!(amount, pending);
    assert_eq!(f.pending_rewards, 0);
    assert_eq!(f.total_earned, pending);
    assert_eq!(f.last_claim_at, 1_000);
    assert_eq!(pool.total_distributed, pending);

    // Nothing pending: a second claim finds no rewards.
    let r = claim_fl_rewards(&mut f, &mut pool, u64::MAX, 1_100);
    assert_eq!(r.err(), Some(IlowaError::NoRewardsToClaim));

    disable_federated_learning(&mut f);
    let r = record_contribution(&mut f, [9u8; 32], 0, 1_200);
    assert_eq!(r.err(), Some(IlowaError::FLNotEnabled));
    let r = claim_fl_rewards(&mut f, &mut pool, u64::MAX, 1_200);
    assert_eq!(r.err(), Some(IlowaError::FLNotEnabled));
}
