//! The dapp-reputation registry: community registration, elder endorsement
//! by vote count, and scam reporting with a rising risk score.

use crate::errors::IlowaError;
use crate::keys::AccountKey;
use vstd::prelude::*;

verus! {

/// Elder votes needed before a dapp counts as verified.
pub const ELDER_VOTE_THRESHOLD: u8 = 5;

/// Risk score of a freshly registered, unreviewed dapp.
pub const NEUTRAL_RISK: u8 = 50;
/// Risk score after elder endorsement.
pub const ENDORSED_RISK: u8 = 10;

/// One registered dapp's reputation record.
#[derive(Clone)]
pub struct DAppRegistry {
    pub dapp_pubkey: AccountKey,
    pub domain: String,
    pub verified: bool,
    pub elder_endorsed: bool,
    pub risk_score: u8,
    pub total_users: u64,
    pub scam_reports: u64,
    pub approved_votes: u8,
    pub date_verified: i64,
}

/// Registers a dapp: unverified, neutral risk, no votes or reports yet.
pub fn register_dapp(dapp: AccountKey, domain: String) -> (r: DAppRegistry)
    ensures
        r == (DAppRegistry {
            dapp_pubkey: dapp,
            domain,
            verified: false,
            elder_endorsed: false,
            risk_score: NEUTRAL_RISK,
            total_users: 0,
            scam_reports: 0,
            approved_votes: 0,
            date_verified: 0,
        }),
{
    DAppRegistry {
        dapp_pubkey: dapp,
        domain,
        verified: false,
        elder_endorsed: false,
        risk_score: NEUTRAL_RISK,
        total_users: 0,
        scam_reports: 0,
        approved_votes: 0,
        date_verified: 0,
    }
}

/// Counts one elder vote; at the threshold the dapp becomes verified and
/// endorsed, its risk drops to the endorsed level, and the time is recorded.
pub fn verify_dapp(r: &mut DAppRegistry, now: i64) -> (res: Result<bool, IlowaError>)
    ensures
        res is Ok <==> old(r).approved_votes + 1 <= u8::MAX,
        res matches Err(e) ==> e == IlowaError::ArithmeticOverflow && *final(r) == *old(r),
        res matches Ok(endorsed) ==> ({
            &&& final(r).approved_votes == old(r).approved_votes + 1
            &&& endorsed == (old(r).approved_votes + 1 >= ELDER_VOTE_THRESHOLD)
            &&& endorsed ==> *final(r) == (DAppRegistry {
                approved_votes: final(r).approved_votes,
                verified: true,
                elder_endorsed: true,
                risk_score: ENDORSED_RISK,
                date_verified: now,
                ..*old(r)
            })
            &&& !endorsed ==> *final(r) == (DAppRegistry {
                approved_votes: final(r).approved_votes,
                ..*old(r)
            })
        }),
{
    let votes = match r.approved_votes.checked_add(1) {
        Some(v) => v,
        None => {
            return Err(IlowaError::ArithmeticOverflow);
        },
    };
    r.approved_votes = votes;
    if votes >= ELDER_VOTE_THRESHOLD {
        r.verified = true;
        r.elder_endorsed = true;
        r.risk_score = ENDORSED_RISK;
        r.date_verified = now;
        Ok(true)
    } else {
        Ok(false)
    }
}

/// Counts one scam report and, while the risk score is below the ceiling,
/// raises it by five (saturating at the type's maximum).
pub fn report_dapp(r: &mut DAppRegistry) -> (res: Result<(), IlowaError>)
    ensures
        res is Ok <==> old(r).scam_reports + 1 <= u64::MAX,
        res matches Err(e) ==> e == IlowaError::ArithmeticOverflow && *final(r) == *old(r),
        res is Ok ==> ({
            &&& final(r).scam_reports == old(r).scam_reports + 1
            &&& final(r).risk_score == (if old(r).risk_score < 100 {
                if old(r).risk_score + 5 <= u8::MAX {
                    (old(r).risk_score + 5) as u8
                } else {
                    u8::MAX
                }
            } else {
                old(r).risk_score
            })
            &&& *final(r) == (DAppRegistry {
                scam_reports: final(r).scam_reports,
                risk_score: final(r).risk_score,
                ..*old(r)
            })
        }),
{
    let reports = match r.scam_reports.checked_add(1) {
        Some(v) => v,
        None => {
            return Err(IlowaError::ArithmeticOverflow);
        },
    };
    r.scam_reports = reports;
    if r.risk_score < 100 {
        r.risk_score = if r.risk_score <= u8::MAX - 5 {
            r.risk_score + 5
        } else {
            u8::MAX
        };
    }
    Ok(())
}

} // verus!
