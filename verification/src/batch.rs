//! Reports on several addresses at once: submitted as pending, then accepted
//! or rejected once, by a verifier with enough stake.

use vstd::prelude::*;
use crate::error::SolcatError;
use crate::gate::MIN_REPUTATION_SCORE;
use crate::state::{Address, BatchReport, ReporterStats, VerificationStatus};

verus! {

/// The most addresses that one batch can hold.
pub const MAX_BATCH_SIZE: usize = 10;

/// The aggregate stake that a verifier needs.
pub const MIN_VERIFICATION_STAKE: u64 = 100_000_000;

/// One address of a batch with the score claimed for it.
#[derive(Debug, Clone, Copy, PartialEq, Eq)]
pub struct BatchEntry {
    pub address: Address,
    pub risk_score: u8,
}

/// Whether some entry claims a score above 100.
pub open spec fn has_invalid_score(entries: Seq<BatchEntry>) -> bool {
    exists|i: int| 0 <= i < entries.len() && (#[trigger] entries[i]).risk_score > 100
}

/// Why a batch is refused, if it is.
pub open spec fn batch_rejection(
    reporter_is_signer: bool,
    reporter_stats: ReporterStats,
    entries: Seq<BatchEntry>,
) -> Option<SolcatError> {
    if !reporter_is_signer {
        Some(SolcatError::NotAuthorized)
    } else if reporter_stats.reputation_score < MIN_REPUTATION_SCORE {
        Some(SolcatError::InsufficientReputation)
    } else if entries.len() == 0 || entries.len() > MAX_BATCH_SIZE {
        Some(SolcatError::InvalidBatchReport)
    } else if has_invalid_score(entries) {
        Some(SolcatError::InvalidRiskScore)
    } else {
        None
    }
}

/// Submits a batch of one to ten addresses, each with a score of at most
/// 100. The batch holds the addresses and the scores in the order given and
/// awaits verification.
pub fn submit_batch_report(
    reporter: Address,
    reporter_is_signer: bool,
    reporter_stats: &ReporterStats,
    entries: &Vec<BatchEntry>,
    now: i64,
) -> (r: Result<BatchReport, SolcatError>)
    ensures
        match r {
            Ok(batch) => {
                &&& batch_rejection(reporter_is_signer, *reporter_stats, entries@) is None
                &&& batch.reporter == reporter
                &&& batch.addresses@ == Seq::new(entries@.len(), |i: int| entries@[i].address)
                &&& batch.risk_scores@ == Seq::new(entries@.len(), |i: int| entries@[i].risk_score)
                &&& batch.timestamp == now
                &&& batch.verification_status == VerificationStatus::Pending
                &&& batch.wf()
            },
            Err(e) => batch_rejection(reporter_is_signer, *reporter_stats, entries@) == Some(e),
        },
{
    if !reporter_is_signer {
        return Err(SolcatError::NotAuthorized);
    }
    if reporter_stats.reputation_score < MIN_REPUTATION_SCORE {
        return Err(SolcatError::InsufficientReputation);
    }
    let count: usize = entries.len();
    if count == 0 || count > MAX_BATCH_SIZE {
        return Err(SolcatError::InvalidBatchReport);
    }
    let mut addresses: Vec<Address> = Vec::new();
    let mut risk_scores: Vec<u8> = Vec::new();
    let mut i: usize = 0;
    while i < count
        invariant
            reporter_is_signer,
            reporter_stats.reputation_score >= MIN_REPUTATION_SCORE,
            count == entries@.len(),
            1 <= count <= MAX_BATCH_SIZE,
            i <= count,
            addresses@ == Seq::new(i as nat, |k: int| entries@[k].address),
            risk_scores@ == Seq::new(i as nat, |k: int| entries@[k].risk_score),
            forall|k: int| 0 <= k < i ==> (#[trigger] entries@[k]).risk_score <= 100,
        decreases count - i,
    {
        let entry: BatchEntry = entries[i];
        if entry.risk_score > 100 {
            assert(has_invalid_score(entries@));
            return Err(SolcatError::InvalidRiskScore);
        }
        addresses.push(entry.address);
        risk_scores.push(entry.risk_score);
        i += 1;
        assert(addresses@ =~= Seq::new(i as nat, |k: int| entries@[k].address));
        assert(risk_scores@ =~= Seq::new(i as nat, |k: int| entries@[k].risk_score));
    }
    Ok(
        BatchReport {
            reporter,
            addresses,
            risk_scores,
            timestamp: now,
            verification_status: VerificationStatus::Pending,
        },
    )
}

/// Why a verification is refused, if it is.
pub open spec fn verification_rejection(
    verifier_is_signer: bool,
    verifier_stats: ReporterStats,
    status: VerificationStatus,
) -> Option<SolcatError> {
    if !verifier_is_signer {
        Some(SolcatError::NotAuthorized)
    } else if verifier_stats.total_stake < MIN_VERIFICATION_STAKE {
        Some(SolcatError::InsufficientStake)
    } else if status != VerificationStatus::Pending {
        Some(SolcatError::BatchVerificationPending)
    } else {
        None
    }
}

/// Where a verifier's decision takes a pending batch.
pub open spec fn decided(decision: bool) -> VerificationStatus {
    if decision {
        VerificationStatus::Verified
    } else {
        VerificationStatus::Rejected
    }
}

/// Accepts or rejects a pending batch, on the decision of a verifier with
/// enough stake. A batch that was decided stays as it is.
pub fn verify_batch_report(
    verifier_is_signer: bool,
    verifier_stats: &ReporterStats,
    batch_report: &mut BatchReport,
    decision: bool,
) -> (r: Result<(), SolcatError>)
    ensures
        match r {
            Ok(_) => {
                &&& verification_rejection(
                    verifier_is_signer,
                    *verifier_stats,
                    old(batch_report).verification_status,
                ) is None
                &&& *final(batch_report) == (BatchReport {
                    verification_status: decided(decision),
                    ..*old(batch_report)
                })
            },
            Err(e) => {
                &&& verification_rejection(
                    verifier_is_signer,
                    *verifier_stats,
                    old(batch_report).verification_status,
                ) == Some(e)
                &&& *final(batch_report) == *old(batch_report)
            },
        },
{
    if !verifier_is_signer {
        return Err(SolcatError::NotAuthorized);
    }
    if verifier_stats.total_stake < MIN_VERIFICATION_STAKE {
        return Err(SolcatError::InsufficientStake);
    }
    match batch_report.verification_status {
        VerificationStatus::Pending => {},
        _ => {
            return Err(SolcatError::BatchVerificationPending);
        },
    }
    batch_report.verification_status = if decision {
        VerificationStatus::Verified
    } else {
        VerificationStatus::Rejected
    };
    Ok(())
}

/// A batch of no address, or of more than ten, is refused as invalid
/// whenever a signer of sufficient reputation submits it.
pub proof fn lemma_batch_size_enforced(reporter_stats: ReporterStats, entries: Seq<BatchEntry>)
    requires
        reporter_stats.reputation_score >= MIN_REPUTATION_SCORE,
        entries.len() == 0 || entries.len() > MAX_BATCH_SIZE,
    ensures
        batch_rejection(true, reporter_stats, entries) == Some(SolcatError::InvalidBatchReport),
{
}

/// A decision is final: it leaves the batch in a state in which every later
/// verification is refused, and one by a signer with enough stake is refused
/// because the batch is no longer pending.
pub proof fn lemma_verification_is_final(
    decision: bool,
    verifier_is_signer: bool,
    verifier_stats: ReporterStats,
)
    ensures
        decided(decision) != VerificationStatus::Pending,
        verification_rejection(verifier_is_signer, verifier_stats, decided(decision)) is Some,
        verifier_is_signer && verifier_stats.total_stake >= MIN_VERIFICATION_STAKE
            ==> verification_rejection(verifier_is_signer, verifier_stats, decided(decision))
            == Some(SolcatError::BatchVerificationPending),
{
}

} // verus!
