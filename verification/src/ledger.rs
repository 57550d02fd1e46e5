//! The report ledger: filing a report, revising it once its time lock has
//! run out, and backing it with stake. Each handler checks everything before
//! it changes anything, so a refusal leaves every record as it was.

use vstd::prelude::*;
use crate::arith::{
    add_clamped_i64,
    add_clamped_u32,
    add_clamped_u64,
    clamp_i64,
    clamp_u32,
    clamp_u64,
    mul_clamped_u32,
    sub_clamped_u32,
};
use crate::error::SolcatError;
use crate::gate::{after_report, check_gate, gate_rejection, record_report};
use crate::scoring::{calculate_risk_score, risk_score_of};
use crate::state::{
    Address,
    AddressReport,
    AddressStats,
    GlobalConfig,
    ReporterStats,
    RiskAssessment,
    RiskMetrics,
    RiskType,
};
use crate::weight::{calculate_vote_weight, vote_weight_of};

verus! {

/// Seconds during which a report cannot be revised after it was filed or revised.
pub const TIME_LOCK_DURATION: i64 = 604800;

/// What a reporter sends to file a report.
#[derive(Debug)]
pub struct ReportPayload {
    pub risk_score: u8,
    pub description: String,
    pub risk_types: Vec<RiskType>,
    pub confidence_score: u8,
    pub evidence_count: u32,
    pub transaction_volume: u64,
    pub unique_interactions: u32,
    pub age_of_account: i64,
    pub suspicious_patterns: Vec<String>,
}

/// What a score of `score` with a vote of `weight` adds to an address's weighted sum.
pub open spec fn contribution(score: int, weight: int) -> int {
    clamp_u32(score * weight)
}

/// The weighted sum after one contribution is taken out and another put in,
/// each step stopping at the ends of the range.
pub open spec fn reweighted(sum: int, removed: int, added: int) -> int {
    clamp_u32(clamp_u32(sum - removed) + added)
}

/// Why a report is refused, if it is: no signature, the reporter turned
/// away, or a declared score or confidence above 100.
pub open spec fn report_rejection(
    reporter_is_signer: bool,
    reporter_stats: ReporterStats,
    risk_score: u8,
    confidence_score: u8,
    now: int,
) -> Option<SolcatError> {
    if !reporter_is_signer {
        Some(SolcatError::NotAuthorized)
    } else if gate_rejection(reporter_stats, now) is Some {
        gate_rejection(reporter_stats, now)
    } else if risk_score > 100 {
        Some(SolcatError::InvalidRiskScore)
    } else if confidence_score > 100 {
        Some(SolcatError::InvalidReportData)
    } else {
        None
    }
}

/// The score that a payload earns: its declared score blended with its metrics.
pub open spec fn payload_score(payload: ReportPayload) -> int {
    risk_score_of(
        payload.risk_score as int,
        payload.confidence_score as int,
        payload.transaction_volume as int,
        payload.unique_interactions as int,
        payload.age_of_account as int,
        payload.suspicious_patterns@.len() as int,
    )
}

/// Whether `report` is the report that `reporter` files about `reported`
/// at `now` with `payload` and a vote of `weight`.
pub open spec fn is_new_report(
    report: AddressReport,
    reporter: Address,
    reported: Address,
    payload: ReportPayload,
    weight: int,
    now: int,
) -> bool {
    &&& report.reporter == reporter
    &&& report.reported_address == reported
    &&& report.risk_score == payload_score(payload)
    &&& report.stake_amount == 0
    &&& report.timestamp == now
    &&& report.description == payload.description
    &&& report.vote_weight == weight
    &&& report.last_update_time == now
    &&& report.time_lock_end == clamp_i64(now + TIME_LOCK_DURATION)
    &&& report.risk_assessment.base_score == payload.risk_score
    &&& report.risk_assessment.risk_types == payload.risk_types
    &&& report.risk_assessment.confidence_score == payload.confidence_score
    &&& report.risk_assessment.evidence_count == payload.evidence_count
    &&& report.risk_assessment.last_update == now
    &&& report.risk_metrics.transaction_volume == payload.transaction_volume
    &&& report.risk_metrics.unique_interactions == payload.unique_interactions
    &&& report.risk_metrics.age_of_account == payload.age_of_account
    &&& report.risk_metrics.suspicious_patterns == payload.suspicious_patterns
}

/// Whether `after` is `before` with one more report counted in: a report
/// whose score is `score`, with a vote of `weight`, at `now`.
pub open spec fn counts_report(
    before: AddressStats,
    after: AddressStats,
    score: u8,
    weight: int,
    now: int,
) -> bool {
    &&& after.total_reports == clamp_u32(before.total_reports + 1)
    &&& after.risk_scores@ == before.risk_scores@.push(score)
    &&& after.total_stake == before.total_stake
    &&& after.last_update == now
    &&& after.weighted_risk_score == clamp_u32(before.weighted_risk_score + score * weight)
    &&& after.total_vote_weight == clamp_u32(before.total_vote_weight + weight)
}

/// Files a report of `reporter` about `reported_address`.
///
/// The report carries the blended score and the reporter's vote weight and is
/// locked against revision for a week. The address's statistics take in the
/// report's score with that weight, which is what a later revision takes out
/// again, and the reporter's statistics count the report and start the cooldown.
pub fn report_address(
    reporter: Address,
    reporter_is_signer: bool,
    reported_address: Address,
    payload: ReportPayload,
    reporter_stats: &mut ReporterStats,
    stats: &mut AddressStats,
    now: i64,
) -> (r: Result<AddressReport, SolcatError>)
    ensures
        match r {
            Ok(report) => {
                &&& report_rejection(
                    reporter_is_signer,
                    *old(reporter_stats),
                    payload.risk_score,
                    payload.confidence_score,
                    now as int,
                ) is None
                &&& is_new_report(
                    report,
                    reporter,
                    reported_address,
                    payload,
                    vote_weight_of(*old(reporter_stats)),
                    now as int,
                )
                &&& report.wf()
                &&& report.risk_assessment.wf()
                &&& counts_report(
                    *old(stats),
                    *final(stats),
                    report.risk_score,
                    report.vote_weight as int,
                    now as int,
                )
                &&& *final(reporter_stats) == after_report(*old(reporter_stats), now as int)
            },
            Err(e) => {
                &&& report_rejection(
                    reporter_is_signer,
                    *old(reporter_stats),
                    payload.risk_score,
                    payload.confidence_score,
                    now as int,
                ) == Some(e)
                &&& *final(stats) == *old(stats)
                &&& *final(reporter_stats) == *old(reporter_stats)
            },
        },
{
    if !reporter_is_signer {
        return Err(SolcatError::NotAuthorized);
    }
    match check_gate(reporter_stats, now) {
        Err(e) => {
            return Err(e);
        },
        Ok(_) => {},
    }
    if payload.risk_score > 100 {
        return Err(SolcatError::InvalidRiskScore);
    }
    if payload.confidence_score > 100 {
        return Err(SolcatError::InvalidReportData);
    }
    let risk_assessment = RiskAssessment {
        base_score: payload.risk_score,
        risk_types: payload.risk_types,
        confidence_score: payload.confidence_score,
        evidence_count: payload.evidence_count,
        last_update: now,
    };
    let risk_metrics = RiskMetrics {
        transaction_volume: payload.transaction_volume,
        unique_interactions: payload.unique_interactions,
        age_of_account: payload.age_of_account,
        suspicious_patterns: payload.suspicious_patterns,
    };
    let final_risk_score: u8 = calculate_risk_score(&risk_assessment, &risk_metrics);
    let vote_weight: u32 = calculate_vote_weight(reporter_stats);
    let report = AddressReport {
        reporter,
        reported_address,
        risk_score: final_risk_score,
        stake_amount: 0,
        timestamp: now,
        description: payload.description,
        vote_weight,
        last_update_time: now,
        time_lock_end: add_clamped_i64(now, TIME_LOCK_DURATION),
        risk_assessment,
        risk_metrics,
    };

    stats.total_reports = add_clamped_u32(stats.total_reports, 1);
    stats.risk_scores.push(final_risk_score);
    stats.last_update = now;
    stats.weighted_risk_score = add_clamped_u32(
        stats.weighted_risk_score,
        mul_clamped_u32(final_risk_score as u32, vote_weight),
    );
    stats.total_vote_weight = add_clamped_u32(stats.total_vote_weight, vote_weight);

    record_report(reporter_stats, now);
    Ok(report)
}

/// Why a revision is refused, if it is.
pub open spec fn update_rejection(
    caller: Address,
    caller_is_signer: bool,
    report: AddressReport,
    new_score: u8,
    now: int,
) -> Option<SolcatError> {
    if !caller_is_signer || caller@ != report.reporter@ {
        Some(SolcatError::NotAuthorized)
    } else if now < report.time_lock_end {
        Some(SolcatError::TimeLockActive)
    } else if new_score > 100 {
        Some(SolcatError::InvalidRiskScore)
    } else {
        None
    }
}

/// Revises a report: a new score and description, by its own reporter, once
/// the time lock has run out. The address's weighted sum gives up what the old
/// score had put in and takes what the new one puts in, and the lock starts anew.
pub fn update_report(
    caller: Address,
    caller_is_signer: bool,
    report: &mut AddressReport,
    stats: &mut AddressStats,
    new_score: u8,
    new_description: String,
    now: i64,
) -> (r: Result<(), SolcatError>)
    ensures
        match r {
            Ok(_) => {
                &&& update_rejection(caller, caller_is_signer, *old(report), new_score, now as int)
                    is None
                &&& *final(report) == (AddressReport {
                    risk_score: new_score,
                    description: new_description,
                    last_update_time: now,
                    time_lock_end: clamp_i64(now + TIME_LOCK_DURATION) as i64,
                    ..*old(report)
                })
                &&& final(report).wf()
                &&& *final(stats) == (AddressStats {
                    weighted_risk_score: reweighted(
                        old(stats).weighted_risk_score as int,
                        contribution(old(report).risk_score as int, old(report).vote_weight as int),
                        contribution(new_score as int, old(report).vote_weight as int),
                    ) as u32,
                    last_update: now,
                    ..*old(stats)
                })
            },
            Err(e) => {
                &&& update_rejection(caller, caller_is_signer, *old(report), new_score, now as int)
                    == Some(e)
                &&& *final(report) == *old(report)
                &&& *final(stats) == *old(stats)
            },
        },
{
    if !caller_is_signer || !caller.same(&report.reporter) {
        return Err(SolcatError::NotAuthorized);
    }
    if now < report.time_lock_end {
        return Err(SolcatError::TimeLockActive);
    }
    if new_score > 100 {
        return Err(SolcatError::InvalidRiskScore);
    }
    let removed: u32 = mul_clamped_u32(report.risk_score as u32, report.vote_weight);
    let added: u32 = mul_clamped_u32(new_score as u32, report.vote_weight);

    report.risk_score = new_score;
    report.description = new_description;
    report.last_update_time = now;
    report.time_lock_end = add_clamped_i64(now, TIME_LOCK_DURATION);

    stats.weighted_risk_score = add_clamped_u32(
        sub_clamped_u32(stats.weighted_risk_score, removed),
        added,
    );
    stats.last_update = now;
    Ok(())
}

/// Why a stake on a report is refused, if it is.
pub open spec fn stake_rejection(staker_is_signer: bool, config: GlobalConfig, amount: u64) -> Option<
    SolcatError,
> {
    if !staker_is_signer {
        Some(SolcatError::NotAuthorized)
    } else if amount < config.min_stake_amount {
        Some(SolcatError::InsufficientStake)
    } else {
        None
    }
}

/// Backs a report with `amount` of native value, which the host moves from
/// the staker to the report's record.
///
/// The report's vote weight is taken anew from the reporter's statistics as
/// they stand before this stake, the address's weighted sum follows the change
/// of weight, and the stake is added to the report, the address and the reporter.
pub fn stake_on_report(
    staker_is_signer: bool,
    config: &GlobalConfig,
    report: &mut AddressReport,
    stats: &mut AddressStats,
    reporter_stats: &mut ReporterStats,
    amount: u64,
) -> (r: Result<(), SolcatError>)
    ensures
        match r {
            Ok(_) => {
                &&& stake_rejection(staker_is_signer, *config, amount) is None
                &&& *final(report) == (AddressReport {
                    stake_amount: clamp_u64(old(report).stake_amount + amount) as u64,
                    vote_weight: vote_weight_of(*old(reporter_stats)) as u32,
                    ..*old(report)
                })
                &&& *final(stats) == (AddressStats {
                    total_stake: clamp_u64(old(stats).total_stake + amount) as u64,
                    weighted_risk_score: reweighted(
                        old(stats).weighted_risk_score as int,
                        contribution(old(report).risk_score as int, old(report).vote_weight as int),
                        contribution(
                            old(report).risk_score as int,
                            vote_weight_of(*old(reporter_stats)),
                        ),
                    ) as u32,
                    ..*old(stats)
                })
                &&& *final(reporter_stats) == (ReporterStats {
                    total_stake: clamp_u64(old(reporter_stats).total_stake + amount) as u64,
                    ..*old(reporter_stats)
                })
            },
            Err(e) => {
                &&& stake_rejection(staker_is_signer, *config, amount) == Some(e)
                &&& *final(report) == *old(report)
                &&& *final(stats) == *old(stats)
                &&& *final(reporter_stats) == *old(reporter_stats)
            },
        },
{
    if !staker_is_signer {
        return Err(SolcatError::NotAuthorized);
    }
    if amount < config.min_stake_amount {
        return Err(SolcatError::InsufficientStake);
    }
    let new_weight: u32 = calculate_vote_weight(reporter_stats);
    let removed: u32 = mul_clamped_u32(report.risk_score as u32, report.vote_weight);
    let added: u32 = mul_clamped_u32(report.risk_score as u32, new_weight);

    report.stake_amount = add_clamped_u64(report.stake_amount, amount);
    report.vote_weight = new_weight;

    stats.total_stake = add_clamped_u64(stats.total_stake, amount);
    stats.weighted_risk_score = add_clamped_u32(
        sub_clamped_u32(stats.weighted_risk_score, removed),
        added,
    );

    reporter_stats.total_stake = add_clamped_u64(reporter_stats.total_stake, amount);
    Ok(())
}

/// Why an override of a reporter's reputation is refused, if it is.
pub open spec fn override_rejection(
    authority: Address,
    authority_is_signer: bool,
    admin: Address,
    new_reputation: u8,
) -> Option<SolcatError> {
    if !authority_is_signer || authority@ != admin@ {
        Some(SolcatError::NotAuthorized)
    } else if new_reputation > 100 {
        Some(SolcatError::InvalidReportData)
    } else {
        None
    }
}

/// Sets a reporter's reputation and counts one more successful report, on
/// the word of the administrator `admin`.
pub fn update_reporter_stats(
    authority: Address,
    authority_is_signer: bool,
    admin: Address,
    reporter_stats: &mut ReporterStats,
    new_reputation: u8,
) -> (r: Result<(), SolcatError>)
    ensures
        match r {
            Ok(_) => {
                &&& override_rejection(authority, authority_is_signer, admin, new_reputation)
                    is None
                &&& *final(reporter_stats) == (ReporterStats {
                    reputation_score: new_reputation,
                    successful_reports: clamp_u32(old(reporter_stats).successful_reports + 1) as u32,
                    ..*old(reporter_stats)
                })
                &&& final(reporter_stats).wf()
            },
            Err(e) => {
                &&& override_rejection(authority, authority_is_signer, admin, new_reputation)
                    == Some(e)
                &&& *final(reporter_stats) == *old(reporter_stats)
            },
        },
{
    if !authority_is_signer || !authority.same(&admin) {
        return Err(SolcatError::NotAuthorized);
    }
    if new_reputation > 100 {
        return Err(SolcatError::InvalidReportData);
    }
    reporter_stats.reputation_score = new_reputation;
    reporter_stats.successful_reports = add_clamped_u32(reporter_stats.successful_reports, 1);
    Ok(())
}

/// The reporter's own signed revision with a valid score is refused for
/// the time lock, and for nothing else, exactly while the lock has not run out.
pub proof fn lemma_update_waits_for_time_lock(report: AddressReport, new_score: u8, now: int)
    requires
        new_score <= 100,
    ensures
        now < report.time_lock_end ==> update_rejection(
            report.reporter,
            true,
            report,
            new_score,
            now,
        ) == Some(SolcatError::TimeLockActive),
        now >= report.time_lock_end ==> update_rejection(
            report.reporter,
            true,
            report,
            new_score,
            now,
        ) is None,
{
}

/// A revision takes out exactly what filing the report had put in: where
/// nothing stops at an end of the range, the sum after filing a report with
/// `score` and revising it to `new_score` is the sum before the report plus
/// the new score times the vote weight.
pub proof fn lemma_revision_replaces_contribution(
    sum_before: int,
    score: int,
    new_score: int,
    weight: int,
)
    requires
        0 <= sum_before,
        0 <= score,
        0 <= new_score,
        0 <= weight,
        sum_before + score * weight <= u32::MAX,
        sum_before + new_score * weight <= u32::MAX,
    ensures
        reweighted(
            clamp_u32(sum_before + score * weight),
            contribution(score, weight),
            contribution(new_score, weight),
        ) == sum_before + new_score * weight,
{
    assert(0 <= score * weight) by (nonlinear_arith)
        requires
            0 <= score,
            0 <= weight,
    ;
    assert(0 <= new_score * weight) by (nonlinear_arith)
        requires
            0 <= new_score,
            0 <= weight,
    ;
}

/// Where neither step stops at an end of the range, a revision moves the
/// weighted sum by exactly the change of score times the vote weight.
pub proof fn lemma_update_moves_sum_exactly(sum: int, old_score: int, new_score: int, weight: int)
    requires
        0 <= old_score,
        0 <= new_score,
        0 <= weight,
        sum <= u32::MAX,
        old_score * weight <= sum,
        sum - old_score * weight + new_score * weight <= u32::MAX,
    ensures
        reweighted(sum, contribution(old_score, weight), contribution(new_score, weight)) == sum
            + (new_score - old_score) * weight,
{
    assert(0 <= old_score * weight) by (nonlinear_arith)
        requires
            0 <= old_score,
            0 <= weight,
    ;
    assert(0 <= new_score * weight) by (nonlinear_arith)
        requires
            0 <= new_score,
            0 <= weight,
    ;
    assert((new_score - old_score) * weight == new_score * weight - old_score * weight)
        by (nonlinear_arith);
}

} // verus!
