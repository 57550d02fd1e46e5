//! What every new report meets first: a reputation floor, a cooldown after
//! each report, and a cap on reports within a day of the last.

use vstd::prelude::*;
use crate::arith::{add_clamped_i64, add_clamped_u32, clamp_i64, clamp_u32};
use crate::error::SolcatError;
use crate::state::ReporterStats;

verus! {

/// The reputation below which nobody may report.
pub const MIN_REPUTATION_SCORE: u8 = 10;

/// Seconds that must pass after a report before the next.
pub const REPORT_COOLDOWN_PERIOD: i64 = 3600;

/// Reports allowed while the window stays open.
pub const MAX_REPORTS_PER_WINDOW: u32 = 5;

/// Seconds after the last report during which the window stays open.
pub const REPORT_WINDOW_DURATION: i64 = 86400;

/// Whether `now` is still within a day of the reporter's last report.
pub open spec fn window_open(stats: ReporterStats, now: int) -> bool {
    now - stats.last_report_time < REPORT_WINDOW_DURATION
}

/// Why a reporter is turned away at `now`, if so.
pub open spec fn gate_rejection(stats: ReporterStats, now: int) -> Option<SolcatError> {
    if stats.reputation_score < MIN_REPUTATION_SCORE {
        Some(SolcatError::InsufficientReputation)
    } else if now < stats.cooldown_end_time {
        Some(SolcatError::CooldownActive)
    } else if window_open(stats, now) && stats.reports_in_window >= MAX_REPORTS_PER_WINDOW {
        Some(SolcatError::ReportLimitExceeded)
    } else {
        None
    }
}

/// The reporter's statistics once a report made at `now` is counted: the
/// window's count starts over where the window had closed.
pub open spec fn after_report(stats: ReporterStats, now: int) -> ReporterStats {
    ReporterStats {
        total_reports: clamp_u32(stats.total_reports + 1) as u32,
        last_report_time: now as i64,
        reports_in_window: clamp_u32(
            if window_open(stats, now) {
                stats.reports_in_window + 1
            } else {
                1
            },
        ) as u32,
        cooldown_end_time: clamp_i64(now + REPORT_COOLDOWN_PERIOD) as i64,
        ..stats
    }
}

/// Whether `now` is still within a day of the reporter's last report.
pub fn is_window_open(stats: &ReporterStats, now: i64) -> (r: bool)
    ensures
        r == window_open(*stats, now as int),
{
    let elapsed: i128 = now as i128 - stats.last_report_time as i128;
    elapsed < REPORT_WINDOW_DURATION as i128
}

/// Turns the reporter away or lets the report through, changing nothing.
pub fn check_gate(stats: &ReporterStats, now: i64) -> (r: Result<(), SolcatError>)
    ensures
        r is Ok <==> gate_rejection(*stats, now as int) is None,
        r is Err ==> gate_rejection(*stats, now as int) == Some(r->Err_0),
{
    if stats.reputation_score < MIN_REPUTATION_SCORE {
        return Err(SolcatError::InsufficientReputation);
    }
    if now < stats.cooldown_end_time {
        return Err(SolcatError::CooldownActive);
    }
    if is_window_open(stats, now) && stats.reports_in_window >= MAX_REPORTS_PER_WINDOW {
        return Err(SolcatError::ReportLimitExceeded);
    }
    Ok(())
}

/// Counts a report that was admitted at `now`.
pub fn record_report(stats: &mut ReporterStats, now: i64)
    ensures
        *final(stats) == after_report(*old(stats), now as int),
{
    let in_window: u32 = if is_window_open(stats, now) {
        stats.reports_in_window
    } else {
        0
    };
    stats.total_reports = add_clamped_u32(stats.total_reports, 1);
    stats.last_report_time = now;
    stats.reports_in_window = add_clamped_u32(in_window, 1);
    stats.cooldown_end_time = add_clamped_i64(now, REPORT_COOLDOWN_PERIOD);
}

/// A reporter below the reputation floor is turned away for that reason,
/// whatever the cooldown and the window say.
pub proof fn lemma_low_reputation_always_rejected(stats: ReporterStats, now: int)
    requires
        stats.reputation_score < MIN_REPUTATION_SCORE,
    ensures
        gate_rejection(stats, now) == Some(SolcatError::InsufficientReputation),
{
}

/// With the floor met and the cooldown over, a reporter with fewer than five
/// reports in the window is let through, and the fifth report fills the window.
pub proof fn lemma_fifth_report_passes(stats: ReporterStats, now: int)
    requires
        stats.reputation_score >= MIN_REPUTATION_SCORE,
        now >= stats.cooldown_end_time,
        stats.reports_in_window < MAX_REPORTS_PER_WINDOW,
        i64::MIN <= now <= i64::MAX,
    ensures
        gate_rejection(stats, now) is None,
        window_open(stats, now) && stats.reports_in_window == 4 ==> after_report(
            stats,
            now,
        ).reports_in_window == MAX_REPORTS_PER_WINDOW,
{
}

/// Once five reports stand in the window, the next one is refused for as
/// long as the window stays open: first by the cooldown, then by the limit.
/// When a day has passed since the last report it is let through again, and
/// the count starts over at one.
pub proof fn lemma_sixth_report_waits_for_window(stats: ReporterStats, now: int)
    requires
        stats.reputation_score >= MIN_REPUTATION_SCORE,
        stats.reports_in_window >= MAX_REPORTS_PER_WINDOW,
        stats.cooldown_end_time <= stats.last_report_time + REPORT_WINDOW_DURATION,
        i64::MIN <= now <= i64::MAX,
    ensures
        window_open(stats, now) ==> gate_rejection(stats, now) is Some,
        window_open(stats, now) && now >= stats.cooldown_end_time ==> gate_rejection(stats, now)
            == Some(SolcatError::ReportLimitExceeded),
        !window_open(stats, now) ==> gate_rejection(stats, now) is None,
        !window_open(stats, now) ==> after_report(stats, now).reports_in_window == 1,
{
}

} // verus!
