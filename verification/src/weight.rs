//! The weight of a reporter's vote: reputation, backing stake and track
//! record multiplied together, and held at the largest `u32` where the
//! product would pass it.

use vstd::prelude::*;
use crate::state::ReporterStats;

verus! {

/// The smallest units of native value that make one whole unit.
pub const UNITS_PER_WHOLE: u64 = 1_000_000_000;

/// `x`, or 1 where `x` is less.
pub open spec fn at_least_one(x: int) -> int {
    if x < 1 {
        1
    } else {
        x
    }
}

/// The share of successful reports as a percentage, rounded to the nearest
/// whole number, halves going up; 0 before the first report.
pub open spec fn success_rate(successful: int, total: int) -> int {
    if total > 0 {
        (200 * successful + total) / (2 * total)
    } else {
        0
    }
}

/// The product that the weight is made of, each factor counted as at least 1.
pub open spec fn weight_product(reputation: int, whole_stake: int, rate: int) -> int {
    100 * at_least_one(reputation) * at_least_one(whole_stake) * at_least_one(rate)
}

/// The weight for a reputation, a stake in whole units and a success rate.
pub open spec fn weight_from(reputation: int, whole_stake: int, rate: int) -> int {
    let product = weight_product(reputation, whole_stake, rate);
    if product > u32::MAX {
        u32::MAX as int
    } else {
        product
    }
}

/// The weight of a vote of the reporter with these statistics.
pub open spec fn vote_weight_of(stats: ReporterStats) -> int {
    weight_from(
        stats.reputation_score as int,
        stats.total_stake as int / 1_000_000_000,
        success_rate(stats.successful_reports as int, stats.total_reports as int),
    )
}

/// The success rate of a reporter, as `success_rate` defines it.
pub fn calculate_success_rate(successful_reports: u32, total_reports: u32) -> (r: u64)
    ensures
        r == success_rate(successful_reports as int, total_reports as int),
        r <= 429_496_729_500,
{
    if total_reports > 0 {
        let successful: u64 = successful_reports as u64;
        let total: u64 = total_reports as u64;
        let r: u64 = (200 * successful + total) / (2 * total);
        assert(r <= 429_496_729_500) by (nonlinear_arith)
            requires
                r == (200 * successful + total) / (2 * total),
                total >= 1,
                successful <= 4294967295,
        ;
        r
    } else {
        0
    }
}

/// The weight of a vote of the reporter with these statistics.
pub fn calculate_vote_weight(reporter_stats: &ReporterStats) -> (w: u32)
    ensures
        w == vote_weight_of(*reporter_stats),
        w >= 100,
{
    let reputation: u128 = if reporter_stats.reputation_score < 1 {
        1
    } else {
        reporter_stats.reputation_score as u128
    };
    let whole: u64 = reporter_stats.total_stake / UNITS_PER_WHOLE;
    let stake: u128 = if whole < 1 {
        1
    } else {
        whole as u128
    };
    let rate_raw: u64 = calculate_success_rate(
        reporter_stats.successful_reports,
        reporter_stats.total_reports,
    );
    let rate: u128 = if rate_raw < 1 {
        1
    } else {
        rate_raw as u128
    };
    let by_reputation: u128 = 100 * reputation;
    assert(by_reputation * stake <= 25500 * 0xffff_ffff_ffff_ffff) by (nonlinear_arith)
        requires
            0 <= by_reputation <= 25500,
            0 <= stake <= 0xffff_ffff_ffff_ffff,
    ;
    assert(by_reputation * stake >= 100) by (nonlinear_arith)
        requires
            by_reputation >= 100,
            stake >= 1,
    ;
    let by_stake: u128 = by_reputation * stake;
    assert(by_stake * rate <= 25500 * 0xffff_ffff_ffff_ffff * 429_496_729_500) by (nonlinear_arith)
        requires
            0 <= by_stake <= 25500 * 0xffff_ffff_ffff_ffff,
            0 <= rate <= 429_496_729_500,
    ;
    assert(by_stake * rate >= 100) by (nonlinear_arith)
        requires
            by_stake >= 100,
            rate >= 1,
    ;
    let product: u128 = by_stake * rate;
    if product > 0xffff_ffff {
        u32::MAX
    } else {
        product as u32
    }
}

/// The rate never falls when more of the same number of reports succeeded.
pub proof fn lemma_success_rate_monotone(fewer: int, more: int, total: int)
    requires
        0 <= fewer <= more,
        0 <= total,
    ensures
        success_rate(fewer, total) <= success_rate(more, total),
{
    if total > 0 {
        let x = 200 * fewer + total;
        let y = 200 * more + total;
        let d = 2 * total;
        assert(x / d <= y / d) by (nonlinear_arith)
            requires
                x <= y,
                d > 0,
        ;
    }
}

/// The weight never falls when reputation, stake or success rate rise,
/// one of them or several at once.
pub proof fn lemma_weight_monotone(
    reputation: int,
    whole_stake: int,
    rate: int,
    reputation_up: int,
    whole_stake_up: int,
    rate_up: int,
)
    requires
        reputation <= reputation_up,
        whole_stake <= whole_stake_up,
        rate <= rate_up,
    ensures
        weight_from(reputation, whole_stake, rate) <= weight_from(
            reputation_up,
            whole_stake_up,
            rate_up,
        ),
{
    let a = at_least_one(reputation);
    let b = at_least_one(whole_stake);
    let c = at_least_one(rate);
    let a2 = at_least_one(reputation_up);
    let b2 = at_least_one(whole_stake_up);
    let c2 = at_least_one(rate_up);
    assert(100 * a * b * c <= 100 * a2 * b2 * c2) by (nonlinear_arith)
        requires
            1 <= a <= a2,
            1 <= b <= b2,
            1 <= c <= c2,
    ;
}

/// A reporter's weight never falls when the reputation rises, when the
/// stake grows, or when more of the same number of reports succeeded.
pub proof fn lemma_vote_weight_monotone(lower: ReporterStats, higher: ReporterStats)
    requires
        lower.reputation_score <= higher.reputation_score,
        lower.total_stake <= higher.total_stake,
        lower.total_reports == higher.total_reports,
        lower.successful_reports <= higher.successful_reports,
    ensures
        vote_weight_of(lower) <= vote_weight_of(higher),
{
    lemma_success_rate_monotone(
        lower.successful_reports as int,
        higher.successful_reports as int,
        lower.total_reports as int,
    );
    lemma_weight_monotone(
        lower.reputation_score as int,
        lower.total_stake as int / 1_000_000_000,
        success_rate(lower.successful_reports as int, lower.total_reports as int),
        higher.reputation_score as int,
        higher.total_stake as int / 1_000_000_000,
        success_rate(higher.successful_reports as int, higher.total_reports as int),
    );
}

/// The weight is the product itself until the product passes the largest
/// `u32`, and that largest value from there on: it never wraps around.
pub proof fn lemma_weight_saturates(reputation: int, whole_stake: int, rate: int)
    ensures
        100 <= weight_from(reputation, whole_stake, rate) <= u32::MAX,
        weight_product(reputation, whole_stake, rate) <= u32::MAX ==> weight_from(
            reputation,
            whole_stake,
            rate,
        ) == weight_product(reputation, whole_stake, rate),
        weight_product(reputation, whole_stake, rate) > u32::MAX ==> weight_from(
            reputation,
            whole_stake,
            rate,
        ) == u32::MAX,
{
    let a = at_least_one(reputation);
    let b = at_least_one(whole_stake);
    let c = at_least_one(rate);
    assert(100 * a * b * c >= 100) by (nonlinear_arith)
        requires
            1 <= a,
            1 <= b,
            1 <= c,
    ;
}

} // verus!
