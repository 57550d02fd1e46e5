//! The risk score of a report: the declared score blended with four observed
//! signals and scaled by the reporter's confidence.
//!
//! The signals carry the weights 3, 2, 1 and 4 tenths, the declared score
//! counts six tenths against four for the signals, and the confidence is a
//! percentage. All of it is exact rational arithmetic: a score is a fraction
//! over `SCORE_DENOMINATOR`, rounded to the nearest whole number.

use vstd::prelude::*;
use crate::state::{RiskAssessment, RiskMetrics, RiskType};

verus! {

/// The transaction volume at which the volume signal reaches 100.
pub const VOLUME_CAP: u64 = 1_000_000_000_000;

/// The number of distinct counterparties at which that signal reaches 100.
pub const INTERACTION_CAP: u32 = 1000;

/// The number of suspicious patterns at which that signal reaches 100.
pub const PATTERN_CAP: u64 = 5;

/// Seconds in a day, in thirty days and in a year: where the age signal steps down.
pub const AGE_DAY: i64 = 86400;

pub const AGE_MONTH: i64 = 2592000;

pub const AGE_YEAR: i64 = 31536000;

/// What a final score is a fraction of: ten for the signal weights, ten for
/// the blend, a hundred for the confidence, and `VOLUME_CAP` for the ramp.
pub const SCORE_DENOMINATOR: u64 = 10_000_000_000_000_000;

/// The smaller of two numbers.
pub open spec fn min_int(a: int, b: int) -> int {
    if a <= b {
        a
    } else {
        b
    }
}

/// The age signal: the younger the account, the higher.
pub open spec fn age_score(age: int) -> int {
    if age < AGE_DAY {
        100
    } else if age < AGE_MONTH {
        75
    } else if age < AGE_YEAR {
        50
    } else {
        25
    }
}

/// Which of the four age brackets an age falls in, youngest first.
pub open spec fn age_bracket(age: int) -> int {
    if age < AGE_DAY {
        0
    } else if age < AGE_MONTH {
        1
    } else if age < AGE_YEAR {
        2
    } else {
        3
    }
}

/// `VOLUME_CAP` times the volume signal, a ramp from 0 to 100 that stays
/// at 100 from `VOLUME_CAP` on.
pub open spec fn volume_part(volume: int) -> int {
    100 * min_int(volume, VOLUME_CAP as int)
}

/// `VOLUME_CAP` times the interaction signal, a ramp that reaches 100 at
/// `INTERACTION_CAP`.
pub open spec fn interaction_part(interactions: int) -> int {
    100_000_000_000 * min_int(interactions, INTERACTION_CAP as int)
}

/// `VOLUME_CAP` times the pattern signal, twenty for each pattern up to five.
pub open spec fn pattern_part(patterns: int) -> int {
    20_000_000_000_000 * min_int(patterns, PATTERN_CAP as int)
}

/// `VOLUME_CAP` times the age signal.
pub open spec fn age_part(age: int) -> int {
    1_000_000_000_000 * age_score(age)
}

/// Ten times `VOLUME_CAP` times the weighted mean of the four signals.
pub open spec fn metrics_part(volume: int, interactions: int, age: int, patterns: int) -> int {
    3 * volume_part(volume) + 2 * interaction_part(interactions) + age_part(age) + 4
        * pattern_part(patterns)
}

/// Ten times `VOLUME_CAP` times the declared score.
pub open spec fn base_part(base: int) -> int {
    10_000_000_000_000 * base
}

/// The numerator of the final score over `SCORE_DENOMINATOR`.
pub open spec fn score_numerator(
    base: int,
    confidence: int,
    volume: int,
    interactions: int,
    age: int,
    patterns: int,
) -> int {
    confidence * (6 * base_part(base) + 4 * metrics_part(volume, interactions, age, patterns))
}

/// The whole number nearest to `n / d`, halves going up.
pub open spec fn round_div(n: int, d: int) -> int {
    (2 * n + d) / (2 * d)
}

/// The final score: the blend, rounded, and never above 100.
pub open spec fn risk_score_of(
    base: int,
    confidence: int,
    volume: int,
    interactions: int,
    age: int,
    patterns: int,
) -> int {
    min_int(
        100,
        round_div(
            score_numerator(base, confidence, volume, interactions, age, patterns),
            SCORE_DENOMINATOR as int,
        ),
    )
}

/// How grave each kind of threat is, out of 100.
pub open spec fn severity_of(risk_type: RiskType) -> int {
    match risk_type {
        RiskType::Ransomware => 100,
        RiskType::Malware => 90,
        RiskType::Scam => 80,
        RiskType::MoneyLaundering => 85,
        RiskType::Phishing => 75,
        RiskType::MarketManipulation => 70,
        RiskType::Unknown => 50,
    }
}

/// The age signal of an account that is `age` seconds old.
pub fn age_sub_score(age: i64) -> (r: u8)
    ensures
        r == age_score(age as int),
{
    if age < AGE_DAY {
        100
    } else if age < AGE_MONTH {
        75
    } else if age < AGE_YEAR {
        50
    } else {
        25
    }
}

/// The risk score of a report from what its reporter declared and what was
/// observed of the address.
pub fn calculate_risk_score(risk_assessment: &RiskAssessment, risk_metrics: &RiskMetrics) -> (r: u8)
    ensures
        r <= 100,
        r == risk_score_of(
            risk_assessment.base_score as int,
            risk_assessment.confidence_score as int,
            risk_metrics.transaction_volume as int,
            risk_metrics.unique_interactions as int,
            risk_metrics.age_of_account as int,
            risk_metrics.suspicious_patterns@.len() as int,
        ),
{
    let base: u64 = risk_assessment.base_score as u64;
    let confidence: u64 = risk_assessment.confidence_score as u64;
    let volume: u64 = if risk_metrics.transaction_volume > VOLUME_CAP {
        VOLUME_CAP
    } else {
        risk_metrics.transaction_volume
    };
    let interactions: u64 = if risk_metrics.unique_interactions > INTERACTION_CAP {
        INTERACTION_CAP as u64
    } else {
        risk_metrics.unique_interactions as u64
    };
    let count: usize = risk_metrics.suspicious_patterns.len();
    let patterns: u64 = if count > 5 {
        PATTERN_CAP
    } else {
        count as u64
    };
    let age: u64 = age_sub_score(risk_metrics.age_of_account) as u64;
    let metrics: u64 = 3 * (100 * volume) + 2 * (100_000_000_000 * interactions)
        + 1_000_000_000_000 * age + 4 * (20_000_000_000_000 * patterns);
    let blend: u64 = 6 * (10_000_000_000_000 * base) + 4 * metrics;
    assert(confidence * blend <= 255 * blend) by (nonlinear_arith)
        requires
            confidence <= 255,
            blend >= 0,
    ;
    let numerator: u64 = confidence * blend;
    let rounded: u64 = (2 * numerator + SCORE_DENOMINATOR) / (2 * SCORE_DENOMINATOR);
    if rounded > 100 {
        100
    } else {
        rounded as u8
    }
}

/// How grave a kind of threat is, out of 100.
pub fn get_risk_type_severity(risk_type: &RiskType) -> (r: u8)
    ensures
        r == severity_of(*risk_type),
        50 <= r <= 100,
{
    match risk_type {
        RiskType::Ransomware => 100,
        RiskType::Malware => 90,
        RiskType::Scam => 80,
        RiskType::MoneyLaundering => 85,
        RiskType::Phishing => 75,
        RiskType::MarketManipulation => 70,
        RiskType::Unknown => 50,
    }
}

/// With a declared score and a confidence of at most 100, the rounded blend
/// lies between 0 and 100 by itself: the cap at 100 changes nothing.
pub proof fn lemma_score_in_range(
    base: int,
    confidence: int,
    volume: int,
    interactions: int,
    age: int,
    patterns: int,
)
    requires
        0 <= base <= 100,
        0 <= confidence <= 100,
        0 <= volume,
        0 <= interactions,
        0 <= patterns,
    ensures
        0 <= risk_score_of(base, confidence, volume, interactions, age, patterns) <= 100,
        risk_score_of(base, confidence, volume, interactions, age, patterns) == round_div(
            score_numerator(base, confidence, volume, interactions, age, patterns),
            SCORE_DENOMINATOR as int,
        ),
{
    let blend = 6 * base_part(base) + 4 * metrics_part(volume, interactions, age, patterns);
    assert(0 <= blend <= SCORE_DENOMINATOR);
    assert(0 <= confidence * blend <= 100 * blend) by (nonlinear_arith)
        requires
            0 <= confidence <= 100,
            0 <= blend,
    ;
}

/// The age signal never rises with age, and it is strictly lower in each
/// later bracket.
pub proof fn lemma_age_score_steps_down(younger: int, older: int)
    requires
        younger <= older,
    ensures
        age_score(younger) >= age_score(older),
        age_bracket(younger) <= age_bracket(older),
        age_bracket(younger) < age_bracket(older) ==> age_score(younger) > age_score(older),
        age_bracket(younger) == age_bracket(older) ==> age_score(younger) == age_score(older),
{
}

/// The score never falls when the declared score rises and all else stays.
pub proof fn lemma_score_monotone_in_base(
    low: int,
    high: int,
    confidence: int,
    volume: int,
    interactions: int,
    age: int,
    patterns: int,
)
    requires
        0 <= low <= high,
        0 <= confidence,
    ensures
        risk_score_of(low, confidence, volume, interactions, age, patterns) <= risk_score_of(
            high,
            confidence,
            volume,
            interactions,
            age,
            patterns,
        ),
{
    let m = 4 * metrics_part(volume, interactions, age, patterns);
    let a = 6 * base_part(low) + m;
    let b = 6 * base_part(high) + m;
    assert(confidence * a <= confidence * b) by (nonlinear_arith)
        requires
            0 <= confidence,
            a <= b,
    ;
    let d = 2 * (SCORE_DENOMINATOR as int);
    let x = 2 * (confidence * a) + SCORE_DENOMINATOR;
    let y = 2 * (confidence * b) + SCORE_DENOMINATOR;
    assert(x / d <= y / d) by (nonlinear_arith)
        requires
            x <= y,
            d > 0,
    ;
}

} // verus!
