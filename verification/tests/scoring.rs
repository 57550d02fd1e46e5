use solcat::scoring::{age_sub_score, calculate_risk_score, get_risk_type_severity};
use solcat::state::{RiskAssessment, RiskMetrics, RiskType};

fn assessment(base_score: u8, confidence_score: u8) -> RiskAssessment {
    RiskAssessment {
        base_score,
        risk_types: vec![RiskType::Scam],
        confidence_score,
        evidence_count: 1,
        last_update: 0,
    }
}

fn metrics(volume: u64, interactions: u32, age: i64, patterns: usize) -> RiskMetrics {
    RiskMetrics {
        transaction_volume: volume,
        unique_interactions: interactions,
        age_of_account: age,
        suspicious_patterns: vec![String::from("wash"); patterns],
    }
}

#[test]
fn score_blends_declared_score_and_signals() {
    // signals 50, 50, 75 and 40 weigh 48.5; (0.6 * 80 + 0.4 * 48.5) * 0.9 = 60.66
    let score = calculate_risk_score(
        &assessment(80, 90),
        &metrics(500_000_000_000, 500, 100_000, 2),
    );
    assert_eq!(score, 61);
}

#[test]
fn score_of_everything_at_its_top_is_100() {
    let score = calculate_risk_score(&assessment(100, 100), &metrics(u64::MAX, u32::MAX, 0, 9));
    assert_eq!(score, 100);
}

#[test]
fn score_with_all_metrics_zero_counts_the_age_alone() {
    // a brand-new account: age signal 100, weighed 10; 0.4 * 10 = 4
    assert_eq!(calculate_risk_score(&assessment(0, 100), &metrics(0, 0, 0, 0)), 4);
}

#[test]
fn score_with_no_confidence_is_zero() {
    assert_eq!(calculate_risk_score(&assessment(100, 0), &metrics(u64::MAX, 5000, 0, 5)), 0);
}

#[test]
fn score_rounds_a_half_up() {
    // signals weigh 0.1 * 25 + 0.4 * 20 = 10.5; (0.6 * 3 + 0.4 * 10.5) * 0.25 = 1.5
    assert_eq!(calculate_risk_score(&assessment(3, 25), &metrics(0, 0, 31_536_000, 1)), 2);
}

#[test]
fn score_rounds_down_below_a_half() {
    // (0.6 * 3 + 0.4 * 10.5) * 0.24 = 1.44
    assert_eq!(calculate_risk_score(&assessment(3, 24), &metrics(0, 0, 31_536_000, 1)), 1);
}

#[test]
fn score_is_capped_at_100() {
    assert_eq!(calculate_risk_score(&assessment(255, 255), &metrics(u64::MAX, 2000, 0, 7)), 100);
    assert_eq!(calculate_risk_score(&assessment(100, 200), &metrics(0, 0, 0, 0)), 100);
}

#[test]
fn score_stays_within_0_and_100_over_a_grid() {
    let volumes = [0u64, 1, 999_999_999_999, 1_000_000_000_000, 1_000_000_000_001, u64::MAX];
    let ages = [i64::MIN, -1, 0, 86_399, 86_400, 2_592_000, 31_536_000, i64::MAX];
    for base in [0u8, 1, 50, 99, 100] {
        for confidence in [0u8, 1, 50, 100] {
            for volume in volumes {
                for age in ages {
                    for patterns in [0usize, 1, 5, 6] {
                        let s = calculate_risk_score(
                            &assessment(base, confidence),
                            &metrics(volume, 1000, age, patterns),
                        );
                        assert!(s <= 100);
                    }
                }
            }
        }
    }
}

#[test]
fn volume_signal_ramps_and_then_stays() {
    // with base 0 and confidence 100 the score is 0.4 * (0.3 * volume signal + 2.5)
    let at = |volume: u64| calculate_risk_score(&assessment(0, 100), &metrics(volume, 0, 31_536_000, 0));
    assert_eq!(at(0), 1);
    assert_eq!(at(500_000_000_000), 7);
    assert_eq!(at(1_000_000_000_000), 13);
    assert_eq!(at(1_000_000_000_001), 13);
    assert_eq!(at(u64::MAX), 13);
}

#[test]
fn interaction_signal_reaches_100_at_1000() {
    // 0.4 * (0.2 * interaction signal + 2.5)
    let at = |n: u32| calculate_risk_score(&assessment(0, 100), &metrics(0, n, 31_536_000, 0));
    assert_eq!(at(0), 1);
    assert_eq!(at(500), 5);
    assert_eq!(at(1000), 9);
    assert_eq!(at(1001), 9);
}

#[test]
fn pattern_signal_saturates_at_five() {
    // 0.4 * (0.4 * pattern signal + 2.5)
    let at = |n: usize| calculate_risk_score(&assessment(0, 100), &metrics(0, 0, 31_536_000, n));
    assert_eq!(at(0), 1);
    assert_eq!(at(1), 4);
    assert_eq!(at(5), 17);
    assert_eq!(at(6), 17);
}

#[test]
fn age_signal_steps_down_at_each_boundary() {
    assert_eq!(age_sub_score(i64::MIN), 100);
    assert_eq!(age_sub_score(0), 100);
    assert_eq!(age_sub_score(86_399), 100);
    assert_eq!(age_sub_score(86_400), 75);
    assert_eq!(age_sub_score(2_591_999), 75);
    assert_eq!(age_sub_score(2_592_000), 50);
    assert_eq!(age_sub_score(31_535_999), 50);
    assert_eq!(age_sub_score(31_536_000), 25);
    assert_eq!(age_sub_score(i64::MAX), 25);
}

#[test]
fn age_signal_never_rises_with_age() {
    let ages = [-5i64, 0, 86_399, 86_400, 1_000_000, 2_592_000, 31_535_999, 31_536_000, 1 << 40];
    for pair in ages.windows(2) {
        assert!(age_sub_score(pair[0]) >= age_sub_score(pair[1]));
    }
}

#[test]
fn score_never_falls_when_the_declared_score_rises() {
    let mut last = 0u8;
    for base in 0u8..=100 {
        let s = calculate_risk_score(&assessment(base, 77), &metrics(123_456_789, 321, 90_000, 3));
        assert!(s >= last);
        last = s;
    }
}

#[test]
fn severity_of_each_kind() {
    assert_eq!(get_risk_type_severity(&RiskType::Ransomware), 100);
    assert_eq!(get_risk_type_severity(&RiskType::Malware), 90);
    assert_eq!(get_risk_type_severity(&RiskType::MoneyLaundering), 85);
    assert_eq!(get_risk_type_severity(&RiskType::Scam), 80);
    assert_eq!(get_risk_type_severity(&RiskType::Phishing), 75);
    assert_eq!(get_risk_type_severity(&RiskType::MarketManipulation), 70);
    assert_eq!(get_risk_type_severity(&RiskType::Unknown), 50);
}
