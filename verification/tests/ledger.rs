use solcat::error::SolcatError;
use solcat::ledger::{
    report_address, stake_on_report, update_report, update_reporter_stats, ReportPayload,
};
use solcat::state::{Address, AddressReport, AddressStats, GlobalConfig, ReporterStats, RiskType};

fn key(n: u8) -> Address {
    Address::new_from_array([n; 32])
}

fn reporter(reputation: u8) -> ReporterStats {
    ReporterStats {
        total_reports: 0,
        successful_reports: 0,
        total_stake: 0,
        reputation_score: reputation,
        last_report_time: 0,
        reports_in_window: 0,
        cooldown_end_time: 0,
        token_balance: 0,
        rewards_claimed: 0,
    }
}

fn payload(risk_score: u8, confidence_score: u8) -> ReportPayload {
    ReportPayload {
        risk_score,
        description: String::from("drains wallets"),
        risk_types: vec![RiskType::Phishing, RiskType::Scam],
        confidence_score,
        evidence_count: 3,
        transaction_volume: 500_000_000_000,
        unique_interactions: 500,
        age_of_account: 100_000,
        suspicious_patterns: vec![String::from("a"), String::from("b")],
    }
}

fn config(min_stake_amount: u64) -> GlobalConfig {
    GlobalConfig {
        min_stake_amount,
        reward_rate: 1,
        token_mint: key(200),
        treasury: key(201),
        total_supply: 0,
        circulating_supply: 0,
        staking_enabled: true,
        min_lock_duration: 0,
    }
}

fn filed(now: i64) -> (AddressReport, AddressStats, ReporterStats) {
    let mut reporter_stats = reporter(50);
    reporter_stats.total_stake = 3_000_000_000;
    reporter_stats.total_reports = 2;
    reporter_stats.successful_reports = 1;
    let mut stats = AddressStats::load_or_default(None);
    let report = report_address(
        key(1),
        true,
        key(2),
        payload(80, 90),
        &mut reporter_stats,
        &mut stats,
        now,
    )
    .unwrap();
    (report, stats, reporter_stats)
}

#[test]
fn filing_a_report_fills_every_record() {
    let (report, stats, reporter_stats) = filed(1_000_000);
    assert_eq!(report.reporter, key(1));
    assert_eq!(report.reported_address, key(2));
    assert_eq!(report.risk_score, 61);
    assert_eq!(report.stake_amount, 0);
    assert_eq!(report.timestamp, 1_000_000);
    assert_eq!(report.description, "drains wallets");
    assert_eq!(report.vote_weight, 750_000);
    assert_eq!(report.last_update_time, 1_000_000);
    assert_eq!(report.time_lock_end, 1_604_800);
    assert_eq!(report.risk_assessment.base_score, 80);
    assert_eq!(report.risk_assessment.risk_types, vec![RiskType::Phishing, RiskType::Scam]);
    assert_eq!(report.risk_assessment.confidence_score, 90);
    assert_eq!(report.risk_assessment.evidence_count, 3);
    assert_eq!(report.risk_assessment.last_update, 1_000_000);
    assert_eq!(report.risk_metrics.transaction_volume, 500_000_000_000);
    assert_eq!(report.risk_metrics.unique_interactions, 500);
    assert_eq!(report.risk_metrics.age_of_account, 100_000);
    assert_eq!(report.risk_metrics.suspicious_patterns, vec!["a", "b"]);

    assert_eq!(stats.total_reports, 1);
    assert_eq!(stats.risk_scores, vec![61]);
    assert_eq!(stats.total_stake, 0);
    assert_eq!(stats.last_update, 1_000_000);
    // 61 * 750_000
    assert_eq!(stats.weighted_risk_score, 45_750_000);
    assert_eq!(stats.total_vote_weight, 750_000);

    assert_eq!(reporter_stats.total_reports, 3);
    assert_eq!(reporter_stats.reports_in_window, 1);
    assert_eq!(reporter_stats.last_report_time, 1_000_000);
    assert_eq!(reporter_stats.cooldown_end_time, 1_003_600);
}

#[test]
fn a_second_report_adds_to_the_statistics() {
    let (_, mut stats, _) = filed(1_000_000);
    let mut other = reporter(10);
    report_address(key(3), true, key(2), payload(20, 100), &mut other, &mut stats, 1_000_500)
        .unwrap();
    assert_eq!(stats.total_reports, 2);
    // (0.6 * 20 + 0.4 * 48.5) * 1.0 = 31.4, with a weight of 100 * 10
    assert_eq!(stats.risk_scores, vec![61, 31]);
    assert_eq!(stats.weighted_risk_score, 45_750_000 + 31 * 1_000);
    assert_eq!(stats.total_vote_weight, 750_000 + 1_000);
    assert_eq!(stats.last_update, 1_000_500);
}

#[test]
fn refusals_come_in_order_and_change_nothing() {
    let attempt = |signer: bool, stats: ReporterStats, p: ReportPayload, now: i64| {
        let mut reporter_stats = stats;
        let mut address_stats = AddressStats::load_or_default(None);
        let r = report_address(key(1), signer, key(2), p, &mut reporter_stats, &mut address_stats, now);
        assert_eq!(reporter_stats, stats);
        assert_eq!(address_stats.total_reports, 0);
        assert!(address_stats.risk_scores.is_empty());
        assert_eq!(address_stats.weighted_risk_score, 0);
        r.unwrap_err()
    };
    assert_eq!(attempt(false, reporter(9), payload(101, 101), 0), SolcatError::NotAuthorized);
    assert_eq!(
        attempt(true, reporter(9), payload(101, 101), 0),
        SolcatError::InsufficientReputation
    );
    let mut cooling = reporter(10);
    cooling.cooldown_end_time = 10;
    cooling.reports_in_window = 5;
    assert_eq!(attempt(true, cooling, payload(101, 101), 9), SolcatError::CooldownActive);
    assert_eq!(attempt(true, cooling, payload(101, 101), 10), SolcatError::ReportLimitExceeded);
    assert_eq!(attempt(true, reporter(10), payload(101, 101), 0), SolcatError::InvalidRiskScore);
    assert_eq!(attempt(true, reporter(10), payload(100, 101), 0), SolcatError::InvalidReportData);
}

#[test]
fn the_highest_valid_scores_are_accepted() {
    let mut reporter_stats = reporter(10);
    let mut stats = AddressStats::load_or_default(None);
    let report =
        report_address(key(1), true, key(2), payload(100, 100), &mut reporter_stats, &mut stats, 5)
            .unwrap();
    assert!(report.risk_score <= 100);
    assert_eq!(report.time_lock_end, 604_805);
}

#[test]
fn update_before_the_lock_ends_fails() {
    let (mut report, mut stats, _) = filed(1_000_000);
    let r = update_report(key(1), true, &mut report, &mut stats, 40, String::from("x"), 1_604_799);
    assert_eq!(r, Err(SolcatError::TimeLockActive));
    assert_eq!(report.risk_score, 61);
    assert_eq!(report.description, "drains wallets");
    assert_eq!(stats.weighted_risk_score, 45_750_000);
    assert_eq!(stats.last_update, 1_000_000);
}

#[test]
fn update_after_the_lock_moves_the_sum_by_the_change_of_score() {
    let (mut report, mut stats, _) = filed(1_000_000);
    let before = stats.weighted_risk_score;
    let r = update_report(
        key(1),
        true,
        &mut report,
        &mut stats,
        70,
        String::from("worse than thought"),
        1_604_800,
    );
    assert_eq!(r, Ok(()));
    assert_eq!(report.risk_score, 70);
    assert_eq!(report.description, "worse than thought");
    assert_eq!(report.last_update_time, 1_604_800);
    assert_eq!(report.time_lock_end, 1_604_800 + 604_800);
    assert_eq!(report.timestamp, 1_000_000);
    assert_eq!(report.vote_weight, 750_000);
    // (70 - 61) * 750_000
    assert_eq!(stats.weighted_risk_score, before + 9 * 750_000);
    assert_eq!(stats.last_update, 1_604_800);
    assert_eq!(stats.total_vote_weight, 750_000);
    assert_eq!(stats.total_reports, 1);

    let again = update_report(
        key(1),
        true,
        &mut report,
        &mut stats,
        10,
        String::from("resolved"),
        1_604_800 + 604_800,
    );
    assert_eq!(again, Ok(()));
    // (10 - 70) * 750_000
    assert_eq!(stats.weighted_risk_score, before + 9 * 750_000 - 60 * 750_000);
    assert_eq!(stats.weighted_risk_score, 10 * 750_000);
}

#[test]
fn statistics_take_in_the_score_of_the_report() {
    let mut reporter_stats = reporter(10);
    let mut stats = AddressStats::load_or_default(None);
    let quiet = ReportPayload {
        risk_score: 50,
        description: String::new(),
        risk_types: Vec::new(),
        confidence_score: 100,
        evidence_count: 0,
        transaction_volume: 0,
        unique_interactions: 0,
        age_of_account: 0,
        suspicious_patterns: Vec::new(),
    };
    let mut report =
        report_address(key(1), true, key(2), quiet, &mut reporter_stats, &mut stats, 0).unwrap();
    // 0.6 * 50 + 0.4 * 10 = 34, with a weight of 100 * 10
    assert_eq!(report.risk_assessment.base_score, 50);
    assert_eq!(report.risk_score, 34);
    assert_eq!(report.vote_weight, 1_000);
    assert_eq!(stats.risk_scores, vec![34]);
    assert_eq!(stats.weighted_risk_score, 34_000);
    assert_eq!(stats.total_vote_weight, 1_000);

    // a revision to zero takes out all that the report had put in
    update_report(key(1), true, &mut report, &mut stats, 0, String::new(), 604_800).unwrap();
    assert_eq!(report.risk_score, 0);
    assert_eq!(stats.weighted_risk_score, 0);
}

#[test]
fn update_is_for_the_reporter_alone() {
    let (mut report, mut stats, _) = filed(0);
    let late = 10_000_000;
    assert_eq!(
        update_report(key(9), true, &mut report, &mut stats, 5, String::new(), late),
        Err(SolcatError::NotAuthorized)
    );
    assert_eq!(
        update_report(key(1), false, &mut report, &mut stats, 5, String::new(), late),
        Err(SolcatError::NotAuthorized)
    );
    assert_eq!(
        update_report(key(1), true, &mut report, &mut stats, 101, String::new(), late),
        Err(SolcatError::InvalidRiskScore)
    );
    assert_eq!(report.risk_score, 61);
}

#[test]
fn update_stops_at_the_ends_of_the_sum() {
    let (mut report, mut stats, _) = filed(0);
    stats.weighted_risk_score = 5;
    update_report(key(1), true, &mut report, &mut stats, 1, String::new(), 700_000).unwrap();
    // nothing below zero is taken out: 0 + 1 * 750_000
    assert_eq!(stats.weighted_risk_score, 750_000);
    stats.weighted_risk_score = u32::MAX - 10;
    report.vote_weight = u32::MAX;
    report.risk_score = 0;
    update_report(key(1), true, &mut report, &mut stats, 100, String::new(), 2_000_000).unwrap();
    assert_eq!(stats.weighted_risk_score, u32::MAX);
}

#[test]
fn stake_on_report_adds_stake_and_takes_the_weight_anew() {
    let (mut report, mut stats, mut reporter_stats) = filed(0);
    // the reporter has become more reputable since the report
    reporter_stats.reputation_score = 60;
    let r =
        stake_on_report(true, &config(1_000), &mut report, &mut stats, &mut reporter_stats, 5_000);
    assert_eq!(r, Ok(()));
    assert_eq!(report.stake_amount, 5_000);
    // 100 * 60 * 3 * round(100 / 3)
    assert_eq!(report.vote_weight, 594_000);
    assert_eq!(stats.total_stake, 5_000);
    assert_eq!(stats.weighted_risk_score, 61 * 594_000);
    assert_eq!(stats.total_vote_weight, 750_000);
    assert_eq!(reporter_stats.total_stake, 3_000_005_000);
}

#[test]
fn stake_on_report_checks_signer_and_minimum() {
    let (mut report, mut stats, mut reporter_stats) = filed(0);
    let before = reporter_stats;
    assert_eq!(
        stake_on_report(false, &config(10), &mut report, &mut stats, &mut reporter_stats, 5),
        Err(SolcatError::NotAuthorized)
    );
    assert_eq!(
        stake_on_report(true, &config(10), &mut report, &mut stats, &mut reporter_stats, 9),
        Err(SolcatError::InsufficientStake)
    );
    assert_eq!(report.stake_amount, 0);
    assert_eq!(stats.total_stake, 0);
    assert_eq!(reporter_stats, before);
    assert_eq!(
        stake_on_report(true, &config(10), &mut report, &mut stats, &mut reporter_stats, 10),
        Ok(())
    );
}

#[test]
fn stake_totals_stop_at_the_end_of_their_range() {
    let (mut report, mut stats, mut reporter_stats) = filed(0);
    report.stake_amount = u64::MAX - 1;
    stats.total_stake = u64::MAX;
    reporter_stats.total_stake = 5;
    stake_on_report(true, &config(0), &mut report, &mut stats, &mut reporter_stats, 7).unwrap();
    assert_eq!(report.stake_amount, u64::MAX);
    assert_eq!(stats.total_stake, u64::MAX);
    assert_eq!(reporter_stats.total_stake, 12);
}

#[test]
fn reputation_override_is_for_the_administrator() {
    let mut stats = reporter(20);
    stats.successful_reports = 4;
    assert_eq!(
        update_reporter_stats(key(7), false, key(7), &mut stats, 30),
        Err(SolcatError::NotAuthorized)
    );
    assert_eq!(
        update_reporter_stats(key(8), true, key(7), &mut stats, 30),
        Err(SolcatError::NotAuthorized)
    );
    assert_eq!(
        update_reporter_stats(key(7), true, key(7), &mut stats, 101),
        Err(SolcatError::InvalidReportData)
    );
    assert_eq!(stats.reputation_score, 20);
    assert_eq!(stats.successful_reports, 4);
    assert_eq!(update_reporter_stats(key(7), true, key(7), &mut stats, 100), Ok(()));
    assert_eq!(stats.reputation_score, 100);
    assert_eq!(stats.successful_reports, 5);
}

#[test]
fn addresses_compare_by_their_bytes() {
    let mut bytes = [0u8; 32];
    bytes[31] = 1;
    assert!(key(0).same(&Address::new_from_array([0; 32])));
    assert!(!key(0).same(&Address::new_from_array(bytes)));
    assert_eq!(Address::new_from_array(bytes).to_bytes(), bytes);
}
