use solcat::error::SolcatError;
use solcat::staking::{
    calculate_pending_rewards, claim_rewards, distribute_rewards, stake_tokens, unstake_tokens,
};
use solcat::state::{Address, GlobalConfig, StakePool, UserStake};

const WEEK: i64 = 604_800;
const YEAR: i64 = 31_536_000;
const SCALE: u64 = 1_000_000_000;

fn key(n: u8) -> Address {
    Address::new_from_array([n; 32])
}

fn config() -> GlobalConfig {
    GlobalConfig {
        min_stake_amount: 0,
        reward_rate: 1_000,
        token_mint: key(200),
        treasury: key(201),
        total_supply: 0,
        circulating_supply: 0,
        staking_enabled: true,
        min_lock_duration: 0,
    }
}

fn pool(total_staked: u64, reward_per_token: u64) -> StakePool {
    StakePool { total_staked, reward_per_token, last_update_time: 0, reward_rate: 0 }
}

fn position(amount: u64, paid: u64) -> UserStake {
    UserStake {
        owner: key(1),
        amount,
        rewards_earned: 0,
        reward_per_token_paid: paid,
        lock_end_time: 0,
    }
}

#[test]
fn pending_is_stake_times_growth_over_the_scale() {
    assert_eq!(calculate_pending_rewards(&position(0, 0), &pool(10, 5 * SCALE)), 0);
    assert_eq!(calculate_pending_rewards(&position(40, 2 * SCALE), &pool(100, 5 * SCALE)), 120);
    // 7 * 1_500_000_000 / 10^9 = 10.5
    assert_eq!(calculate_pending_rewards(&position(7, 0), &pool(100, 1_500_000_000)), 10);
    // a reading above the counter counts as no growth
    assert_eq!(calculate_pending_rewards(&position(40, 9 * SCALE), &pool(100, 5 * SCALE)), 0);
    // the product stops at the largest value before the division
    assert_eq!(
        calculate_pending_rewards(&position(u64::MAX, 0), &pool(0, u64::MAX)),
        u64::MAX / SCALE
    );
}

#[test]
fn staking_settles_then_grows_position_and_pool() {
    let mut user = position(40, 2 * SCALE);
    user.rewards_earned = 5;
    let mut p = pool(100, 5 * SCALE);
    p.reward_rate = 9;
    let r = stake_tokens(true, key(200), &config(), &mut user, &mut p, 60, WEEK, 1_000);
    assert_eq!(r, Ok(()));
    assert_eq!(user.rewards_earned, 125);
    assert_eq!(user.amount, 100);
    assert_eq!(user.lock_end_time, 1_000 + WEEK);
    assert_eq!(user.reward_per_token_paid, 5 * SCALE);
    assert_eq!(user.owner, key(1));
    assert_eq!(p.total_staked, 160);
    assert_eq!(p.last_update_time, 1_000);
    assert_eq!(p.reward_per_token, 5 * SCALE);
    assert_eq!(p.reward_rate, 9);
}

#[test]
fn staking_refusals_come_in_order_and_change_nothing() {
    let attempt = |signer: bool, mint: Address, cfg: GlobalConfig, amount: u64, duration: i64| {
        let mut user = position(40, 0);
        let mut p = pool(100, SCALE);
        let r = stake_tokens(signer, mint, &cfg, &mut user, &mut p, amount, duration, 50);
        assert_eq!(user, position(40, 0));
        assert_eq!(p, pool(100, SCALE));
        r.unwrap_err()
    };
    let mut disabled = config();
    disabled.staking_enabled = false;
    assert_eq!(attempt(false, key(9), disabled, 0, 0), SolcatError::NotAuthorized);
    assert_eq!(attempt(true, key(9), disabled, 0, 0), SolcatError::StakingDisabled);
    assert_eq!(attempt(true, key(9), config(), 0, 0), SolcatError::InvalidTokenMint);
    assert_eq!(attempt(true, key(200), config(), 0, WEEK), SolcatError::InvalidStakeAmount);
    assert_eq!(attempt(true, key(200), config(), 1, WEEK - 1), SolcatError::InvalidStakeAmount);
    assert_eq!(attempt(true, key(200), config(), 1, YEAR + 1), SolcatError::InvalidStakeAmount);
}

#[test]
fn shortest_and_longest_lock_are_accepted() {
    for duration in [WEEK, YEAR] {
        let mut user = UserStake::load_or_default(None, key(1));
        let mut p = pool(0, 0);
        assert_eq!(
            stake_tokens(true, key(200), &config(), &mut user, &mut p, 1, duration, 10),
            Ok(())
        );
        assert_eq!(user.lock_end_time, 10 + duration);
    }
}

#[test]
fn stake_then_unstake_restores_the_total() {
    let mut user = UserStake::load_or_default(None, key(1));
    let mut p = pool(1_000, 2 * SCALE);
    stake_tokens(true, key(200), &config(), &mut user, &mut p, 250, WEEK, 100).unwrap();
    assert_eq!(p.total_staked, 1_250);
    // rewards are distributed while the stake is locked
    p.reward_per_token = 6 * SCALE;
    assert_eq!(
        unstake_tokens(key(1), true, &mut user, &mut p, 100 + WEEK - 1),
        Err(SolcatError::StakeLocked)
    );
    assert_eq!(user.amount, 250);
    assert_eq!(p.total_staked, 1_250);
    let amount = unstake_tokens(key(1), true, &mut user, &mut p, 100 + WEEK).unwrap();
    assert_eq!(amount, 250);
    assert_eq!(p.total_staked, 1_000);
    assert_eq!(p.last_update_time, 100 + WEEK);
    assert_eq!(user.amount, 0);
    assert_eq!(user.lock_end_time, 0);
    // 250 * (6 - 2)
    assert_eq!(user.rewards_earned, 1_000);
    assert_eq!(user.reward_per_token_paid, 2 * SCALE);
}

#[test]
fn unstake_is_for_the_owner() {
    let mut user = position(10, 0);
    let mut p = pool(10, 0);
    assert_eq!(unstake_tokens(key(2), true, &mut user, &mut p, 5), Err(SolcatError::NotAuthorized));
    assert_eq!(unstake_tokens(key(1), false, &mut user, &mut p, 5), Err(SolcatError::NotAuthorized));
    assert_eq!(user, position(10, 0));
    assert_eq!(p, pool(10, 0));
}

#[test]
fn unstake_never_takes_the_total_below_zero() {
    let mut user = position(50, 0);
    let mut p = pool(20, 0);
    assert_eq!(unstake_tokens(key(1), true, &mut user, &mut p, 5), Ok(50));
    assert_eq!(p.total_staked, 0);
}

#[test]
fn claim_pays_settled_and_pending_rewards() {
    let mut user = position(40, 2 * SCALE);
    user.rewards_earned = 5;
    user.lock_end_time = 77;
    let p = pool(100, 5 * SCALE);
    assert_eq!(claim_rewards(key(1), true, key(201), &config(), &mut user, &p), Ok(125));
    assert_eq!(user.rewards_earned, 0);
    assert_eq!(user.reward_per_token_paid, 5 * SCALE);
    assert_eq!(user.amount, 40);
    assert_eq!(user.lock_end_time, 77);
    // nothing is left to claim
    assert_eq!(
        claim_rewards(key(1), true, key(201), &config(), &mut user, &p),
        Err(SolcatError::InvalidRewardCalculation)
    );
}

#[test]
fn claim_refusals_come_in_order() {
    let p = pool(100, 5 * SCALE);
    let attempt = |claimer: Address, signer: bool, treasury: Address, amount: u64| {
        let mut user = position(amount, 0);
        let r = claim_rewards(claimer, signer, treasury, &config(), &mut user, &p);
        assert_eq!(user, position(amount, 0));
        r.unwrap_err()
    };
    assert_eq!(attempt(key(2), false, key(9), 0), SolcatError::NotAuthorized);
    assert_eq!(attempt(key(2), true, key(9), 0), SolcatError::TreasuryMismatch);
    assert_eq!(attempt(key(2), true, key(201), 0), SolcatError::NotAuthorized);
    assert_eq!(attempt(key(1), true, key(201), 0), SolcatError::InvalidRewardCalculation);
}

#[test]
fn distribution_adds_reward_per_staked_unit() {
    let mut p = pool(400, 7);
    p.last_update_time = 1_000;
    assert_eq!(distribute_rewards(key(5), true, key(5), &config(), &mut p, 1_010), Ok(()));
    // 1_000 * 10 / 400
    assert_eq!(p.reward_per_token, 7 + 25);
    assert_eq!(p.last_update_time, 1_010);
    assert_eq!(p.total_staked, 400);
}

#[test]
fn distribution_does_nothing_without_stake_or_time() {
    let mut empty = pool(0, 7);
    assert_eq!(distribute_rewards(key(5), true, key(5), &config(), &mut empty, 1_000), Ok(()));
    assert_eq!(empty, pool(0, 7));
    let mut early = pool(400, 7);
    early.last_update_time = 1_000;
    let before = early;
    assert_eq!(distribute_rewards(key(5), true, key(5), &config(), &mut early, 1_000), Ok(()));
    assert_eq!(early, before);
    assert_eq!(distribute_rewards(key(5), true, key(5), &config(), &mut early, 999), Ok(()));
    assert_eq!(early, before);
}

#[test]
fn distribution_is_for_the_administrator() {
    let mut p = pool(400, 7);
    assert_eq!(
        distribute_rewards(key(5), false, key(5), &config(), &mut p, 1_000),
        Err(SolcatError::NotAuthorized)
    );
    assert_eq!(
        distribute_rewards(key(6), true, key(5), &config(), &mut p, 1_000),
        Err(SolcatError::NotAuthorized)
    );
    assert_eq!(p, pool(400, 7));
}

#[test]
fn distribution_stops_at_the_end_of_the_range() {
    let mut cfg = config();
    cfg.reward_rate = u64::MAX;
    let mut p = pool(1, 10);
    p.last_update_time = i64::MIN;
    assert_eq!(distribute_rewards(key(5), true, key(5), &cfg, &mut p, i64::MAX), Ok(()));
    assert_eq!(p.reward_per_token, u64::MAX);
    assert_eq!(p.last_update_time, i64::MAX);
}

#[test]
fn the_counter_never_falls() {
    let mut p = pool(3, 0);
    let mut last = 0u64;
    for now in [5i64, 5, 4, 100, 50, 1_000_000] {
        distribute_rewards(key(5), true, key(5), &config(), &mut p, now).unwrap();
        assert!(p.reward_per_token >= last);
        last = p.reward_per_token;
    }
}
