//! The stake pool: a counter of reward per staked unit, which only grows,
//! and for each staker the reading of that counter up to which rewards are
//! settled. What a staker is owed is the stake times the growth since then.

use vstd::prelude::*;
use crate::arith::{
    add_clamped_i64,
    add_clamped_u64,
    clamp_i64,
    clamp_u64,
    mul_clamped_u64,
    sub_clamped_u64,
};
use crate::error::SolcatError;
use crate::state::{Address, GlobalConfig, StakePool, UserStake};

verus! {

/// What the reward counter is scaled by.
pub const REWARD_SCALE: u64 = 1_000_000_000;

/// The shortest and the longest time, in seconds, for which tokens can be locked.
pub const MIN_STAKE_DURATION: i64 = 604800;

pub const MAX_STAKE_DURATION: i64 = 31536000;

/// The rewards that have accrued to a position since it was last settled.
pub open spec fn pending_rewards(user: UserStake, pool: StakePool) -> int {
    if user.amount == 0 {
        0
    } else {
        clamp_u64(user.amount * clamp_u64(pool.reward_per_token - user.reward_per_token_paid))
            / 1_000_000_000
    }
}

/// The rewards of a position with what is pending counted in.
pub open spec fn settled_rewards(user: UserStake, pool: StakePool) -> int {
    clamp_u64(user.rewards_earned + pending_rewards(user, pool))
}

/// The rewards that have accrued to a position since it was last settled.
pub fn calculate_pending_rewards(user_stake: &UserStake, stake_pool: &StakePool) -> (r: u64)
    ensures
        r == pending_rewards(*user_stake, *stake_pool),
{
    if user_stake.amount == 0 {
        return 0;
    }
    let delta: u64 = sub_clamped_u64(
        stake_pool.reward_per_token,
        user_stake.reward_per_token_paid,
    );
    mul_clamped_u64(user_stake.amount, delta) / REWARD_SCALE
}

/// Why a stake of tokens is refused, if it is.
pub open spec fn staking_rejection(
    staker_is_signer: bool,
    token_mint: Address,
    config: GlobalConfig,
    amount: u64,
    duration: i64,
) -> Option<SolcatError> {
    if !staker_is_signer {
        Some(SolcatError::NotAuthorized)
    } else if !config.staking_enabled {
        Some(SolcatError::StakingDisabled)
    } else if config.token_mint@ != token_mint@ {
        Some(SolcatError::InvalidTokenMint)
    } else if amount == 0 || duration < MIN_STAKE_DURATION || duration > MAX_STAKE_DURATION {
        Some(SolcatError::InvalidStakeAmount)
    } else {
        None
    }
}

/// A position after `amount` is staked on it at `now` for `duration` seconds.
pub open spec fn staked_user(
    user: UserStake,
    pool: StakePool,
    amount: u64,
    duration: i64,
    now: i64,
) -> UserStake {
    UserStake {
        rewards_earned: settled_rewards(user, pool) as u64,
        amount: clamp_u64(user.amount + amount) as u64,
        lock_end_time: clamp_i64(now + duration) as i64,
        reward_per_token_paid: pool.reward_per_token,
        ..user
    }
}

/// The pool after `amount` is staked at `now`.
pub open spec fn staked_pool(pool: StakePool, amount: u64, now: i64) -> StakePool {
    StakePool {
        total_staked: clamp_u64(pool.total_staked + amount) as u64,
        last_update_time: now,
        ..pool
    }
}

/// Stakes `amount` tokens for `duration` seconds: what is pending is settled
/// first, then the position and the pool grow by `amount`, the lock is set,
/// and the position is settled up to the pool's present counter.
pub fn stake_tokens(
    staker_is_signer: bool,
    token_mint: Address,
    config: &GlobalConfig,
    user_stake: &mut UserStake,
    stake_pool: &mut StakePool,
    amount: u64,
    duration: i64,
    now: i64,
) -> (r: Result<(), SolcatError>)
    ensures
        match r {
            Ok(_) => {
                &&& staking_rejection(staker_is_signer, token_mint, *config, amount, duration)
                    is None
                &&& *final(user_stake) == staked_user(
                    *old(user_stake),
                    *old(stake_pool),
                    amount,
                    duration,
                    now,
                )
                &&& *final(stake_pool) == staked_pool(*old(stake_pool), amount, now)
                &&& final(user_stake).reward_per_token_paid == final(stake_pool).reward_per_token
            },
            Err(e) => {
                &&& staking_rejection(staker_is_signer, token_mint, *config, amount, duration)
                    == Some(e)
                &&& *final(user_stake) == *old(user_stake)
                &&& *final(stake_pool) == *old(stake_pool)
            },
        },
{
    if !staker_is_signer {
        return Err(SolcatError::NotAuthorized);
    }
    if !config.staking_enabled {
        return Err(SolcatError::StakingDisabled);
    }
    if !config.token_mint.same(&token_mint) {
        return Err(SolcatError::InvalidTokenMint);
    }
    if amount == 0 {
        return Err(SolcatError::InvalidStakeAmount);
    }
    if duration < MIN_STAKE_DURATION || duration > MAX_STAKE_DURATION {
        return Err(SolcatError::InvalidStakeAmount);
    }
    let pending: u64 = calculate_pending_rewards(user_stake, stake_pool);
    user_stake.rewards_earned = add_clamped_u64(user_stake.rewards_earned, pending);
    user_stake.amount = add_clamped_u64(user_stake.amount, amount);
    user_stake.lock_end_time = add_clamped_i64(now, duration);
    user_stake.reward_per_token_paid = stake_pool.reward_per_token;

    stake_pool.total_staked = add_clamped_u64(stake_pool.total_staked, amount);
    stake_pool.last_update_time = now;
    Ok(())
}

/// Why a withdrawal is refused, if it is.
pub open spec fn unstaking_rejection(
    staker: Address,
    staker_is_signer: bool,
    user: UserStake,
    now: i64,
) -> Option<SolcatError> {
    if !staker_is_signer || user.owner@ != staker@ {
        Some(SolcatError::NotAuthorized)
    } else if now < user.lock_end_time {
        Some(SolcatError::StakeLocked)
    } else {
        None
    }
}

/// A position after all of it is withdrawn, with what was pending settled.
pub open spec fn unstaked_user(user: UserStake, pool: StakePool) -> UserStake {
    UserStake {
        rewards_earned: settled_rewards(user, pool) as u64,
        amount: 0,
        lock_end_time: 0,
        ..user
    }
}

/// The pool after the position `user` is withdrawn at `now`.
pub open spec fn unstaked_pool(user: UserStake, pool: StakePool, now: i64) -> StakePool {
    StakePool {
        total_staked: clamp_u64(pool.total_staked - user.amount) as u64,
        last_update_time: now,
        ..pool
    }
}

/// Withdraws a whole position once its lock has run out, and returns the
/// amount withdrawn. The rewards pending at that moment are settled.
pub fn unstake_tokens(
    staker: Address,
    staker_is_signer: bool,
    user_stake: &mut UserStake,
    stake_pool: &mut StakePool,
    now: i64,
) -> (r: Result<u64, SolcatError>)
    ensures
        match r {
            Ok(amount) => {
                &&& unstaking_rejection(staker, staker_is_signer, *old(user_stake), now) is None
                &&& amount == old(user_stake).amount
                &&& *final(user_stake) == unstaked_user(*old(user_stake), *old(stake_pool))
                &&& *final(stake_pool) == unstaked_pool(*old(user_stake), *old(stake_pool), now)
            },
            Err(e) => {
                &&& unstaking_rejection(staker, staker_is_signer, *old(user_stake), now) == Some(
                    e,
                )
                &&& *final(user_stake) == *old(user_stake)
                &&& *final(stake_pool) == *old(stake_pool)
            },
        },
{
    if !staker_is_signer || !user_stake.owner.same(&staker) {
        return Err(SolcatError::NotAuthorized);
    }
    if now < user_stake.lock_end_time {
        return Err(SolcatError::StakeLocked);
    }
    let pending: u64 = calculate_pending_rewards(user_stake, stake_pool);
    user_stake.rewards_earned = add_clamped_u64(user_stake.rewards_earned, pending);

    stake_pool.total_staked = sub_clamped_u64(stake_pool.total_staked, user_stake.amount);
    stake_pool.last_update_time = now;

    let amount: u64 = user_stake.amount;
    user_stake.amount = 0;
    user_stake.lock_end_time = 0;
    Ok(amount)
}

/// Why a claim is refused, if it is.
pub open spec fn claim_rejection(
    claimer: Address,
    claimer_is_signer: bool,
    treasury: Address,
    config: GlobalConfig,
    user: UserStake,
    pool: StakePool,
) -> Option<SolcatError> {
    if !claimer_is_signer {
        Some(SolcatError::NotAuthorized)
    } else if config.treasury@ != treasury@ {
        Some(SolcatError::TreasuryMismatch)
    } else if user.owner@ != claimer@ {
        Some(SolcatError::NotAuthorized)
    } else if settled_rewards(user, pool) == 0 {
        Some(SolcatError::InvalidRewardCalculation)
    } else {
        None
    }
}

/// Claims all rewards of a position and returns the total to pay out: what
/// was settled before and what is pending. The position then holds no rewards
/// and is settled up to the pool's present counter.
pub fn claim_rewards(
    claimer: Address,
    claimer_is_signer: bool,
    treasury: Address,
    config: &GlobalConfig,
    user_stake: &mut UserStake,
    stake_pool: &StakePool,
) -> (r: Result<u64, SolcatError>)
    ensures
        match r {
            Ok(total) => {
                &&& claim_rejection(
                    claimer,
                    claimer_is_signer,
                    treasury,
                    *config,
                    *old(user_stake),
                    *stake_pool,
                ) is None
                &&& total == settled_rewards(*old(user_stake), *stake_pool)
                &&& total > 0
                &&& *final(user_stake) == (UserStake {
                    rewards_earned: 0,
                    reward_per_token_paid: stake_pool.reward_per_token,
                    ..*old(user_stake)
                })
            },
            Err(e) => {
                &&& claim_rejection(
                    claimer,
                    claimer_is_signer,
                    treasury,
                    *config,
                    *old(user_stake),
                    *stake_pool,
                ) == Some(e)
                &&& *final(user_stake) == *old(user_stake)
            },
        },
{
    if !claimer_is_signer {
        return Err(SolcatError::NotAuthorized);
    }
    if !config.treasury.same(&treasury) {
        return Err(SolcatError::TreasuryMismatch);
    }
    if !user_stake.owner.same(&claimer) {
        return Err(SolcatError::NotAuthorized);
    }
    let pending: u64 = calculate_pending_rewards(user_stake, stake_pool);
    let total: u64 = add_clamped_u64(user_stake.rewards_earned, pending);
    if total == 0 {
        return Err(SolcatError::InvalidRewardCalculation);
    }
    user_stake.rewards_earned = 0;
    user_stake.reward_per_token_paid = stake_pool.reward_per_token;
    Ok(total)
}

/// The pool after rewards are distributed at `now` at `rate` per second:
/// where something is staked and time has passed since the last update, the
/// counter grows by the reward for that time divided by the total staked.
pub open spec fn distributed_pool(pool: StakePool, rate: u64, now: i64) -> StakePool {
    if now - pool.last_update_time > 0 && pool.total_staked > 0 {
        StakePool {
            reward_per_token: clamp_u64(
                pool.reward_per_token + clamp_u64(rate * (now - pool.last_update_time))
                    / (pool.total_staked as int),
            ) as u64,
            last_update_time: now,
            ..pool
        }
    } else {
        pool
    }
}

/// Distributes the rewards that have come due since the pool's last update,
/// on the word of the administrator `admin`, at the configured rate.
pub fn distribute_rewards(
    authority: Address,
    authority_is_signer: bool,
    admin: Address,
    config: &GlobalConfig,
    stake_pool: &mut StakePool,
    now: i64,
) -> (r: Result<(), SolcatError>)
    ensures
        r is Ok <==> authority_is_signer && authority@ == admin@,
        r is Err ==> r == Err::<(), SolcatError>(SolcatError::NotAuthorized) && *final(stake_pool)
            == *old(stake_pool),
        r is Ok ==> *final(stake_pool) == distributed_pool(
            *old(stake_pool),
            config.reward_rate,
            now,
        ),
        final(stake_pool).reward_per_token >= old(stake_pool).reward_per_token,
{
    if !authority_is_signer || !authority.same(&admin) {
        return Err(SolcatError::NotAuthorized);
    }
    let elapsed: i128 = now as i128 - stake_pool.last_update_time as i128;
    if elapsed > 0 && stake_pool.total_staked > 0 {
        let seconds: u128 = elapsed as u128;
        let rate: u128 = config.reward_rate as u128;
        assert(rate * seconds <= 0xffff_ffff_ffff_ffff * 0xffff_ffff_ffff_ffff) by (nonlinear_arith)
            requires
                0 <= rate <= 0xffff_ffff_ffff_ffff,
                0 <= seconds <= 0xffff_ffff_ffff_ffff,
        ;
        assert(0 <= rate * seconds) by (nonlinear_arith)
            requires
                0 <= rate,
                0 <= seconds,
        ;
        let exact: u128 = rate * seconds;
        let reward: u64 = if exact > 0xffff_ffff_ffff_ffff {
            u64::MAX
        } else {
            exact as u64
        };
        let per_token: u64 = reward / stake_pool.total_staked;
        stake_pool.reward_per_token = add_clamped_u64(stake_pool.reward_per_token, per_token);
        stake_pool.last_update_time = now;
    }
    Ok(())
}

/// Staking on an empty position and withdrawing it again leaves the pool's
/// total where it was before, as long as the total fits its range, whatever
/// rewards were distributed in between. The withdrawal settles the rewards
/// with the pool's counter as it stands then: the stake times the counter's
/// growth since the stake, over the scale.
pub proof fn lemma_stake_unstake_round_trip(
    user: UserStake,
    pool: StakePool,
    amount: u64,
    duration: i64,
    staked_at: i64,
    pool_later: StakePool,
    unstaked_at: i64,
)
    requires
        user.amount == 0,
        pool.total_staked + amount <= u64::MAX,
        pool_later.total_staked == staked_pool(pool, amount, staked_at).total_staked,
    ensures
        unstaked_pool(
            staked_user(user, pool, amount, duration, staked_at),
            pool_later,
            unstaked_at,
        ).total_staked == pool.total_staked,
        unstaked_user(
            staked_user(user, pool, amount, duration, staked_at),
            pool_later,
        ).rewards_earned == clamp_u64(
            user.rewards_earned + (if amount == 0 {
                0
            } else {
                clamp_u64(amount * clamp_u64(pool_later.reward_per_token - pool.reward_per_token))
                    / 1_000_000_000
            }),
        ),
        unstaked_user(staked_user(user, pool, amount, duration, staked_at), pool_later).amount
            == 0,
{
}

/// The reward counter never falls, and a position that was just settled by a
/// stake or a claim has been paid up to a reading that the counter never
/// falls below again.
pub proof fn lemma_counter_never_falls(pool: StakePool, rate: u64, now: i64, paid: u64)
    requires
        paid <= pool.reward_per_token,
    ensures
        distributed_pool(pool, rate, now).reward_per_token >= pool.reward_per_token,
        paid <= distributed_pool(pool, rate, now).reward_per_token,
{
    if now - pool.last_update_time > 0 && pool.total_staked > 0 {
        let grown = clamp_u64(rate * (now - pool.last_update_time)) / (pool.total_staked as int);
        assert(grown >= 0) by (nonlinear_arith)
            requires
                grown == clamp_u64(rate * (now - pool.last_update_time)) / (
                pool.total_staked as int),
                clamp_u64(rate * (now - pool.last_update_time)) >= 0,
                pool.total_staked > 0,
        ;
    }
}

} // verus!
