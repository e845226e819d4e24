use solswap::error::SwapError;
use solswap::host::{Clock, Pubkey};
use solswap::instructions::compound_rewards::{
    calculate_mev_rewards, calculate_staking_rewards, handler, CompoundRewards, RewardsSnapshot,
    ANNUAL_STAKING_RATE, DAY_SECONDS, YEAR_SECONDS_TIMES_BPS,
};
use solswap::state::jito_reserves::{JitoReserves, JitoValidatorMetrics};
use solswap::state::risk_adjusted_pool::{PoolConfig, RiskAdjustedPool};
use solswap::state::validator_tracking::ReservesTracker;

fn key(byte: u8) -> Pubkey {
    Pubkey::new_from_array([byte; 32])
}

fn jito(earned: &[u64]) -> JitoReserves {
    JitoReserves {
        base_staking_reserves: 0,
        mev_rewards_reserves: 0,
        last_mev_distribution: 0,
        validator_performance: earned
            .iter()
            .map(|&mev_earned| JitoValidatorMetrics {
                validator_identity: key(4),
                mev_earned,
                performance_score: 90,
            })
            .collect(),
    }
}

fn context(interval: i64, earned: Option<&[u64]>, reserves: u64, last_update: i64) -> CompoundRewards {
    let config = PoolConfig {
        max_weight: 50,
        rebalance_interval: 3_600,
        max_weight_deviation: 5,
        min_compound_interval: interval,
    };
    let mut pool = RiskAdjustedPool::new(key(1), config);
    pool.jito_reserves = earned.map(jito);
    let mut tracker = ReservesTracker::new(key(2));
    tracker.total_reserves = reserves;
    tracker.last_update = last_update;
    CompoundRewards { pool, reserves_tracker: tracker, authority: key(3) }
}

#[test]
fn reward_constants() {
    assert_eq!(ANNUAL_STAKING_RATE, 600);
    assert_eq!(YEAR_SECONDS_TIMES_BPS, 315_360_000_000);
    assert_eq!(DAY_SECONDS, 86_400);
}

#[test]
fn staking_reward_is_six_percent_a_year() {
    assert_eq!(calculate_staking_rewards(1_000_000, 0, 31_536_000), Ok(60_000));
    assert_eq!(calculate_staking_rewards(1_000_000, 0, 86_400), Ok(164));
    assert_eq!(calculate_staking_rewards(1_000_000_000, 500, 500 + 86_400), Ok(164_383));
    assert_eq!(calculate_staking_rewards(525_600_000, -1, 0), Ok(1));
    assert_eq!(calculate_staking_rewards(525_599_999, -1, 0), Ok(0));
    assert_eq!(calculate_staking_rewards(0, 0, i64::MAX), Ok(0));
    assert_eq!(calculate_staking_rewards(u64::MAX / 600, 7, 7), Ok(0));
}

#[test]
fn staking_reward_doubles_with_time_up_to_rounding() {
    assert_eq!(calculate_staking_rewards(1_000_000, 0, 172_800), Ok(328));
    assert_eq!(calculate_staking_rewards(1_000_000_000, 0, 172_800), Ok(328_767));
    for &reserves in [1u64, 999, 1_000_000, 123_456_789, 5_000_000_000].iter() {
        for &elapsed in [1i64, 59, 3_600, 86_400, 1_000_000].iter() {
            let once = calculate_staking_rewards(reserves, 0, elapsed).unwrap();
            let twice = calculate_staking_rewards(reserves, 0, 2 * elapsed).unwrap();
            assert!(twice == 2 * once || twice == 2 * once + 1);
        }
    }
}

#[test]
fn staking_reward_reports_overflow() {
    assert_eq!(calculate_staking_rewards(u64::MAX, 0, 1), Err(SwapError::MathOverflow));
    assert_eq!(calculate_staking_rewards(u64::MAX / 600 + 1, 0, 0), Err(SwapError::MathOverflow));
    assert_eq!(calculate_staking_rewards(u64::MAX / 600, 0, 1), Ok(58_494_241));
    assert_eq!(calculate_staking_rewards(u64::MAX / 600, 0, 2), Err(SwapError::MathOverflow));
    assert_eq!(
        calculate_staking_rewards(1_000_000_000_000, 0, 30_744),
        Ok(58_493_150)
    );
    assert_eq!(
        calculate_staking_rewards(1_000_000_000_000, 0, 30_745),
        Err(SwapError::MathOverflow)
    );
}

#[test]
fn time_running_backwards_is_an_overflow() {
    assert_eq!(calculate_staking_rewards(1_000, 10, 9), Err(SwapError::MathOverflow));
    assert_eq!(calculate_staking_rewards(0, 10, 9), Err(SwapError::MathOverflow));
    assert_eq!(calculate_mev_rewards(&jito(&[1]), 10, 9), Err(SwapError::MathOverflow));
    assert_eq!(calculate_staking_rewards(0, i64::MAX, i64::MIN), Err(SwapError::MathOverflow));
    // the widest span of time is no overflow by itself
    assert_eq!(calculate_staking_rewards(0, i64::MIN, i64::MAX), Ok(0));
    assert_eq!(calculate_mev_rewards(&jito(&[1]), i64::MIN, i64::MAX), Ok(u64::MAX / 86_400));
}

#[test]
fn mev_reward_is_the_daily_rate_over_the_elapsed_time() {
    assert_eq!(calculate_mev_rewards(&jito(&[100, 200]), 0, 43_200), Ok(150));
    assert_eq!(calculate_mev_rewards(&jito(&[100, 200]), 0, 86_400), Ok(300));
    assert_eq!(calculate_mev_rewards(&jito(&[301]), 1_000, 1_000 + 43_201), Ok(150));
    assert_eq!(calculate_mev_rewards(&jito(&[]), 0, 86_400), Ok(0));
    assert_eq!(calculate_mev_rewards(&jito(&[0, 0, 86_399]), 0, 1), Ok(0));
    assert_eq!(calculate_mev_rewards(&jito(&[0, 1, 86_399]), 0, 1), Ok(1));
}

#[test]
fn mev_reward_reports_overflow() {
    assert_eq!(calculate_mev_rewards(&jito(&[u64::MAX, 1]), 0, 0), Err(SwapError::MathOverflow));
    assert_eq!(calculate_mev_rewards(&jito(&[1, u64::MAX]), 0, 1), Err(SwapError::MathOverflow));
    assert_eq!(calculate_mev_rewards(&jito(&[u64::MAX]), 0, 1), Ok(u64::MAX / 86_400));
    assert_eq!(calculate_mev_rewards(&jito(&[u64::MAX]), 0, 2), Err(SwapError::MathOverflow));
    assert_eq!(
        calculate_mev_rewards(&jito(&[u64::MAX / 2, u64::MAX / 2, 1]), 0, 1),
        Ok(u64::MAX / 86_400)
    );
}

#[test]
fn compounding_adds_rewards_and_appends_to_the_history() {
    let mut ctx = context(3_600, Some(&[100, 200]), 1_000_000, 1_000);
    let pool_before = ctx.pool.clone();
    assert_eq!(handler(&mut ctx, &Clock { unix_timestamp: 1_000 + 86_400 }), Ok(()));
    assert_eq!(ctx.reserves_tracker.total_reserves, 1_000_164);
    assert_eq!(ctx.reserves_tracker.jito_mev_rewards, 300);
    assert_eq!(ctx.reserves_tracker.last_update, 1_000 + 86_400);
    assert_eq!(
        ctx.reserves_tracker.rewards_history,
        vec![RewardsSnapshot { timestamp: 87_400, staking_rewards: 164, mev_rewards: 300 }]
    );
    assert_eq!(ctx.pool, pool_before);
    assert_eq!(ctx.authority, key(3));
    assert_eq!(ctx.reserves_tracker.authority, key(2));

    assert_eq!(handler(&mut ctx, &Clock { unix_timestamp: 87_400 + 43_200 }), Ok(()));
    // 1000164 * 600 * 43200 / 315360000000 = 82
    assert_eq!(ctx.reserves_tracker.total_reserves, 1_000_246);
    assert_eq!(ctx.reserves_tracker.jito_mev_rewards, 450);
    assert_eq!(ctx.reserves_tracker.rewards_history.len(), 2);
    assert_eq!(
        ctx.reserves_tracker.rewards_history[1],
        RewardsSnapshot { timestamp: 130_600, staking_rewards: 82, mev_rewards: 150 }
    );
}

#[test]
fn compounding_before_the_interval_is_refused_and_changes_nothing() {
    let mut ctx = context(3_600, Some(&[100, 200]), 1_000_000, 1_000);
    let before = ctx.clone();
    assert_eq!(handler(&mut ctx, &Clock { unix_timestamp: 4_599 }), Err(SwapError::TooEarlyToCompound));
    assert_eq!(ctx, before);
    assert_eq!(handler(&mut ctx, &Clock { unix_timestamp: 0 }), Err(SwapError::TooEarlyToCompound));
    assert_eq!(ctx, before);
    assert_eq!(handler(&mut ctx, &Clock { unix_timestamp: 4_600 }), Ok(()));
    assert_eq!(ctx.reserves_tracker.last_update, 4_600);
    assert_eq!(ctx.reserves_tracker.rewards_history.len(), 1);
}

#[test]
fn pool_without_tracked_validators_earns_no_mev() {
    let mut ctx = context(0, None, 1_000_000, 0);
    assert_eq!(handler(&mut ctx, &Clock { unix_timestamp: 86_400 }), Ok(()));
    assert_eq!(ctx.reserves_tracker.total_reserves, 1_000_164);
    assert_eq!(ctx.reserves_tracker.jito_mev_rewards, 0);
    assert_eq!(
        ctx.reserves_tracker.rewards_history,
        vec![RewardsSnapshot { timestamp: 86_400, staking_rewards: 164, mev_rewards: 0 }]
    );
}

#[test]
fn overflowing_compounding_is_refused_and_changes_nothing() {
    let mut ctx = context(0, Some(&[1]), u64::MAX, 0);
    let before = ctx.clone();
    assert_eq!(handler(&mut ctx, &Clock { unix_timestamp: 10 }), Err(SwapError::MathOverflow));
    assert_eq!(ctx, before);

    let mut ctx = context(0, Some(&[u64::MAX, 1]), 1, 0);
    let before = ctx.clone();
    assert_eq!(handler(&mut ctx, &Clock { unix_timestamp: 10 }), Err(SwapError::MathOverflow));
    assert_eq!(ctx, before);

    // the rewards fit, the total of the MEV pool does not
    let mut ctx = context(0, Some(&[86_400]), 1, 0);
    ctx.reserves_tracker.jito_mev_rewards = u64::MAX;
    let before = ctx.clone();
    assert_eq!(handler(&mut ctx, &Clock { unix_timestamp: 1 }), Err(SwapError::MathOverflow));
    assert_eq!(ctx, before);

}

#[test]
fn largest_reserves_that_can_be_multiplied_are_compounded() {
    let mut ctx = context(0, None, u64::MAX / 600, 0);
    assert_eq!(handler(&mut ctx, &Clock { unix_timestamp: 1 }), Ok(()));
    assert_eq!(ctx.reserves_tracker.total_reserves, u64::MAX / 600 + 58_494_241);
}

#[test]
fn negative_interval_lets_time_run_backwards_into_an_overflow() {
    let mut ctx = context(-100, None, 1_000, 50);
    let before = ctx.clone();
    assert_eq!(handler(&mut ctx, &Clock { unix_timestamp: 10 }), Err(SwapError::MathOverflow));
    assert_eq!(ctx, before);
    assert_eq!(handler(&mut ctx, &Clock { unix_timestamp: -51 }), Err(SwapError::TooEarlyToCompound));
    assert_eq!(ctx, before);
}
