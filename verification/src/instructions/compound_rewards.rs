//! Compounding of staking and MEV rewards into the reserves.

use vstd::prelude::*;
use crate::error::SwapError;
use crate::host::{Clock, Pubkey};
use crate::state::jito_reserves::{JitoReserves, JitoReservesView, JitoValidatorMetrics};
use crate::state::risk_adjusted_pool::{RiskAdjustedPool, RiskAdjustedPoolView};
use crate::state::validator_tracking::{ReservesTracker, ReservesTrackerView};

verus! {

/// Yearly staking return, in basis points.
pub const ANNUAL_STAKING_RATE: u64 = 600;

/// Seconds of a year times the basis points of a whole.
pub const YEAR_SECONDS_TIMES_BPS: u64 = 365 * 24 * 60 * 60 * 10000;

/// Seconds of a day.
pub const DAY_SECONDS: u64 = 24 * 60 * 60;

/// The records a compounding works on.
#[derive(Clone, Debug, PartialEq, Eq)]
pub struct CompoundRewards {
    /// The pool whose rewards are compounded.
    pub pool: RiskAdjustedPool,
    /// The reserves the rewards go to.
    pub reserves_tracker: ReservesTracker,
    /// Who asked for the compounding.
    pub authority: Pubkey,
}

/// The rewards added by one compounding.
#[derive(Clone, Copy, Debug, PartialEq, Eq)]
pub struct RewardsSnapshot {
    pub timestamp: i64,
    pub staking_rewards: u64,
    pub mev_rewards: u64,
}

/// The staking reward that reserves earn over a number of seconds at 6% a
/// year, rounded down.
pub open spec fn staking_reward(total_reserves: int, elapsed: int) -> int {
    total_reserves * 600 * elapsed / 315_360_000_000
}

/// Whether computing the staking reward leaves the 64-bit range at some
/// step, which includes a time that runs backwards.
pub open spec fn staking_reward_overflows(total_reserves: int, elapsed: int) -> bool {
    ||| elapsed < 0
    ||| total_reserves * 600 > u64::MAX
    ||| total_reserves * 600 * elapsed > u64::MAX
}

/// The MEV that the validators earn per day, all together.
pub open spec fn mev_rate(validators: Seq<JitoValidatorMetrics>) -> int
    decreases validators.len(),
{
    if validators.len() == 0 {
        0
    } else {
        mev_rate(validators.drop_last()) + validators.last().mev_earned
    }
}

/// The MEV reward earned over a number of seconds at a daily rate, rounded
/// down.
pub open spec fn mev_reward(rate: int, elapsed: int) -> int {
    rate * elapsed / 86_400
}

/// Whether computing the MEV reward leaves the 64-bit range at some step,
/// which includes a time that runs backwards.
pub open spec fn mev_reward_overflows(rate: int, elapsed: int) -> bool {
    ||| rate > u64::MAX
    ||| elapsed < 0
    ||| rate * elapsed > u64::MAX
}

/// The daily MEV rate of a pool: that of its tracked validators, and zero
/// for a pool that tracks none.
pub open spec fn tracked_mev_rate(reserves: Option<JitoReservesView>) -> int {
    match reserves {
        Some(jito) => mev_rate(jito.validator_performance),
        None => 0,
    }
}

/// Whether reserves last compounded at `last_update` may be compounded at
/// `now`.
pub open spec fn compound_permitted(last_update: int, interval: int, now: int) -> bool {
    now - last_update >= interval
}

/// The outcome of a compounding at `now`: the reserves that result, or the
/// reason the compounding is refused.
pub open spec fn compounded(pool: RiskAdjustedPoolView, reserves: ReservesTrackerView, now: i64)
    -> Result<ReservesTrackerView, SwapError> {
    let elapsed = now - reserves.last_update;
    let staking = staking_reward(reserves.total_reserves as int, elapsed);
    let rate = tracked_mev_rate(pool.jito_reserves);
    let mev = mev_reward(rate, elapsed);
    if !compound_permitted(
        reserves.last_update as int,
        pool.config.min_compound_interval as int,
        now as int,
    ) {
        Err(SwapError::TooEarlyToCompound)
    } else if staking_reward_overflows(reserves.total_reserves as int, elapsed)
        || mev_reward_overflows(rate, elapsed) || reserves.total_reserves + staking > u64::MAX
        || reserves.jito_mev_rewards + mev > u64::MAX {
        Err(SwapError::MathOverflow)
    } else {
        Ok(
            ReservesTrackerView {
                last_update: now,
                total_reserves: (reserves.total_reserves + staking) as u64,
                jito_mev_rewards: (reserves.jito_mev_rewards + mev) as u64,
                rewards_history: reserves.rewards_history.push(
                    RewardsSnapshot {
                        timestamp: now,
                        staking_rewards: staking as u64,
                        mev_rewards: mev as u64,
                    },
                ),
                ..reserves
            },
        )
    }
}

/// Rewards are proportional to time, up to rounding: over twice the time
/// the same reserves earn twice the staking reward or one unit more, and the
/// same rate earns twice the MEV reward or one unit more.
pub proof fn lemma_rewards_double_with_time(total_reserves: nat, rate: nat, elapsed: nat)
    ensures
        2 * staking_reward(total_reserves as int, elapsed as int) <= staking_reward(
            total_reserves as int,
            2 * (elapsed as int),
        ) <= 2 * staking_reward(total_reserves as int, elapsed as int) + 1,
        2 * mev_reward(rate as int, elapsed as int) <= mev_reward(
            rate as int,
            2 * (elapsed as int),
        ) <= 2
            * mev_reward(rate as int, elapsed as int) + 1,
{
    assert(total_reserves * 600 * (2 * elapsed) == 2 * (total_reserves * 600 * elapsed))
        by (nonlinear_arith);
    assert(rate * (2 * elapsed) == 2 * (rate * elapsed)) by (nonlinear_arith);
}

/// Rewards do not fall when more time has passed.
pub proof fn lemma_rewards_grow_with_time(
    total_reserves: nat,
    rate: nat,
    shorter: nat,
    longer: nat,
)
    requires
        shorter <= longer,
    ensures
        staking_reward(total_reserves as int, shorter as int) <= staking_reward(
            total_reserves as int,
            longer as int,
        ),
        mev_reward(rate as int, shorter as int) <= mev_reward(rate as int, longer as int),
{
    assert(total_reserves * 600 * shorter <= total_reserves * 600 * longer) by (nonlinear_arith)
        requires
            shorter <= longer,
    ;
    assert(rate * shorter <= rate * longer) by (nonlinear_arith)
        requires
            shorter <= longer,
    ;
}

/// The rate of the first validators never exceeds the rate of all.
pub proof fn lemma_mev_rate_prefix(validators: Seq<JitoValidatorMetrics>, n: int)
    requires
        0 <= n <= validators.len(),
    ensures
        0 <= mev_rate(validators.take(n)) <= mev_rate(validators),
    decreases validators.len() - n,
{
    if n == validators.len() {
        assert(validators.take(n) =~= validators);
        lemma_mev_rate_nonnegative(validators);
    } else {
        lemma_mev_rate_prefix(validators, n + 1);
        assert(validators.take(n + 1).drop_last() =~= validators.take(n));
        lemma_mev_rate_nonnegative(validators.take(n));
    }
}

proof fn lemma_mev_rate_nonnegative(validators: Seq<JitoValidatorMetrics>)
    ensures
        0 <= mev_rate(validators),
    decreases validators.len(),
{
    if validators.len() > 0 {
        lemma_mev_rate_nonnegative(validators.drop_last());
    }
}

/// Seconds from `last_update` to `current_time`, when time has not run
/// backwards.
fn elapsed_seconds(last_update: i64, current_time: i64) -> (elapsed: Option<u64>)
    ensures
        current_time - last_update < 0 ==> elapsed is None,
        current_time - last_update >= 0 ==> elapsed == Some((current_time - last_update) as u64),
{
    let elapsed: i128 = current_time as i128 - last_update as i128;
    if elapsed < 0 {
        None
    } else {
        Some(elapsed as u64)
    }
}

/// The staking reward earned by the reserves from `last_update` to
/// `current_time`. Fails with `MathOverflow` exactly when a step of the
/// computation leaves the 64-bit range.
pub fn calculate_staking_rewards(total_reserves: u64, last_update: i64, current_time: i64) -> (r:
    Result<u64, SwapError>)
    ensures
        match r {
            Ok(reward) => reward == staking_reward(
                total_reserves as int,
                current_time - last_update,
            ) && !staking_reward_overflows(total_reserves as int, current_time - last_update),
            Err(e) => e == SwapError::MathOverflow && staking_reward_overflows(
                total_reserves as int,
                current_time - last_update,
            ),
        },
{
    let time_elapsed = elapsed_seconds(last_update, current_time).ok_or(SwapError::MathOverflow)?;

    let rewards = (total_reserves.checked_mul(ANNUAL_STAKING_RATE).ok_or(
        SwapError::MathOverflow,
    )?.checked_mul(time_elapsed).ok_or(SwapError::MathOverflow)?).checked_div(
        YEAR_SECONDS_TIMES_BPS,
    ).ok_or(SwapError::MathOverflow)?;

    Ok(rewards)
}

/// The MEV reward earned by the tracked validators from `last_update` to
/// `current_time`. Fails with `MathOverflow` exactly when a step of the
/// computation leaves the 64-bit range.
pub fn calculate_mev_rewards(jito_reserves: &JitoReserves, last_update: i64, current_time: i64) -> (r:
    Result<u64, SwapError>)
    ensures
        match r {
            Ok(reward) => reward == mev_reward(
                mev_rate(jito_reserves@.validator_performance),
                current_time - last_update,
            ) && !mev_reward_overflows(
                mev_rate(jito_reserves@.validator_performance),
                current_time - last_update,
            ),
            Err(e) => e == SwapError::MathOverflow && mev_reward_overflows(
                mev_rate(jito_reserves@.validator_performance),
                current_time - last_update,
            ),
        },
{
    let mut mev_rate_sum: u64 = 0;
    let mut i: usize = 0;
    while i < jito_reserves.validator_performance.len()
        invariant
            i <= jito_reserves.validator_performance@.len(),
            mev_rate_sum == mev_rate(jito_reserves.validator_performance@.take(i as int)),
        decreases jito_reserves.validator_performance@.len() - i,
    {
        let earned = jito_reserves.validator_performance[i].mev_earned;
        proof {
            let validators = jito_reserves.validator_performance@;
            assert(validators.take(i as int + 1).drop_last() =~= validators.take(i as int));
            lemma_mev_rate_prefix(validators, i as int + 1);
        }
        mev_rate_sum = mev_rate_sum.checked_add(earned).ok_or(SwapError::MathOverflow)?;
        i += 1;
    }
    assert(jito_reserves.validator_performance@.take(i as int)
        =~= jito_reserves.validator_performance@);

    let time_elapsed = elapsed_seconds(last_update, current_time).ok_or(SwapError::MathOverflow)?;

    let rewards = (mev_rate_sum.checked_mul(time_elapsed).ok_or(
        SwapError::MathOverflow,
    )?).checked_div(DAY_SECONDS).ok_or(SwapError::MathOverflow)?;

    Ok(rewards)
}

/// Compounds the rewards earned since the last compounding into the
/// reserves at the host's time, and appends them to the history. The
/// compounding is refused with `TooEarlyToCompound` before the pool's
/// interval has passed, and with `MathOverflow` when a reward or a total
/// leaves the 64-bit range; a refused compounding changes nothing.
pub fn handler(ctx: &mut CompoundRewards, clock: &Clock) -> (r: Result<(), SwapError>)
    ensures
        final(ctx).pool == old(ctx).pool,
        final(ctx).authority == old(ctx).authority,
        match compounded(old(ctx).pool@, old(ctx).reserves_tracker@, clock.unix_timestamp) {
            Ok(next) => r == Ok::<(), SwapError>(()) && final(ctx).reserves_tracker@ == next,
            Err(e) => r == Err::<(), SwapError>(e) && *final(ctx) == *old(ctx),
        },
        r is Ok ==> final(ctx).reserves_tracker.total_reserves == old(
            ctx,
        ).reserves_tracker.total_reserves + staking_reward(
            old(ctx).reserves_tracker.total_reserves as int,
            clock.unix_timestamp - old(ctx).reserves_tracker.last_update,
        ),
        r is Ok ==> final(ctx).reserves_tracker.jito_mev_rewards == old(
            ctx,
        ).reserves_tracker.jito_mev_rewards + mev_reward(
            tracked_mev_rate(old(ctx).pool@.jito_reserves),
            clock.unix_timestamp - old(ctx).reserves_tracker.last_update,
        ),
{
    let now = clock.unix_timestamp;
    if (now as i128) - (ctx.reserves_tracker.last_update as i128)
        < ctx.pool.config.min_compound_interval as i128 {
        return Err(SwapError::TooEarlyToCompound);
    }
    let new_staking_rewards = calculate_staking_rewards(
        ctx.reserves_tracker.total_reserves,
        ctx.reserves_tracker.last_update,
        now,
    )?;

    let new_mev_rewards = match &ctx.pool.jito_reserves {
        Some(jito_reserves) => calculate_mev_rewards(
            jito_reserves,
            ctx.reserves_tracker.last_update,
            now,
        )?,
        None => {
            assert(mev_reward(0, now - ctx.reserves_tracker.last_update) == 0) by (nonlinear_arith);
            assert(!mev_reward_overflows(0, now - ctx.reserves_tracker.last_update))
                by (nonlinear_arith)
                requires
                    now - ctx.reserves_tracker.last_update >= 0,
            ;
            0
        },
    };

    let total_reserves = ctx.reserves_tracker.total_reserves.checked_add(
        new_staking_rewards,
    ).ok_or(SwapError::MathOverflow)?;

    let jito_mev_rewards = ctx.reserves_tracker.jito_mev_rewards.checked_add(
        new_mev_rewards,
    ).ok_or(SwapError::MathOverflow)?;

    ctx.reserves_tracker.total_reserves = total_reserves;
    ctx.reserves_tracker.jito_mev_rewards = jito_mev_rewards;
    ctx.reserves_tracker.rewards_history.push(
        RewardsSnapshot {
            timestamp: now,
            staking_rewards: new_staking_rewards,
            mev_rewards: new_mev_rewards,
        },
    );
    ctx.reserves_tracker.last_update = now;

    Ok(())
}

} // verus!
