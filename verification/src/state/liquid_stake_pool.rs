//! A liquid-staking token held by the pool and the rate it trades at.

use vstd::prelude::*;
use crate::host::Pubkey;

verus! {

/// One liquid-staking token of the pool.
#[derive(Clone, Debug, PartialEq, Eq)]
pub struct LiquidStakePool {
    pub token_mint: Pubkey,
    pub reserve_authority: Pubkey,
    pub lending_pool: Option<Pubkey>,
    pub stake_rate: StakeRate,
    pub rewards_tracking: RewardsTracking,
}

/// The rate between the token and its staked principal, with its past.
#[derive(Clone, Debug, PartialEq, Eq)]
pub struct StakeRate {
    pub current_rate: u64,
    pub last_update: i64,
    pub historical_rates: Vec<RateSnapshot>,
}

/// The rate at one moment.
#[derive(Clone, Copy, Debug, PartialEq, Eq)]
pub struct RateSnapshot {
    pub timestamp: i64,
    pub rate: u64,
}

/// Rewards earned by the token so far.
#[derive(Clone, Copy, Debug, PartialEq, Eq)]
pub struct RewardsTracking {
    pub total_rewards: u64,
    pub last_claimed: i64,
}

/// A stake rate with its past as a sequence.
pub struct StakeRateView {
    pub current_rate: u64,
    pub last_update: i64,
    pub historical_rates: Seq<RateSnapshot>,
}

/// A liquid-staking token with the past of its rate as a sequence.
pub struct LiquidStakePoolView {
    pub token_mint: Pubkey,
    pub reserve_authority: Pubkey,
    pub lending_pool: Option<Pubkey>,
    pub stake_rate: StakeRateView,
    pub rewards_tracking: RewardsTracking,
}

impl View for StakeRate {
    type V = StakeRateView;

    open spec fn view(&self) -> StakeRateView {
        StakeRateView {
            current_rate: self.current_rate,
            last_update: self.last_update,
            historical_rates: self.historical_rates@,
        }
    }
}

impl View for LiquidStakePool {
    type V = LiquidStakePoolView;

    open spec fn view(&self) -> LiquidStakePoolView {
        LiquidStakePoolView {
            token_mint: self.token_mint,
            reserve_authority: self.reserve_authority,
            lending_pool: self.lending_pool,
            stake_rate: self.stake_rate@,
            rewards_tracking: self.rewards_tracking,
        }
    }
}

} // verus!
