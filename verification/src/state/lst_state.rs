//! Performance and risk metrics of the liquid-staking token behind a pool.

use vstd::prelude::*;

verus! {

/// Metrics of the validators and reserves backing a liquid-staking token.
#[derive(Clone, Copy, Debug, PartialEq, Eq)]
pub struct LSTMetrics {
    /// MEV rewards earned by the validators, accumulated.
    pub mev_rewards: u64,
    /// Aggregate performance score of the validators.
    pub validator_performance: u64,
    /// Score of how evenly stake is spread over validators.
    pub decentralization_score: u64,
    /// Reserves relative to token supply, in basis points.
    pub reserve_ratio: u64,
}

impl Default for LSTMetrics {
    fn default() -> (metrics: LSTMetrics)
        ensures
            metrics == (LSTMetrics {
                mev_rewards: 0,
                validator_performance: 0,
                decentralization_score: 0,
                reserve_ratio: 0,
            }),
    {
        LSTMetrics {
            mev_rewards: 0,
            validator_performance: 0,
            decentralization_score: 0,
            reserve_ratio: 0,
        }
    }
}

impl LSTMetrics {
    /// Replaces the validator performance score.
    pub fn update_validator_performance(&mut self, new_performance: u64)
        ensures
            *final(self) == (LSTMetrics { validator_performance: new_performance, ..*old(self) }),
    {
        self.validator_performance = new_performance;
    }

    /// Replaces the decentralization score.
    pub fn update_decentralization(&mut self, new_score: u64)
        ensures
            *final(self) == (LSTMetrics { decentralization_score: new_score, ..*old(self) }),
    {
        self.decentralization_score = new_score;
    }

    /// Replaces the reserve ratio.
    pub fn update_reserve_ratio(&mut self, new_ratio: u64)
        ensures
            *final(self) == (LSTMetrics { reserve_ratio: new_ratio, ..*old(self) }),
    {
        self.reserve_ratio = new_ratio;
    }

    /// Adds to the accumulated MEV rewards; the total stops at `u64::MAX`.
    pub fn add_mev_rewards(&mut self, rewards: u64)
        ensures
            *final(self) == (LSTMetrics {
                mev_rewards: if old(self).mev_rewards + rewards > u64::MAX {
                    u64::MAX
                } else {
                    (old(self).mev_rewards + rewards) as u64
                },
                ..*old(self)
            }),
    {
        self.mev_rewards = self.mev_rewards.saturating_add(rewards);
    }
}

} // verus!
