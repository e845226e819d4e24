//! Reserves of the JitoSOL variant and the MEV earnings of its validators.

use vstd::prelude::*;
use crate::host::Pubkey;

verus! {

/// Reserves held for JitoSOL.
#[derive(Clone, Debug, PartialEq, Eq)]
pub struct JitoReserves {
    pub base_staking_reserves: u64,
    pub mev_rewards_reserves: u64,
    pub last_mev_distribution: i64,
    /// The tracked validators.
    pub validator_performance: Vec<JitoValidatorMetrics>,
}

/// MEV earnings and performance of one tracked validator.
#[derive(Clone, Copy, Debug, PartialEq, Eq)]
pub struct JitoValidatorMetrics {
    pub validator_identity: Pubkey,
    /// MEV the validator earns per day.
    pub mev_earned: u64,
    pub performance_score: u8,
}

/// The JitoSOL reserves with the tracked validators as a sequence.
pub struct JitoReservesView {
    pub base_staking_reserves: u64,
    pub mev_rewards_reserves: u64,
    pub last_mev_distribution: i64,
    pub validator_performance: Seq<JitoValidatorMetrics>,
}

impl View for JitoReserves {
    type V = JitoReservesView;

    open spec fn view(&self) -> JitoReservesView {
        JitoReservesView {
            base_staking_reserves: self.base_staking_reserves,
            mev_rewards_reserves: self.mev_rewards_reserves,
            last_mev_distribution: self.last_mev_distribution,
            validator_performance: self.validator_performance@,
        }
    }
}

} // verus!
