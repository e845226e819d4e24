//! The pool's own state record.

use vstd::prelude::*;
use crate::host::Clock;
use crate::state::lst_state::LSTMetrics;

verus! {

/// State of a liquid-staking pool.
#[derive(Clone, Copy, Debug, PartialEq, Eq)]
pub struct PoolState {
    pub is_initialized: bool,
    pub bump: u8,
    /// Aggregate risk score of the token, 0 to 10000.
    pub lst_risk_score: u64,
    pub lst_performance_metrics: LSTMetrics,
    pub volume_24h: u64,
    pub last_update_ts: i64,
    /// Liquidity deposited into the pool.
    pub total_deposits: u64,
    /// Liquidity currently borrowed from the pool.
    pub total_borrows: u64,
    /// Swap fee in force, in basis points.
    pub fee_rate: u64,
    /// Configured base fee, in basis points.
    pub base_fee: u64,
}

impl PoolState {
    /// Bytes the record occupies in storage, header included.
    pub const LEN: usize = 8 + 1 + 1 + 8 + 32 + 8 + 8 + 8 + 8 + 8 + 8;

    /// An initialized pool with zeroed metrics.
    pub fn new(bump: u8) -> (pool: PoolState)
        ensures
            pool == (PoolState {
                is_initialized: true,
                bump,
                lst_risk_score: 0,
                lst_performance_metrics: LSTMetrics {
                    mev_rewards: 0,
                    validator_performance: 0,
                    decentralization_score: 0,
                    reserve_ratio: 0,
                },
                volume_24h: 0,
                last_update_ts: 0,
                total_deposits: 0,
                total_borrows: 0,
                fee_rate: 0,
                base_fee: 0,
            }),
    {
        PoolState {
            is_initialized: true,
            bump,
            lst_risk_score: 0,
            lst_performance_metrics: LSTMetrics::default(),
            volume_24h: 0,
            last_update_ts: 0,
            total_deposits: 0,
            total_borrows: 0,
            fee_rate: 0,
            base_fee: 0,
        }
    }

    /// Stamps the pool with the time of the latest metrics update.
    pub fn update_metrics(&mut self, clock: &Clock)
        ensures
            *final(self) == (PoolState { last_update_ts: clock.unix_timestamp, ..*old(self) }),
    {
        self.last_update_ts = clock.unix_timestamp;
    }
}

} // verus!
