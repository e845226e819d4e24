//! Refreshing the swap fee and the insurance allocation from the pool's
//! current state.

use vstd::prelude::*;
use crate::error::ErrorCode;
use crate::host::Clock;
use crate::state::insurance_fund::{allocation_for, InsuranceFund};
use crate::state::liquidity_protection::{
    assess_current_risk,
    calculate_dynamic_fee,
    calculate_pool_utilization,
    dynamic_fee,
    dynamic_fee_overflows,
    pool_utilization,
    risk_level,
    risk_level_overflows,
    MAX_FEE_RATE,
    MIN_FEE_RATE,
};
use crate::state::pool::PoolState;

verus! {

/// The records a refresh of the protection parameters works on.
#[derive(Clone, Copy, Debug, PartialEq, Eq)]
pub struct LiquidityProtection {
    pub pool_state: PoolState,
    pub insurance_fund: InsuranceFund,
    pub clock: Clock,
}

/// The utilization of a pool, as far as it fits 64 bits.
pub open spec fn utilization_of(pool: PoolState) -> int {
    pool_utilization(pool.total_deposits as int, pool.total_borrows as int)
}

/// The risk level of a pool at its current utilization.
pub open spec fn risk_level_of(pool: PoolState) -> int {
    risk_level(utilization_of(pool), pool.lst_performance_metrics.validator_performance as int)
}

/// Whether deriving fee and allocation from the pool leaves the 64-bit
/// range at some step.
pub open spec fn protection_overflows(pool: PoolState) -> bool {
    ||| utilization_of(pool) > u64::MAX
    ||| risk_level_overflows(
        utilization_of(pool),
        pool.lst_performance_metrics.validator_performance as int,
    )
    ||| dynamic_fee_overflows(utilization_of(pool), risk_level_of(pool))
}

impl LiquidityProtection {
    /// Derives the swap fee and the insurance allocation from the pool's
    /// utilization and risk, and notes the time in the fund. Fails with
    /// `MathOverflow` exactly when a step of the computation leaves the
    /// 64-bit range; a failed refresh changes nothing.
    pub fn update_liquidity_parameters(&mut self) -> (r: Result<(), ErrorCode>)
        ensures
            final(self).clock == old(self).clock,
            protection_overflows(old(self).pool_state) ==> r == Err::<(), ErrorCode>(
                ErrorCode::MathOverflow,
            ) && *final(self) == *old(self),
            !protection_overflows(old(self).pool_state) ==> {
                &&& r == Ok::<(), ErrorCode>(())
                &&& final(self).pool_state.fee_rate == dynamic_fee(
                    utilization_of(old(self).pool_state),
                    risk_level_of(old(self).pool_state),
                )
                &&& MIN_FEE_RATE <= final(self).pool_state.fee_rate <= MAX_FEE_RATE
                &&& final(self).pool_state == (PoolState {
                    fee_rate: final(self).pool_state.fee_rate,
                    ..old(self).pool_state
                })
                &&& final(self).insurance_fund.current_risk_level == risk_level_of(
                    old(self).pool_state,
                )
                &&& final(self).insurance_fund.target_allocation == allocation_for(
                    old(self).insurance_fund.minimum_allocation as int,
                    old(self).insurance_fund.maximum_allocation as int,
                    risk_level_of(old(self).pool_state),
                )
                &&& final(self).insurance_fund == (InsuranceFund {
                    target_allocation: final(self).insurance_fund.target_allocation,
                    current_risk_level: final(self).insurance_fund.current_risk_level,
                    last_rebalance: old(self).clock.unix_timestamp,
                    ..old(self).insurance_fund
                })
            },
    {
        let utilization = calculate_pool_utilization(
            self.pool_state.total_deposits,
            self.pool_state.total_borrows,
        )?;

        let risk_level = assess_current_risk(&self.pool_state, utilization)?;

        let fee_rate = calculate_dynamic_fee(utilization, risk_level, self.pool_state.base_fee)?;
        self.pool_state.fee_rate = fee_rate;

        self.insurance_fund.update_allocation(risk_level)?;

        self.insurance_fund.last_rebalance = self.clock.unix_timestamp;

        Ok(())
    }
}

} // verus!
