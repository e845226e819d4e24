//! Utilization, risk level and the dynamic swap fee.

use vstd::prelude::*;
use crate::error::ErrorCode;
use crate::state::pool::PoolState;

verus! {

/// Fee at zero utilization, in basis points.
pub const BASE_FEE_RATE: u64 = 30;

/// The lowest fee ever charged, in basis points.
pub const MIN_FEE_RATE: u64 = 10;

/// The highest fee ever charged, in basis points.
pub const MAX_FEE_RATE: u64 = 100;

/// Utilization at which the fee curve bends, in basis points.
pub const OPTIMAL_UTILIZATION: u64 = 8_000;

/// Fee added over the range from zero to optimal utilization.
pub const SLOPE_1: u64 = 20;

/// Fee added over the range from optimal to full utilization.
pub const SLOPE_2: u64 = 100;

/// Borrowed liquidity relative to deposited liquidity, in basis points and
/// rounded down; 0 for a pool without deposits.
pub open spec fn pool_utilization(total_deposits: int, total_borrows: int) -> int {
    if total_deposits == 0 {
        0
    } else {
        total_borrows * 10_000 / total_deposits
    }
}

/// The risk that utilization contributes: rising gently up to the optimum
/// and steeply beyond it.
pub open spec fn utilization_risk(utilization: int) -> int {
    if utilization > 8_000 {
        (utilization - 8_000) * 60 / 2_000
    } else {
        utilization * 40 / 8_000
    }
}

/// The risk that the validators' shortfall from full performance contributes.
pub open spec fn lst_risk(validator_performance: int) -> int {
    (10_000 - validator_performance) * 40 / 10_000
}

/// The risk level: both contributions together, cut off at 10000.
pub open spec fn risk_level(utilization: int, validator_performance: int) -> int {
    let total = utilization_risk(utilization) + lst_risk(validator_performance);
    if total > 10_000 {
        10_000
    } else {
        total
    }
}

/// Whether computing the risk level leaves the 64-bit range at some step.
pub open spec fn risk_level_overflows(utilization: int, validator_performance: int) -> bool {
    ||| utilization > 8_000 && (utilization - 8_000) * 60 > u64::MAX
    ||| validator_performance > 10_000
}

/// The fee before the risk adjustment: two straight lines that meet at the
/// optimal utilization.
pub open spec fn utilization_fee(utilization: int) -> int {
    if utilization <= 8_000 {
        30 + utilization * 20 / 8_000
    } else {
        30 + 20 + (utilization - 8_000) * 100 / 2_000
    }
}

/// The factor, in basis points, by which risk raises the fee: 1.0 without
/// risk, 1.5 at a risk level of 10000.
pub open spec fn fee_risk_multiplier(risk_level: int) -> int {
    10_000 + risk_level * 5_000 / 10_000
}

/// A fee rate cut off at the lowest and the highest fee.
pub open spec fn clamped_fee(fee_rate: int) -> int {
    if fee_rate < 10 {
        10
    } else if fee_rate > 100 {
        100
    } else {
        fee_rate
    }
}

/// The swap fee for a utilization and a risk level.
pub open spec fn dynamic_fee(utilization: int, risk_level: int) -> int {
    clamped_fee(utilization_fee(utilization) * fee_risk_multiplier(risk_level) / 10_000)
}

/// Whether computing the fee leaves the 64-bit range at some step.
pub open spec fn dynamic_fee_overflows(utilization: int, risk_level: int) -> bool {
    ||| utilization > 8_000 && (utilization - 8_000) * 100 > u64::MAX
    ||| utilization_fee(utilization) * fee_risk_multiplier(risk_level) > u64::MAX
}

/// The swap fee lies between the lowest and the highest fee for every
/// utilization and every risk level, and no step of its computation
/// overflows while utilization stays below 2^32.
pub proof fn lemma_dynamic_fee_bounds(utilization: u64, risk_level: u16)
    ensures
        MIN_FEE_RATE <= dynamic_fee(utilization as int, risk_level as int) <= MAX_FEE_RATE,
        utilization <= u32::MAX ==> !dynamic_fee_overflows(utilization as int, risk_level as int),
{
    let fee = utilization_fee(utilization as int);
    let factor = fee_risk_multiplier(risk_level as int);
    assert(10_000 <= factor <= 42_767);
    if utilization <= u32::MAX {
        assert(0 <= fee <= 214_748_415);
        assert(fee * factor <= 214_748_415 * 42_767) by (nonlinear_arith)
            requires
                0 <= fee <= 214_748_415,
                0 <= factor <= 42_767,
        ;
    }
}

/// The swap fee does not fall when utilization or risk rises.
pub proof fn lemma_dynamic_fee_monotonic(
    utilization: u64,
    risk_level: u16,
    higher_utilization: u64,
    higher_risk_level: u16,
)
    requires
        utilization <= higher_utilization,
        risk_level <= higher_risk_level,
    ensures
        dynamic_fee(utilization as int, risk_level as int) <= dynamic_fee(
            higher_utilization as int,
            higher_risk_level as int,
        ),
{
    let fee = utilization_fee(utilization as int);
    let higher_fee = utilization_fee(higher_utilization as int);
    let factor = fee_risk_multiplier(risk_level as int);
    let higher_factor = fee_risk_multiplier(higher_risk_level as int);
    assert(0 <= fee <= higher_fee);
    assert(0 <= factor <= higher_factor);
    assert(fee * factor <= higher_fee * higher_factor) by (nonlinear_arith)
        requires
            0 <= fee <= higher_fee,
            0 <= factor <= higher_factor,
    ;
}

/// Utilization of the pool in basis points. Fails with `MathOverflow`
/// exactly when the quotient does not fit 64 bits.
pub fn calculate_pool_utilization(total_deposits: u64, total_borrows: u64) -> (r: Result<
    u64,
    ErrorCode,
>)
    ensures
        match r {
            Ok(utilization) => utilization == pool_utilization(
                total_deposits as int,
                total_borrows as int,
            ),
            Err(e) => e == ErrorCode::MathOverflow && pool_utilization(
                total_deposits as int,
                total_borrows as int,
            ) > u64::MAX,
        },
        total_borrows <= total_deposits ==> r is Ok && r->Ok_0 <= 10_000,
{
    if total_deposits == 0 {
        return Ok(0);
    }
    let scaled: u128 = total_borrows as u128 * 10_000;
    let utilization: u128 = scaled / (total_deposits as u128);
    proof {
        if total_borrows <= total_deposits {
            assert(scaled / (total_deposits as u128) <= 10_000) by (nonlinear_arith)
                requires
                    scaled <= total_deposits * 10_000,
                    total_deposits > 0,
            ;
        }
    }
    if utilization > u64::MAX as u128 {
        return Err(ErrorCode::MathOverflow);
    }
    Ok(utilization as u64)
}

/// The current risk level of the pool, 0 to 10000, from its utilization and
/// the performance of its validators. Fails with `MathOverflow` exactly when
/// a step of the computation leaves the 64-bit range, which includes a
/// validator performance above 10000.
pub fn assess_current_risk(pool_state: &PoolState, utilization: u64) -> (r: Result<u16, ErrorCode>)
    ensures
        match r {
            Ok(level) => level == risk_level(
                utilization as int,
                pool_state.lst_performance_metrics.validator_performance as int,
            ) && level <= 10_000 && !risk_level_overflows(
                utilization as int,
                pool_state.lst_performance_metrics.validator_performance as int,
            ),
            Err(e) => e == ErrorCode::MathOverflow && risk_level_overflows(
                utilization as int,
                pool_state.lst_performance_metrics.validator_performance as int,
            ),
        },
{
    let utilization_risk: u64 = if utilization > OPTIMAL_UTILIZATION {
        let excess: u64 = (utilization - OPTIMAL_UTILIZATION).checked_mul(60).ok_or(
            ErrorCode::MathOverflow,
        )?;
        assert(excess / 2_000 <= u64::MAX / 2_000);
        excess / (10_000 - OPTIMAL_UTILIZATION)
    } else {
        (utilization * 40) / OPTIMAL_UTILIZATION
    };

    let shortfall: u64 = 10_000u64.checked_sub(
        pool_state.lst_performance_metrics.validator_performance,
    ).ok_or(ErrorCode::MathOverflow)?;
    let lst_risk: u64 = (shortfall * 40) / 10_000;

    let total: u64 = utilization_risk + lst_risk;
    let total_risk: u16 = if total > 10_000 {
        10_000
    } else {
        total as u16
    };

    Ok(total_risk)
}

/// The swap fee, in basis points, for a utilization and a risk level. Fails
/// with `MathOverflow` exactly when a step of the computation leaves the
/// 64-bit range; otherwise the fee lies between `MIN_FEE_RATE` and
/// `MAX_FEE_RATE`. The curve starts from `BASE_FEE_RATE`; the pool's own base
/// fee does not enter.
#[allow(unused_variables)]
pub fn calculate_dynamic_fee(utilization: u64, risk_level: u16, base_fee: u64) -> (r: Result<
    u64,
    ErrorCode,
>)
    ensures
        match r {
            Ok(fee) => fee == dynamic_fee(utilization as int, risk_level as int) && MIN_FEE_RATE
                <= fee <= MAX_FEE_RATE && !dynamic_fee_overflows(
                utilization as int,
                risk_level as int,
            ),
            Err(e) => e == ErrorCode::MathOverflow && dynamic_fee_overflows(
                utilization as int,
                risk_level as int,
            ),
        },
        utilization <= u32::MAX ==> r is Ok,
{
    proof {
        lemma_dynamic_fee_bounds(utilization, risk_level);
    }
    let util_multiplier: u64 = if utilization <= OPTIMAL_UTILIZATION {
        BASE_FEE_RATE + (utilization * SLOPE_1) / OPTIMAL_UTILIZATION
    } else {
        let excess_util: u64 = utilization - OPTIMAL_UTILIZATION;
        BASE_FEE_RATE + SLOPE_1 + excess_util.checked_mul(SLOPE_2).ok_or(
            ErrorCode::MathOverflow,
        )? / (10_000 - OPTIMAL_UTILIZATION)
    };

    let risk_multiplier: u64 = 10_000 + (risk_level as u64 * 5_000) / 10_000;
    let fee_rate: u64 = util_multiplier.checked_mul(risk_multiplier).ok_or(
        ErrorCode::MathOverflow,
    )? / 10_000;

    if fee_rate < MIN_FEE_RATE {
        Ok(MIN_FEE_RATE)
    } else if fee_rate > MAX_FEE_RATE {
        Ok(MAX_FEE_RATE)
    } else {
        Ok(fee_rate)
    }
}

} // verus!
