//! Risk adjustment of swap amounts.

use vstd::prelude::*;
use crate::error::ErrorCode;
use crate::state::lst_state::LSTMetrics;
use crate::state::pool::PoolState;

verus! {

/// A multiplier of 1.0, in basis points.
pub const BASE_RISK_MULTIPLIER: u64 = 10_000;

/// The smallest multiplier, 0.5, in basis points.
pub const MIN_RISK_MULTIPLIER: u64 = 5_000;

/// The largest multiplier, 1.5, in basis points.
pub const MAX_RISK_MULTIPLIER: u64 = 15_000;

/// Share of the validator performance in the score, in basis points.
pub const VALIDATOR_PERFORMANCE_WEIGHT: u64 = 4_000;

/// Share of the reserve ratio in the score, in basis points.
pub const RESERVE_RATIO_WEIGHT: u64 = 4_000;

/// Share of the decentralization score in the score, in basis points.
pub const DECENTRALIZATION_WEIGHT: u64 = 2_000;

/// A metric cut off at 10000 basis points.
pub open spec fn normalized(metric: int) -> int {
    if metric > 10_000 {
        10_000
    } else {
        metric
    }
}

/// The weighted score of the three normalized metrics, 0 to 10000.
pub open spec fn base_score(performance: int, reserves: int, decentralization: int) -> int {
    normalized(performance) * 4_000 / 10_000 + normalized(reserves) * 4_000 / 10_000 + normalized(
        decentralization,
    ) * 2_000 / 10_000
}

/// The multiplier for the three metrics: the score mapped linearly onto the
/// range from the smallest to the largest multiplier.
pub open spec fn risk_multiplier(performance: int, reserves: int, decentralization: int) -> int {
    5_000 + base_score(performance, reserves, decentralization) * (15_000 - 5_000) / 10_000
}

/// An amount scaled by a multiplier in basis points, rounded down.
pub open spec fn scaled_amount(amount: int, multiplier: int) -> int {
    amount * multiplier / 10_000
}

/// What a swap pays out once the pool's metrics are taken into account: the
/// base curve's failure as it is, `MathOverflow` when scaling the base amount
/// leaves 64 bits, and otherwise the base amount scaled by the risk multiplier.
pub open spec fn risk_adjusted_output(base: Result<u64, ErrorCode>, metrics: LSTMetrics) -> Result<
    int,
    ErrorCode,
> {
    match base {
        Err(e) => Err(e),
        Ok(amount) => {
            let multiplier = risk_multiplier(
                metrics.validator_performance as int,
                metrics.reserve_ratio as int,
                metrics.decentralization_score as int,
            );
            if amount * multiplier > u64::MAX {
                Err(ErrorCode::MathOverflow)
            } else {
                Ok(scaled_amount(amount as int, multiplier))
            }
        },
    }
}

/// Whether a result holds the expected value or the expected failure.
pub open spec fn agrees(r: Result<u64, ErrorCode>, expected: Result<int, ErrorCode>) -> bool {
    match (r, expected) {
        (Ok(value), Ok(wanted)) => value == wanted,
        (Err(e), Err(wanted)) => e == wanted,
        _ => false,
    }
}

/// The risk multiplier never leaves the range from `MIN_RISK_MULTIPLIER` to
/// `MAX_RISK_MULTIPLIER`, whatever the metrics.
pub proof fn lemma_risk_multiplier_bounds(performance: u64, reserves: u64, decentralization: u64)
    ensures
        MIN_RISK_MULTIPLIER <= risk_multiplier(
            performance as int,
            reserves as int,
            decentralization as int,
        ) <= MAX_RISK_MULTIPLIER,
{
}

/// The risk multiplier does not fall when a metric rises.
pub proof fn lemma_risk_multiplier_monotonic(
    performance: u64,
    reserves: u64,
    decentralization: u64,
    higher_performance: u64,
    higher_reserves: u64,
    higher_decentralization: u64,
)
    requires
        performance <= higher_performance,
        reserves <= higher_reserves,
        decentralization <= higher_decentralization,
    ensures
        risk_multiplier(performance as int, reserves as int, decentralization as int)
            <= risk_multiplier(
            higher_performance as int,
            higher_reserves as int,
            higher_decentralization as int,
        ),
{
}

/// Cuts a metric off at 10000 basis points.
pub fn normalize_metric(metric: u64) -> (r: Result<u64, ErrorCode>)
    ensures
        r matches Ok(value) && value == normalized(metric as int),
{
    if metric > 10_000 {
        return Ok(10_000);
    }
    Ok(metric)
}

/// The multiplier, in basis points, by which a swap amount is scaled for the
/// given validator performance, reserve ratio and decentralization score.
pub fn calculate_risk_multiplier(
    validator_performance: u64,
    reserve_ratio: u64,
    decentralization_score: u64,
) -> (r: Result<u64, ErrorCode>)
    ensures
        r matches Ok(multiplier) && multiplier == risk_multiplier(
            validator_performance as int,
            reserve_ratio as int,
            decentralization_score as int,
        ) && MIN_RISK_MULTIPLIER <= multiplier <= MAX_RISK_MULTIPLIER,
{
    let normalized_performance = normalize_metric(validator_performance)?;
    let normalized_reserves = normalize_metric(reserve_ratio)?;
    let normalized_decentralization = normalize_metric(decentralization_score)?;

    let performance_component = normalized_performance.checked_mul(
        VALIDATOR_PERFORMANCE_WEIGHT,
    ).ok_or(ErrorCode::MathOverflow)?.checked_div(10_000).ok_or(ErrorCode::MathOverflow)?;

    let reserve_component = normalized_reserves.checked_mul(RESERVE_RATIO_WEIGHT).ok_or(
        ErrorCode::MathOverflow,
    )?.checked_div(10_000).ok_or(ErrorCode::MathOverflow)?;

    let decentralization_component = normalized_decentralization.checked_mul(
        DECENTRALIZATION_WEIGHT,
    ).ok_or(ErrorCode::MathOverflow)?.checked_div(10_000).ok_or(ErrorCode::MathOverflow)?;

    let score = performance_component.checked_add(reserve_component).ok_or(
        ErrorCode::MathOverflow,
    )?.checked_add(decentralization_component).ok_or(ErrorCode::MathOverflow)?;

    let multiplier_range = MAX_RISK_MULTIPLIER.checked_sub(MIN_RISK_MULTIPLIER).ok_or(
        ErrorCode::MathOverflow,
    )?;

    assert(score <= 10_000 && multiplier_range == 10_000);
    assert(score * multiplier_range <= 100_000_000) by (nonlinear_arith)
        requires
            score <= 10_000,
            multiplier_range == 10_000,
    ;
    let risk_multiplier = MIN_RISK_MULTIPLIER.checked_add(
        score.checked_mul(multiplier_range).ok_or(ErrorCode::MathOverflow)?.checked_div(
            10_000,
        ).ok_or(ErrorCode::MathOverflow)?,
    ).ok_or(ErrorCode::MathOverflow)?;

    Ok(risk_multiplier)
}

/// Scales an amount by a multiplier in basis points, rounding down. Fails
/// with `MathOverflow` exactly when the product leaves 64 bits.
pub fn apply_risk_multiplier(amount: u64, multiplier: u64) -> (r: Result<u64, ErrorCode>)
    ensures
        match r {
            Ok(scaled) => scaled == scaled_amount(amount as int, multiplier as int) && amount
                * multiplier <= u64::MAX,
            Err(e) => e == ErrorCode::MathOverflow && amount * multiplier > u64::MAX,
        },
{
    amount.checked_mul(multiplier).ok_or(ErrorCode::MathOverflow)?.checked_div(
        BASE_RISK_MULTIPLIER,
    ).ok_or(ErrorCode::MathOverflow)
}

/// Scales the amount a base curve pays out by the pool's risk multiplier.
pub fn adjust_for_risk(base_amount: u64, pool_state: &PoolState) -> (r: Result<u64, ErrorCode>)
    ensures
        agrees(r, risk_adjusted_output(Ok(base_amount), pool_state.lst_performance_metrics)),
{
    let risk_multiplier = calculate_risk_multiplier(
        pool_state.lst_performance_metrics.validator_performance,
        pool_state.lst_performance_metrics.reserve_ratio,
        pool_state.lst_performance_metrics.decentralization_score,
    )?;
    apply_risk_multiplier(base_amount, risk_multiplier)
}

/// The output of a swap of `amount_in`: the base curve is asked once for its
/// output, and whatever it answers is adjusted for the pool's risk.
pub fn calculate_swap_with_risk_adjustment(
    amount_in: u64,
    pool_state: &PoolState,
    base_curve_calculator: impl Fn(u64) -> Result<u64, ErrorCode>,
) -> (r: Result<u64, ErrorCode>)
    requires
        call_requires(base_curve_calculator, (amount_in,)),
    ensures
        exists|base: Result<u64, ErrorCode>|
            call_ensures(base_curve_calculator, (amount_in,), base) && agrees(
                r,
                risk_adjusted_output(base, pool_state.lst_performance_metrics),
            ),
{
    let base = base_curve_calculator(amount_in);
    let adjusted = match base {
        Err(e) => Err(e),
        Ok(base_amount) => adjust_for_risk(base_amount, pool_state),
    };
    assert(call_ensures(base_curve_calculator, (amount_in,), base) && agrees(
        adjusted,
        risk_adjusted_output(base, pool_state.lst_performance_metrics),
    ));
    adjusted
}

} // verus!
