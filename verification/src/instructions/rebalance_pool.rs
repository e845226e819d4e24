//! Rebalancing of the pool's weights by the risk of its tokens.

use vstd::prelude::*;
use crate::error::SwapError;
use crate::host::{Clock, Pubkey};
use crate::state::risk_adjusted_pool::{
    RiskAdjustedPool,
    RiskAdjustedPoolView,
    RiskAdjustment,
    RiskScore,
    TargetWeight,
    TokenWeight,
};

verus! {

/// The records a rebalance works on.
#[derive(Clone, Debug, PartialEq, Eq)]
pub struct RebalancePool {
    /// The pool to rebalance.
    pub pool: RiskAdjustedPool,
    /// Who asked for the rebalance.
    pub authority: Pubkey,
}

/// The mean of the four scores every token carries, rounded down.
pub open spec fn composite_score(score: RiskScore) -> int {
    (score.validator_score + score.security_score + score.decentralization_score
        + score.yield_stability_score) / 4
}

/// The composite score, averaged with the token's further score where it
/// carries one.
pub open spec fn blended_score(score: RiskScore) -> int {
    match score.adjustment {
        RiskAdjustment::NoAdjustment => composite_score(score),
        RiskAdjustment::MevReliability(mev) => (composite_score(score) + mev) / 2,
        RiskAdjustment::ValidatorDiversity(diversity) => (composite_score(score) + diversity) / 2,
    }
}

/// The weight a token gets: its blended score, cut off at the ceiling. The
/// ceiling is given in percent and applies in basis points, and it applies
/// to the score after blending.
pub open spec fn optimal_weight(score: RiskScore, max_weight: u8) -> int {
    if blended_score(score) > max_weight * 100 {
        max_weight * 100
    } else {
        blended_score(score)
    }
}

/// The token list with the weight of each scored token replaced; tokens
/// beyond the scores keep their weight.
pub open spec fn reweighted(weights: Seq<TokenWeight>, new_weights: Seq<u16>) -> Seq<TokenWeight> {
    Seq::new(
        weights.len(),
        |i: int|
            if i < new_weights.len() {
                TokenWeight { weight: new_weights[i], ..weights[i] }
            } else {
                weights[i]
            },
    )
}

/// The weights that the scores give, in the order of the scores.
pub open spec fn optimal_weights(scores: Seq<RiskScore>, max_weight: u8) -> Seq<u16> {
    Seq::new(scores.len(), |i: int| optimal_weight(scores[i], max_weight) as u16)
}

/// Whether a pool last rebalanced at `last_rebalance` may be rebalanced at
/// `now`.
pub open spec fn rebalance_permitted(last_rebalance: int, interval: int, now: int) -> bool {
    now - last_rebalance >= interval
}

/// The outcome of a rebalance at `now`: the pool that results, or the
/// reason the rebalance is refused.
pub open spec fn rebalanced(pool: RiskAdjustedPoolView, now: i64) -> Result<
    RiskAdjustedPoolView,
    SwapError,
> {
    if !rebalance_permitted(
        pool.last_rebalance as int,
        pool.config.rebalance_interval as int,
        now as int,
    ) {
        Err(SwapError::TooEarlyToRebalance)
    } else {
        Ok(
            RiskAdjustedPoolView {
                token_weights: reweighted(
                    pool.token_weights,
                    optimal_weights(pool.risk_scores, pool.config.max_weight),
                ),
                last_rebalance: now,
                ..pool
            },
        )
    }
}

/// No weight exceeds the ceiling, and none exceeds the largest score a
/// token can carry.
pub proof fn lemma_optimal_weight_bounds(score: RiskScore, max_weight: u8)
    ensures
        0 <= optimal_weight(score, max_weight) <= max_weight * 100,
        optimal_weight(score, max_weight) <= 255,
{
}

/// After a rebalance of a pool that scores every token, every weight is
/// within the ceiling.
pub proof fn lemma_rebalanced_within_ceiling(pool: RiskAdjustedPoolView, now: i64)
    requires
        pool.risk_scores.len() == pool.token_weights.len(),
        rebalanced(pool, now) is Ok,
    ensures
        rebalanced(pool, now)->Ok_0.weights_within_ceiling(),
{
    let next = rebalanced(pool, now)->Ok_0;
    assert forall|i: int| 0 <= i < next.token_weights.len() implies (
    #[trigger] next.token_weights[i]).weight <= next.config.max_weight * 100 by {
        lemma_optimal_weight_bounds(pool.risk_scores[i], pool.config.max_weight);
    }
}

/// The weight of each token from its risk scores, in the order of the
/// scores. Neither the current nor the target weights enter.
#[allow(unused_variables)]
pub fn calculate_optimal_weights(
    current_weights: &[TokenWeight],
    risk_scores: &[RiskScore],
    target_weights: &[TargetWeight],
    max_weight: u8,
) -> (r: Result<Vec<u16>, SwapError>)
    ensures
        r is Ok,
        r->Ok_0@ == optimal_weights(risk_scores@, max_weight),
{
    let mut risk_adjusted_weights: Vec<u16> = Vec::new();
    let ceiling: u16 = max_weight as u16 * 100;
    let mut i: usize = 0;
    while i < risk_scores.len()
        invariant
            i <= risk_scores@.len(),
            ceiling == max_weight * 100,
            risk_adjusted_weights@ == optimal_weights(risk_scores@.take(i as int), max_weight),
        decreases risk_scores@.len() - i,
    {
        let score = &risk_scores[i];
        let base_score: u16 = (score.validator_score as u16 + score.security_score as u16
            + score.decentralization_score as u16 + score.yield_stability_score as u16) / 4;

        let adjusted_score: u16 = match score.adjustment {
            RiskAdjustment::MevReliability(mev_score) => (base_score + mev_score as u16) / 2,
            RiskAdjustment::ValidatorDiversity(diversity_score) => (base_score
                + diversity_score as u16) / 2,
            RiskAdjustment::NoAdjustment => base_score,
        };

        let weight: u16 = if adjusted_score > ceiling {
            ceiling
        } else {
            adjusted_score
        };
        risk_adjusted_weights.push(weight);
        assert(risk_adjusted_weights@ =~= optimal_weights(
            risk_scores@.take(i as int + 1),
            max_weight,
        ));
        i += 1;
    }
    assert(risk_scores@.take(i as int) =~= risk_scores@);
    Ok(risk_adjusted_weights)
}

/// Writes the new weights over the weights of the first tokens.
fn assign_weights(token_weights: &mut Vec<TokenWeight>, new_weights: &Vec<u16>)
    requires
        new_weights@.len() <= old(token_weights)@.len(),
    ensures
        final(token_weights)@ == reweighted(old(token_weights)@, new_weights@),
{
    let mut i: usize = 0;
    while i < new_weights.len()
        invariant
            i <= new_weights@.len() <= token_weights@.len(),
            token_weights@.len() == old(token_weights)@.len(),
            token_weights@ == reweighted(old(token_weights)@, new_weights@.take(i as int)),
        decreases new_weights@.len() - i,
    {
        let mut token = token_weights[i];
        token.weight = new_weights[i];
        token_weights.set(i, token);
        assert(token_weights@ =~= reweighted(
            old(token_weights)@,
            new_weights@.take(i as int + 1),
        ));
        i += 1;
    }
    assert(new_weights@.take(i as int) =~= new_weights@);
}

/// Rebalances the pool at the host's time: every scored token gets the
/// weight its scores give, and the time is noted. The rebalance is refused
/// with `TooEarlyToRebalance` before the pool's interval has passed since the
/// last one; a refused rebalance changes nothing.
pub fn handler(ctx: &mut RebalancePool, clock: &Clock) -> (r: Result<(), SwapError>)
    requires
        old(ctx).pool.risk_scores@.len() <= old(ctx).pool.token_weights@.len(),
    ensures
        final(ctx).authority == old(ctx).authority,
        match rebalanced(old(ctx).pool@, clock.unix_timestamp) {
            Ok(next) => r == Ok::<(), SwapError>(()) && final(ctx).pool@ == next,
            Err(e) => r == Err::<(), SwapError>(e) && *final(ctx) == *old(ctx),
        },
        r is Ok && old(ctx).pool.risk_scores@.len() == old(ctx).pool.token_weights@.len()
            ==> final(ctx).pool@.weights_within_ceiling(),
{
    proof {
        if old(ctx).pool.risk_scores@.len() == old(ctx).pool.token_weights@.len() && rebalanced(
            old(ctx).pool@,
            clock.unix_timestamp,
        ) is Ok {
            lemma_rebalanced_within_ceiling(old(ctx).pool@, clock.unix_timestamp);
        }
    }
    if (clock.unix_timestamp as i128) - (ctx.pool.last_rebalance as i128)
        < ctx.pool.config.rebalance_interval as i128 {
        return Err(SwapError::TooEarlyToRebalance);
    }
    let new_weights = calculate_optimal_weights(
        ctx.pool.token_weights.as_slice(),
        ctx.pool.risk_scores.as_slice(),
        ctx.pool.target_weights.as_slice(),
        ctx.pool.config.max_weight,
    )?;

    assign_weights(&mut ctx.pool.token_weights, &new_weights);
    ctx.pool.last_rebalance = clock.unix_timestamp;

    Ok(())
}

} // verus!
