//! Taking a validator's daily metrics into its record and into the pool.

use vstd::prelude::*;
use crate::error::ErrorCode;
use crate::host::{Clock, Pubkey};
use crate::state::lst_state::LSTMetrics;
use crate::state::pool::PoolState;
use crate::state::validator::{ValidatorState, ValidatorStateView};

verus! {

/// The records an update of validator metrics works on.
#[derive(Clone, Copy, Debug, PartialEq, Eq)]
pub struct UpdateValidatorMetrics {
    /// The validator to update.
    pub validator_state: ValidatorState,
    /// The pool the validator contributes to.
    pub pool_state: PoolState,
    /// Who asked for the update.
    pub authority: Pubkey,
    pub clock: Clock,
}

/// The pool after a validator's new record has been taken in: the pool's
/// validator performance is the validator's risk score, and its MEV rewards
/// are the validator's.
pub open spec fn pool_with_validator(pool: PoolState, validator: ValidatorStateView) -> PoolState {
    PoolState {
        lst_performance_metrics: LSTMetrics {
            validator_performance: validator.score() as u64,
            mev_rewards: validator.mev_rewards,
            ..pool.lst_performance_metrics
        },
        ..pool
    }
}

/// The outcome of an update asked for by `authority`: the validator record
/// that results, or the reason the update is refused.
pub open spec fn processed(
    validator: ValidatorStateView,
    authority: Pubkey,
    performance: u64,
    mev_reward: u64,
    now: i64,
) -> Result<ValidatorStateView, ErrorCode> {
    if validator.authority != authority {
        Err(ErrorCode::InvalidAuthority)
    } else {
        validator.updated(performance, mev_reward, now)
    }
}

impl UpdateValidatorMetrics {
    /// Records the validator's performance and MEV reward at the host's time
    /// and carries the new risk score into the pool. The update is refused
    /// with `InvalidAuthority` unless the validator's own authority asks for
    /// it, and otherwise as the validator's record refuses it; a refused
    /// update changes nothing.
    pub fn process_update(&mut self, new_performance: u64, new_mev_reward: u64) -> (r: Result<
        (),
        ErrorCode,
    >)
        requires
            old(self).validator_state.wf(),
        ensures
            final(self).validator_state.wf(),
            final(self).authority == old(self).authority,
            final(self).clock == old(self).clock,
            match processed(
                old(self).validator_state@,
                old(self).authority,
                new_performance,
                new_mev_reward,
                old(self).clock.unix_timestamp,
            ) {
                Ok(next) => {
                    &&& r == Ok::<(), ErrorCode>(())
                    &&& final(self).validator_state@ == next
                    &&& final(self).pool_state == pool_with_validator(old(self).pool_state, next)
                    &&& final(self).pool_state.lst_performance_metrics.validator_performance
                        == next.score()
                },
                Err(e) => r == Err::<(), ErrorCode>(e) && *final(self) == *old(self),
            },
    {
        if !self.validator_state.authority.same_as(&self.authority) {
            return Err(ErrorCode::InvalidAuthority);
        }
        let new_risk_score = self.validator_state.update_metrics(
            new_performance,
            new_mev_reward,
            self.clock.unix_timestamp,
        )?;

        self.update_pool_metrics(new_risk_score)?;

        Ok(())
    }

    /// Carries a validator's risk score and MEV rewards into the pool.
    fn update_pool_metrics(&mut self, new_risk_score: u64) -> (r: Result<(), ErrorCode>)
        ensures
            r == Ok::<(), ErrorCode>(()),
            *final(self) == (UpdateValidatorMetrics {
                pool_state: PoolState {
                    lst_performance_metrics: LSTMetrics {
                        validator_performance: new_risk_score,
                        mev_rewards: old(self).validator_state.mev_rewards,
                        ..old(self).pool_state.lst_performance_metrics
                    },
                    ..old(self).pool_state
                },
                ..*old(self)
            }),
    {
        self.pool_state.lst_performance_metrics.validator_performance =
            self.calculate_weighted_validator_performance(new_risk_score)?;

        self.pool_state.lst_performance_metrics.mev_rewards = self.validator_state.mev_rewards;

        Ok(())
    }

    /// The pool's validator performance for a risk score. The pool follows a
    /// single validator, whose score counts in full.
    fn calculate_weighted_validator_performance(&self, risk_score: u64) -> (r: Result<
        u64,
        ErrorCode,
    >)
        ensures
            r == Ok::<u64, ErrorCode>(risk_score),
    {
        Ok(risk_score)
    }
}

} // verus!
