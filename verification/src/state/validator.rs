//! Per-validator performance tracking and risk scoring.

use vstd::prelude::*;
use crate::error::ErrorCode;
use crate::host::Pubkey;

verus! {

/// Number of daily samples a validator's performance window holds.
pub const PERFORMANCE_WINDOW: usize = 30;

/// Seconds that must pass between two updates of one validator.
pub const UPDATE_INTERVAL: i64 = 86_400;

/// Performance and stake of one validator.
#[derive(Clone, Copy, Debug, PartialEq, Eq)]
pub struct ValidatorState {
    /// The validator's identity.
    pub validator_address: Pubkey,
    /// The last 30 daily performance samples, in basis points. A slot that
    /// holds 0 has not been written.
    pub performance_history: [u64; 30],
    /// The slot the next sample goes to.
    pub current_index: u8,
    /// MEV rewards earned by the validator, accumulated.
    pub mev_rewards: u64,
    /// Tokens staked with the validator.
    pub total_stake: u64,
    /// Average yearly return over the window, in basis points.
    pub average_apr: u64,
    /// Blocks missed in the current epoch.
    pub missed_blocks: u64,
    /// Time of the last update, 0 before the first.
    pub last_update: i64,
    /// Commission, in basis points.
    pub commission: u16,
    /// Who may update the validator's metrics.
    pub authority: Pubkey,
    pub bump: u8,
}

/// A validator record with its window as a sequence.
pub struct ValidatorStateView {
    pub validator_address: Pubkey,
    pub performance_history: Seq<u64>,
    pub current_index: u8,
    pub mev_rewards: u64,
    pub total_stake: u64,
    pub average_apr: u64,
    pub missed_blocks: u64,
    pub last_update: i64,
    pub commission: u16,
    pub authority: Pubkey,
    pub bump: u8,
}

impl View for ValidatorState {
    type V = ValidatorStateView;

    open spec fn view(&self) -> ValidatorStateView {
        ValidatorStateView {
            validator_address: self.validator_address,
            performance_history: self.performance_history@,
            current_index: self.current_index,
            mev_rewards: self.mev_rewards,
            total_stake: self.total_stake,
            average_apr: self.average_apr,
            missed_blocks: self.missed_blocks,
            last_update: self.last_update,
            commission: self.commission,
            authority: self.authority,
            bump: self.bump,
        }
    }
}

/// The sum of all samples.
pub open spec fn sample_sum(samples: Seq<u64>) -> int
    decreases samples.len(),
{
    if samples.len() == 0 {
        0
    } else {
        sample_sum(samples.drop_last()) + samples.last()
    }
}

/// The number of written samples, those above zero.
pub open spec fn written_count(samples: Seq<u64>) -> int
    decreases samples.len(),
{
    if samples.len() == 0 {
        0
    } else {
        written_count(samples.drop_last()) + if samples.last() > 0 {
            1int
        } else {
            0int
        }
    }
}

/// The mean of the written samples, rounded down; 0 when none is written.
pub open spec fn average_performance(samples: Seq<u64>) -> int {
    if written_count(samples) == 0 {
        0
    } else {
        sample_sum(samples) / written_count(samples)
    }
}

/// The sum of the three weighted parts of the risk score, before scaling:
/// 60% performance, 20% for what the commission leaves, 20% for any MEV
/// reward earned.
pub open spec fn weighted_score(average: int, commission: int, mev_rewards: int) -> int {
    average * 6_000 + (10_000 - commission) * 2_000 + if mev_rewards > 0 {
        2_000int
    } else {
        0int
    }
}

/// The risk score of a validator.
pub open spec fn risk_score(average: int, commission: int, mev_rewards: int) -> int {
    weighted_score(average, commission, mev_rewards) / 10_000
}

/// Whether computing the risk score leaves the 64-bit range at some step,
/// which includes a commission above 10000.
pub open spec fn risk_score_overflows(average: int, commission: int, mev_rewards: int) -> bool {
    commission > 10_000 || weighted_score(average, commission, mev_rewards) > u64::MAX
}

/// Whether a validator last updated at `last_update` may be updated at `now`:
/// always before its first update, and otherwise a day later at the earliest.
pub open spec fn update_permitted(last_update: int, now: int) -> bool {
    last_update == 0 || now - last_update >= 86_400
}

impl ValidatorStateView {
    /// The risk score of the record as it stands.
    pub open spec fn score(self) -> int {
        risk_score(
            average_performance(self.performance_history),
            self.commission as int,
            self.mev_rewards as int,
        )
    }

    /// Whether computing the record's risk score overflows.
    pub open spec fn score_overflows(self) -> bool {
        risk_score_overflows(
            average_performance(self.performance_history),
            self.commission as int,
            self.mev_rewards as int,
        )
    }

    /// The record with one more sample written at the cursor, the cursor
    /// advanced around the window, the reward added and the time noted.
    pub open spec fn with_sample(self, performance: u64, mev_reward: u64, now: i64) -> Self {
        ValidatorStateView {
            performance_history: self.performance_history.update(
                self.current_index as int,
                performance,
            ),
            current_index: ((self.current_index + 1) % 30) as u8,
            mev_rewards: (self.mev_rewards + mev_reward) as u64,
            last_update: now,
            ..self
        }
    }

    /// The outcome of an update: the record that results, or the reason the
    /// update is refused.
    pub open spec fn updated(self, performance: u64, mev_reward: u64, now: i64) -> Result<
        Self,
        ErrorCode,
    > {
        if !update_permitted(self.last_update as int, now as int) {
            Err(ErrorCode::TooFrequentUpdate)
        } else if self.mev_rewards + mev_reward > u64::MAX {
            Err(ErrorCode::MathOverflow)
        } else if self.with_sample(performance, mev_reward, now).score_overflows() {
            Err(ErrorCode::MathOverflow)
        } else {
            Ok(self.with_sample(performance, mev_reward, now))
        }
    }
}

/// The sums over a window extended by one sample.
pub proof fn lemma_sums_push(samples: Seq<u64>, sample: u64)
    ensures
        sample_sum(samples.push(sample)) == sample_sum(samples) + sample,
        written_count(samples.push(sample)) == written_count(samples) + if sample > 0 {
            1int
        } else {
            0int
        },
{
    assert(samples.push(sample).drop_last() =~= samples);
}

/// The written samples are at most as many as the slots, and their sum is at
/// most as many times any bound on the samples.
pub proof fn lemma_sums_bounded(samples: Seq<u64>, bound: int)
    requires
        forall|i: int| 0 <= i < samples.len() ==> samples[i] <= bound,
        0 <= bound,
    ensures
        0 <= written_count(samples) <= samples.len(),
        0 <= sample_sum(samples) <= written_count(samples) * bound,
    decreases samples.len(),
{
    if samples.len() > 0 {
        lemma_sums_bounded(samples.drop_last(), bound);
        let rest = written_count(samples.drop_last());
        assert((rest + 1) * bound == rest * bound + bound) by (nonlinear_arith);
    }
}

/// The average of a window never exceeds a bound that holds of every sample.
pub proof fn lemma_average_bounded(samples: Seq<u64>, bound: int)
    requires
        forall|i: int| 0 <= i < samples.len() ==> samples[i] <= bound,
        0 <= bound,
    ensures
        0 <= average_performance(samples) <= bound,
{
    lemma_sums_bounded(samples, bound);
    let count = written_count(samples);
    let sum = sample_sum(samples);
    if count > 0 {
        assert(0 <= sum / count <= bound) by (nonlinear_arith)
            requires
                0 <= sum <= count * bound,
                count > 0,
        ;
    }
}

/// A window whose samples are basis points, with a commission in basis
/// points, gives a risk score between 0 and 10000, computed without overflow.
pub proof fn lemma_risk_score_range(samples: Seq<u64>, commission: u16, mev_rewards: u64)
    requires
        forall|i: int| 0 <= i < samples.len() ==> samples[i] <= 10_000,
        commission <= 10_000,
    ensures
        !risk_score_overflows(
            average_performance(samples),
            commission as int,
            mev_rewards as int,
        ),
        0 <= risk_score(average_performance(samples), commission as int, mev_rewards as int)
            <= 10_000,
{
    lemma_average_bounded(samples, 10_000);
}

/// The written samples of a window, in their order.
pub open spec fn written_samples(samples: Seq<u64>) -> Seq<u64> {
    samples.filter(|sample: u64| sample > 0)
}

/// Unwritten slots do not count: the written samples are as many as the
/// count says, they add up to the sum of the window, and the average of the
/// window is the mean of the written samples alone.
pub proof fn lemma_average_ignores_unwritten(samples: Seq<u64>)
    ensures
        written_samples(samples).len() == written_count(samples),
        sample_sum(written_samples(samples)) == sample_sum(samples),
        written_count(written_samples(samples)) == written_count(samples),
        average_performance(written_samples(samples)) == average_performance(samples),
        average_performance(samples) == if written_samples(samples).len() == 0 {
            0
        } else {
            sample_sum(written_samples(samples)) / (written_samples(samples).len() as int)
        },
    decreases samples.len(),
{
    reveal(Seq::filter);
    if samples.len() > 0 {
        lemma_average_ignores_unwritten(samples.drop_last());
        if samples.last() > 0 {
            lemma_sums_push(written_samples(samples.drop_last()), samples.last());
        }
    }
}

impl ValidatorState {
    /// Bytes the record occupies in storage, header included.
    pub const LEN: usize = 8 + 32 + 240 + 1 + 8 + 8 + 8 + 8 + 8 + 2 + 32 + 1;

    /// Whether the cursor points into the window.
    pub open spec fn wf(&self) -> bool {
        self.current_index < 30
    }

    /// A validator without history. A commission above 10000 basis points is
    /// rejected with `InvalidValidatorState`.
    pub fn new(validator_address: Pubkey, authority: Pubkey, commission: u16, bump: u8) -> (r:
        Result<ValidatorState, ErrorCode>)
        ensures
            commission > 10_000 ==> r == Err::<ValidatorState, ErrorCode>(
                ErrorCode::InvalidValidatorState,
            ),
            commission <= 10_000 ==> r is Ok && r->Ok_0.wf() && r->Ok_0@ == (ValidatorStateView {
                validator_address,
                performance_history: Seq::new(30, |i: int| 0u64),
                current_index: 0,
                mev_rewards: 0,
                total_stake: 0,
                average_apr: 0,
                missed_blocks: 0,
                last_update: 0,
                commission,
                authority,
                bump,
            }),
    {
        if commission > 10_000 {
            return Err(ErrorCode::InvalidValidatorState);
        }
        let state = ValidatorState {
            validator_address,
            performance_history: [0u64;30],
            current_index: 0,
            mev_rewards: 0,
            total_stake: 0,
            average_apr: 0,
            missed_blocks: 0,
            last_update: 0,
            commission,
            authority,
            bump,
        };
        assert(state.performance_history@ =~= Seq::new(30, |i: int| 0u64));
        Ok(state)
    }

    /// The mean of the written samples of the window, rounded down; 0 when
    /// no sample is written.
    pub fn calculate_average_performance(&self) -> (average: u64)
        ensures
            average == average_performance(self.performance_history@),
    {
        let mut sum: u128 = 0;
        let mut count: u64 = 0;
        let mut i: usize = 0;
        while i < 30
            invariant
                i <= 30,
                sum == sample_sum(self.performance_history@.take(i as int)),
                count == written_count(self.performance_history@.take(i as int)),
                count <= i,
                sum <= count * u64::MAX,
            decreases 30 - i,
        {
            let score = self.performance_history[i];
            proof {
                let window = self.performance_history@;
                assert(window.take(i + 1) =~= window.take(i as int).push(score));
                lemma_sums_push(window.take(i as int), score);
            }
            if score > 0 {
                sum = sum + score as u128;
                count = count + 1;
            }
            i += 1;
        }
        assert(self.performance_history@.take(30) =~= self.performance_history@);
        if count == 0 {
            return 0;
        }
        let average: u128 = sum / (count as u128);
        assert(average <= u64::MAX) by (nonlinear_arith)
            requires
                average == sum / (count as u128),
                sum <= count * u64::MAX,
                count > 0,
        ;
        average as u64
    }

    /// The validator's risk score. Fails with `MathOverflow` exactly when a
    /// step of the computation leaves the 64-bit range.
    pub fn calculate_risk_score(&self) -> (r: Result<u64, ErrorCode>)
        ensures
            match r {
                Ok(score) => score == self@.score() && !self@.score_overflows(),
                Err(e) => e == ErrorCode::MathOverflow && self@.score_overflows(),
            },
    {
        let avg_performance = self.calculate_average_performance();

        let performance_score = avg_performance.checked_mul(6000).ok_or(ErrorCode::MathOverflow)?;

        let commission_score = (10000u64.checked_sub(self.commission as u64).ok_or(
            ErrorCode::MathOverflow,
        )?).checked_mul(2000).ok_or(ErrorCode::MathOverflow)?;

        let mev_score = if self.mev_rewards > 0 {
            2000u64
        } else {
            0u64
        };

        let total_score = performance_score.checked_add(commission_score).ok_or(
            ErrorCode::MathOverflow,
        )?.checked_add(mev_score).ok_or(ErrorCode::MathOverflow)?;

        Ok(total_score / 10000)
    }

    /// Records one day's performance and MEV reward and returns the new risk
    /// score. The update is refused with `TooFrequentUpdate` less than a day
    /// after the previous one, and with `MathOverflow` when the rewards or
    /// the score overflow; a refused update changes nothing.
    pub fn update_metrics(&mut self, new_performance: u64, new_mev_reward: u64, current_timestamp: i64) -> (r: Result<u64, ErrorCode>)
        requires
            old(self).wf(),
        ensures
            final(self).wf(),
            match old(self)@.updated(new_performance, new_mev_reward, current_timestamp) {
                Ok(next) => r matches Ok(score) && score == next.score() && final(self)@ == next,
                Err(e) => r == Err::<u64, ErrorCode>(e) && *final(self) == *old(self),
            },
    {
        if !(self.last_update == 0 || current_timestamp as i128 - self.last_update as i128
            >= UPDATE_INTERVAL as i128) {
            return Err(ErrorCode::TooFrequentUpdate);
        }
        let mev_rewards = self.mev_rewards.checked_add(new_mev_reward).ok_or(
            ErrorCode::MathOverflow,
        )?;

        let mut next = *self;
        next.performance_history[self.current_index as usize] = new_performance;
        next.current_index = ((self.current_index as u16 + 1) % 30) as u8;
        next.mev_rewards = mev_rewards;
        next.last_update = current_timestamp;

        let score = next.calculate_risk_score()?;
        *self = next;
        Ok(score)
    }
}

} // verus!
