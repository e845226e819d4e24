//! Fusion of two price feeds into one reference price with a smoothed
//! estimate and a rolling history.

use vstd::prelude::*;
use crate::error::ErrorCode;
use crate::state::feeds::{
    pyth_aggregate_price,
    pyth_feed_price,
    switchboard_feed_mantissa,
    switchboard_latest_mantissa,
    AGGREGATOR_ACCOUNT_LEN,
};

verus! {

/// Number of prices the rolling history holds.
pub const PRICE_HISTORY_LEN: usize = 150;

/// Seconds that must pass between two price updates.
pub const MIN_UPDATE_INTERVAL: i64 = 3;

/// Price state of a pool.
#[derive(Clone, Copy, Debug, PartialEq, Eq)]
pub struct OracleState {
    /// The price fused from the two feeds at the last update.
    pub last_price: i64,
    /// Exponential moving average of the fused price over 150 periods.
    pub ema_price: i64,
    /// Time of the last update.
    pub last_update_ts: i64,
    /// The last 150 fused prices, overwritten in a circle.
    pub price_history: [i64; 150],
    /// The slot the next price goes to.
    pub history_index: u8,
    /// Weight of the Pyth feed, in basis points.
    pub pyth_weight: u16,
    /// Weight of the Switchboard feed, in basis points.
    pub switchboard_weight: u16,
}

/// An oracle record with its history as a sequence.
pub struct OracleStateView {
    pub last_price: i64,
    pub ema_price: i64,
    pub last_update_ts: i64,
    pub price_history: Seq<i64>,
    pub history_index: u8,
    pub pyth_weight: u16,
    pub switchboard_weight: u16,
}

impl View for OracleState {
    type V = OracleStateView;

    open spec fn view(&self) -> OracleStateView {
        OracleStateView {
            last_price: self.last_price,
            ema_price: self.ema_price,
            last_update_ts: self.last_update_ts,
            price_history: self.price_history@,
            history_index: self.history_index,
            pyth_weight: self.pyth_weight,
            switchboard_weight: self.switchboard_weight,
        }
    }
}

/// Why a price could not be taken from the feeds.
#[derive(Debug, PartialEq, Eq)]
pub enum OracleError {
    /// A rule of the oracle itself was broken.
    Code(ErrorCode),
    /// The Pyth price account could not be decoded.
    Pyth(pyth_sdk_solana::PythError),
    /// The Switchboard feed could not be decoded or holds no valid round.
    Switchboard(anchor_lang::error::Error),
    /// The Switchboard feed is shorter than an aggregator account.
    SwitchboardFeedTooShort,
}

/// The quotient rounded toward zero.
pub open spec fn div_toward_zero(n: int, d: int) -> int {
    if n >= 0 {
        n / d
    } else {
        -((-n) / d)
    }
}

/// The average of two prices weighted in basis points, rounded toward zero.
pub open spec fn fused_price(
    pyth_price: int,
    switchboard_price: int,
    pyth_weight: int,
    switchboard_weight: int,
) -> int {
    div_toward_zero(pyth_price * pyth_weight + switchboard_price * switchboard_weight, 10_000)
}

/// One step of the exponential moving average over 150 periods: the price
/// enters with weight 2/151 and the previous average with 149/151. The
/// weighted mean is formed without any rounding and then cut off toward zero
/// to a whole price.
pub open spec fn smoothed(ema: int, price: int) -> int {
    div_toward_zero(149 * ema + 2 * price, 151)
}

/// The average after the same price has been fed `rounds` times.
pub open spec fn smoothed_repeatedly(ema: int, price: int, rounds: nat) -> int
    decreases rounds,
{
    if rounds == 0 {
        ema
    } else {
        smoothed(smoothed_repeatedly(ema, price, (rounds - 1) as nat), price)
    }
}

/// The distance between two prices.
pub open spec fn distance(a: int, b: int) -> int {
    if a >= b {
        a - b
    } else {
        b - a
    }
}

/// Whether an oracle last updated at `last_update` may be updated at `now`.
pub open spec fn price_update_permitted(last_update: int, now: int) -> bool {
    now - last_update >= 3
}

impl OracleStateView {
    /// The price the record's weights fuse from the two feeds.
    pub open spec fn fused(self, pyth_price: i64, switchboard_price: i128) -> int {
        fused_price(
            pyth_price as int,
            switchboard_price as int,
            self.pyth_weight as int,
            self.switchboard_weight as int,
        )
    }

    /// The record after a fused price has been taken in at time `now`.
    pub open spec fn with_price(self, price: i64, now: i64) -> Self {
        OracleStateView {
            last_price: price,
            ema_price: smoothed(self.ema_price as int, price as int) as i64,
            last_update_ts: now,
            price_history: self.price_history.update(self.history_index as int, price),
            history_index: ((self.history_index + 1) % 150) as u8,
            ..self
        }
    }

    /// The outcome of a price update: the record that results, or the
    /// reason the update is refused.
    pub open spec fn updated(self, pyth_price: i64, switchboard_price: i128, now: i64) -> Result<
        Self,
        ErrorCode,
    > {
        let fused = self.fused(pyth_price, switchboard_price);
        if !price_update_permitted(self.last_update_ts as int, now as int) {
            Err(ErrorCode::TooFrequentUpdate)
        } else if !(i64::MIN <= fused <= i64::MAX) {
            Err(ErrorCode::MathOverflow)
        } else {
            Ok(self.with_price(fused as i64, now))
        }
    }
}

/// A smoothing step lands between the previous average and the price, and
/// cutting off loses less than one unit: 151 times the remaining gap exceeds
/// 149 times the previous gap by at most 150. A gap of 76 or more shrinks.
pub proof fn lemma_smoothed_contracts(ema: int, price: int)
    ensures
        ema <= price ==> ema <= smoothed(ema, price) <= price,
        ema >= price ==> price <= smoothed(ema, price) <= ema,
        151 * distance(smoothed(ema, price), price) <= 149 * distance(ema, price) + 150,
        distance(smoothed(ema, price), price) <= distance(ema, price),
        distance(ema, price) >= 76 ==> distance(smoothed(ema, price), price) < distance(
            ema,
            price,
        ),
        smoothed(price, price) == price,
{
}

/// Feeding a constant price converges: the gap to the price never grows,
/// and after `rounds` rounds it is at most 75 or has shrunk by at least
/// `rounds`. An average that has reached the price stays there.
pub proof fn lemma_smoothing_converges(ema: int, price: int, rounds: nat)
    ensures
        distance(smoothed_repeatedly(ema, price, rounds), price) <= distance(ema, price),
        distance(smoothed_repeatedly(ema, price, rounds), price) <= 75 || distance(
            smoothed_repeatedly(ema, price, rounds),
            price,
        ) <= distance(ema, price) - rounds,
        ema == price ==> smoothed_repeatedly(ema, price, rounds) == price,
    decreases rounds,
{
    if rounds > 0 {
        lemma_smoothing_converges(ema, price, (rounds - 1) as nat);
        lemma_smoothed_contracts(smoothed_repeatedly(ema, price, (rounds - 1) as nat), price);
    }
}

/// With weights that add up to 10000 the fused price lies between the two
/// feed prices, so it fits the price type whenever both of them do.
pub proof fn lemma_fused_price_between(a: int, b: int, pyth_weight: int, switchboard_weight: int)
    requires
        0 <= pyth_weight,
        0 <= switchboard_weight,
        pyth_weight + switchboard_weight == 10_000,
    ensures
        a <= b ==> a <= fused_price(a, b, pyth_weight, switchboard_weight) <= b,
        b <= a ==> b <= fused_price(a, b, pyth_weight, switchboard_weight) <= a,
{
    let n = a * pyth_weight + b * switchboard_weight;
    if a <= b {
        assert(a * 10_000 <= n <= b * 10_000) by (nonlinear_arith)
            requires
                n == a * pyth_weight + b * switchboard_weight,
                a <= b,
                0 <= pyth_weight,
                0 <= switchboard_weight,
                pyth_weight + switchboard_weight == 10_000,
        ;
    } else {
        assert(b * 10_000 <= n <= a * 10_000) by (nonlinear_arith)
            requires
                n == a * pyth_weight + b * switchboard_weight,
                b <= a,
                0 <= pyth_weight,
                0 <= switchboard_weight,
                pyth_weight + switchboard_weight == 10_000,
        ;
    }
}

/// After an update at `first`, an update less than three seconds later is
/// refused, whatever prices it brings.
pub proof fn lemma_second_update_refused(
    state: OracleStateView,
    pyth_first: i64,
    switchboard_first: i128,
    first: i64,
    pyth_second: i64,
    switchboard_second: i128,
    second: i64,
)
    requires
        state.updated(pyth_first, switchboard_first, first) is Ok,
        second - first < 3,
    ensures
        state.updated(pyth_first, switchboard_first, first)->Ok_0.updated(
            pyth_second,
            switchboard_second,
            second,
        ) == Err::<OracleStateView, ErrorCode>(ErrorCode::TooFrequentUpdate),
{
}

/// The average of two feed prices weighted in basis points, rounded toward
/// zero. Fails with `MathOverflow` exactly when the result does not fit the
/// price type.
pub fn weighted_price(
    pyth_price: i64,
    switchboard_price: i128,
    pyth_weight: u16,
    switchboard_weight: u16,
) -> (r: Result<i64, ErrorCode>)
    ensures
        match r {
            Ok(price) => price == fused_price(
                pyth_price as int,
                switchboard_price as int,
                pyth_weight as int,
                switchboard_weight as int,
            ),
            Err(e) => e == ErrorCode::MathOverflow && !(i64::MIN <= fused_price(
                pyth_price as int,
                switchboard_price as int,
                pyth_weight as int,
                switchboard_weight as int,
            ) <= i64::MAX),
        },
{
    let limit: i128 = 0x1_0000_0000_0000_0000_0000_0000;
    proof {
        assert(-0x8000_0000_0000_0000 * 0x1_0000 <= pyth_price * pyth_weight
            <= 0x8000_0000_0000_0000 * 0x1_0000) by (nonlinear_arith)
            requires
                -0x8000_0000_0000_0000 <= pyth_price <= 0x8000_0000_0000_0000,
                0 <= pyth_weight <= 0x1_0000,
        ;
    }
    let pyth_part: i128 = pyth_price as i128 * pyth_weight as i128;
    let switchboard_part: i128 = if switchboard_weight == 0 {
        proof {
            assert(switchboard_price * switchboard_weight == 0) by (nonlinear_arith)
                requires
                    switchboard_weight == 0,
            ;
        }
        0
    } else if switchboard_price > limit || switchboard_price < -limit {
        proof {
            if switchboard_price > limit {
                assert(switchboard_price * switchboard_weight > limit) by (nonlinear_arith)
                    requires
                        switchboard_price > limit,
                        switchboard_weight >= 1,
                        limit > 0,
                ;
            } else {
                assert(switchboard_price * switchboard_weight < -limit) by (nonlinear_arith)
                    requires
                        switchboard_price < -limit,
                        switchboard_weight >= 1,
                        limit > 0,
                ;
            }
        }
        return Err(ErrorCode::MathOverflow);
    } else {
        proof {
            assert(-limit * 0x1_0000 <= switchboard_price * switchboard_weight <= limit * 0x1_0000)
                by (nonlinear_arith)
                requires
                    -limit <= switchboard_price <= limit,
                    0 <= switchboard_weight <= 0x1_0000,
                    limit > 0,
            ;
        }
        switchboard_price * switchboard_weight as i128
    };
    let total: i128 = pyth_part + switchboard_part;
    let fused: i128 = if total >= 0 {
        total / 10_000
    } else {
        -((-total) / 10_000)
    };
    if fused > i64::MAX as i128 || fused < i64::MIN as i128 {
        return Err(ErrorCode::MathOverflow);
    }
    Ok(fused as i64)
}

impl OracleState {
    /// Bytes the record occupies in storage, header included.
    pub const LEN: usize = 8 + 8 + 8 + 8 + 1200 + 1 + 2 + 2;

    /// Whether the cursor points into the history.
    pub open spec fn wf(&self) -> bool {
        self.history_index < 150
    }

    /// An oracle without prices that weights both feeds equally.
    pub fn new() -> (state: OracleState)
        ensures
            state.wf(),
            state@ == (OracleStateView {
                last_price: 0,
                ema_price: 0,
                last_update_ts: 0,
                price_history: Seq::new(150, |i: int| 0i64),
                history_index: 0,
                pyth_weight: 5000,
                switchboard_weight: 5000,
            }),
    {
        let state = OracleState {
            last_price: 0,
            ema_price: 0,
            last_update_ts: 0,
            price_history: [0i64;150],
            history_index: 0,
            pyth_weight: 5000,
            switchboard_weight: 5000,
        };
        assert(state.price_history@ =~= Seq::new(150, |i: int| 0i64));
        state
    }

    /// Sets the weights of the two feeds. Weights that do not add up to
    /// 10000 basis points are rejected with `InvalidOracleWeights` and change
    /// nothing.
    pub fn set_weights(&mut self, pyth_weight: u16, switchboard_weight: u16) -> (r: Result<
        (),
        ErrorCode,
    >)
        ensures
            pyth_weight + switchboard_weight != 10_000 ==> r == Err::<(), ErrorCode>(
                ErrorCode::InvalidOracleWeights,
            ) && *final(self) == *old(self),
            pyth_weight + switchboard_weight == 10_000 ==> r == Ok::<(), ErrorCode>(())
                && *final(self) == (OracleState { pyth_weight, switchboard_weight, ..*old(self) }),
    {
        if pyth_weight as u32 + switchboard_weight as u32 != 10_000 {
            return Err(ErrorCode::InvalidOracleWeights);
        }
        self.pyth_weight = pyth_weight;
        self.switchboard_weight = switchboard_weight;
        Ok(())
    }

    /// The exponential moving average after `current_price` has been taken
    /// in: 149 parts of the stored average and 2 parts of the price, out of
    /// 151, cut off toward zero.
    pub fn calculate_ema(&self, current_price: i64) -> (r: Result<i64, ErrorCode>)
        ensures
            r matches Ok(ema) && ema == smoothed(self.ema_price as int, current_price as int),
    {
        proof {
            lemma_smoothed_contracts(self.ema_price as int, current_price as int);
        }
        let weighted: i128 = 149 * (self.ema_price as i128) + 2 * (current_price as i128);
        let ema: i128 = if weighted >= 0 {
            weighted / 151
        } else {
            -((-weighted) / 151)
        };
        Ok(ema as i64)
    }

    /// Writes a price at the cursor of the history and advances the cursor
    /// around the circle, so that the oldest price is the next to go.
    pub fn update_price_history(&mut self, new_price: i64)
        requires
            old(self).wf(),
        ensures
            final(self).wf(),
            final(self)@ == (OracleStateView {
                price_history: old(self)@.price_history.update(
                    old(self).history_index as int,
                    new_price,
                ),
                history_index: ((old(self).history_index + 1) % 150) as u8,
                ..old(self)@
            }),
    {
        self.price_history[self.history_index as usize] = new_price;
        self.history_index = (self.history_index + 1) % 150;
    }

    /// Takes in the prices of the two feeds at time `now`: fuses them,
    /// smooths the result into the average, writes it to the history and
    /// notes the time. The update is refused with `TooFrequentUpdate` less
    /// than three seconds after the previous one and with `MathOverflow`
    /// when the fused price does not fit; a refused update changes nothing.
    pub fn fuse_and_update(&mut self, pyth_price: i64, switchboard_price: i128, now: i64) -> (r:
        Result<(), ErrorCode>)
        requires
            old(self).wf(),
        ensures
            final(self).wf(),
            match old(self)@.updated(pyth_price, switchboard_price, now) {
                Ok(next) => r == Ok::<(), ErrorCode>(()) && final(self)@ == next,
                Err(e) => r == Err::<(), ErrorCode>(e) && *final(self) == *old(self),
            },
    {
        if (now as i128) - (self.last_update_ts as i128) < MIN_UPDATE_INTERVAL as i128 {
            return Err(ErrorCode::TooFrequentUpdate);
        }
        let current_price = weighted_price(
            pyth_price,
            switchboard_price,
            self.pyth_weight,
            self.switchboard_weight,
        )?;
        let ema_price = self.calculate_ema(current_price)?;
        self.last_price = current_price;
        self.ema_price = ema_price;
        self.update_price_history(current_price);
        self.last_update_ts = now;
        Ok(())
    }
}

/// The reference price read from the data of the two feed accounts: each
/// feed is decoded, and the two prices are fused with the oracle's weights.
/// The Pyth account is decoded first, and its failure is reported first; a
/// Switchboard feed shorter than an aggregator account is not decoded at
/// all; and two prices whose fused price does not fit give `MathOverflow`.
pub fn get_weighted_median_price(
    pyth_price: &[u8],
    switchboard_feed: &[u8],
    oracle_state: &OracleState,
) -> (r: Result<i64, OracleError>)
    ensures
        match r {
            Ok(price) => {
                &&& pyth_feed_price(pyth_price@) matches Some(a)
                &&& switchboard_feed@.len() >= AGGREGATOR_ACCOUNT_LEN
                &&& switchboard_feed_mantissa(switchboard_feed@) matches Some(b)
                &&& price == oracle_state@.fused(a, b)
            },
            Err(OracleError::Pyth(_)) => pyth_feed_price(pyth_price@) is None,
            Err(OracleError::SwitchboardFeedTooShort) => {
                &&& pyth_feed_price(pyth_price@) is Some
                &&& switchboard_feed@.len() < AGGREGATOR_ACCOUNT_LEN
            },
            Err(OracleError::Switchboard(_)) => {
                &&& pyth_feed_price(pyth_price@) is Some
                &&& switchboard_feed@.len() >= AGGREGATOR_ACCOUNT_LEN
                &&& switchboard_feed_mantissa(switchboard_feed@) is None
            },
            Err(OracleError::Code(e)) => {
                &&& e == ErrorCode::MathOverflow
                &&& pyth_feed_price(pyth_price@) matches Some(a)
                &&& switchboard_feed@.len() >= AGGREGATOR_ACCOUNT_LEN
                &&& switchboard_feed_mantissa(switchboard_feed@) matches Some(b)
                &&& !(i64::MIN <= oracle_state@.fused(a, b) <= i64::MAX)
            },
        },
{
    let pyth_price_i64 = match pyth_aggregate_price(pyth_price) {
        Ok(price) => price,
        Err(e) => return Err(OracleError::Pyth(e)),
    };
    if switchboard_feed.len() < AGGREGATOR_ACCOUNT_LEN {
        return Err(OracleError::SwitchboardFeedTooShort);
    }
    let switchboard_price = match switchboard_latest_mantissa(switchboard_feed) {
        Ok(mantissa) => mantissa,
        Err(e) => return Err(OracleError::Switchboard(e)),
    };
    match weighted_price(
        pyth_price_i64,
        switchboard_price,
        oracle_state.pyth_weight,
        oracle_state.switchboard_weight,
    ) {
        Ok(price) => Ok(price),
        Err(e) => Err(OracleError::Code(e)),
    }
}

} // verus!
