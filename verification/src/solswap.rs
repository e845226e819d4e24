//! The operations of the pool program.

use vstd::prelude::*;
use crate::contexts::lst_pool::LSTPool;
use crate::contexts::update_price::UpdatePrice;
use crate::error::ErrorCode;
use crate::host::Clock;
use crate::state::lst_state::LSTMetrics;
use crate::state::feeds::{pyth_feed_price, switchboard_feed_mantissa, AGGREGATOR_ACCOUNT_LEN};
use crate::state::oracle::{
    get_weighted_median_price,
    price_update_permitted,
    OracleError,
    OracleStateView,
    MIN_UPDATE_INTERVAL,
};
use crate::state::pool::PoolState;

verus! {

/// Sets the pool up afresh: initialized, with zeroed metrics.
pub fn initialize_lst_pool(ctx: &mut LSTPool, bump: u8) -> (r: Result<(), ErrorCode>)
    ensures
        r == Ok::<(), ErrorCode>(()),
        *final(ctx) == (LSTPool {
            pool_state: PoolState {
                is_initialized: true,
                bump,
                lst_risk_score: 0,
                lst_performance_metrics: LSTMetrics {
                    mev_rewards: 0,
                    validator_performance: 0,
                    decentralization_score: 0,
                    reserve_ratio: 0,
                },
                volume_24h: 0,
                last_update_ts: 0,
                total_deposits: 0,
                total_borrows: 0,
                fee_rate: 0,
                base_fee: 0,
            },
            ..*old(ctx)
        }),
{
    ctx.pool_state = PoolState::new(bump);
    Ok(())
}

/// Replaces the pool's three metrics and notes the host's time.
pub fn update_lst_metrics(
    ctx: &mut LSTPool,
    new_performance: u64,
    new_decentralization: u64,
    new_reserve_ratio: u64,
    clock: &Clock,
) -> (r: Result<(), ErrorCode>)
    ensures
        r == Ok::<(), ErrorCode>(()),
        *final(ctx) == (LSTPool {
            pool_state: PoolState {
                lst_performance_metrics: LSTMetrics {
                    validator_performance: new_performance,
                    decentralization_score: new_decentralization,
                    reserve_ratio: new_reserve_ratio,
                    ..old(ctx).pool_state.lst_performance_metrics
                },
                last_update_ts: clock.unix_timestamp,
                ..old(ctx).pool_state
            },
            ..*old(ctx)
        }),
{
    ctx.pool_state.lst_performance_metrics.update_validator_performance(new_performance);
    ctx.pool_state.lst_performance_metrics.update_decentralization(new_decentralization);
    ctx.pool_state.lst_performance_metrics.update_reserve_ratio(new_reserve_ratio);

    ctx.pool_state.update_metrics(clock);

    Ok(())
}

/// Takes a new price from the two feed accounts into the oracle at the
/// host's time. Less than three seconds after the previous update the update
/// is refused with `TooFrequentUpdate` before a feed is read. Otherwise the
/// feeds are decoded and the oracle is updated with their two prices. A
/// failed update changes nothing.
pub fn update_price(ctx: &mut UpdatePrice) -> (r: Result<(), OracleError>)
    requires
        old(ctx).oracle_state.wf(),
    ensures
        final(ctx).oracle_state.wf(),
        final(ctx).pool == old(ctx).pool,
        final(ctx).pyth_price_account == old(ctx).pyth_price_account,
        final(ctx).switchboard_feed == old(ctx).switchboard_feed,
        final(ctx).clock == old(ctx).clock,
        r is Err ==> *final(ctx) == *old(ctx),
        !price_update_permitted(
            old(ctx).oracle_state.last_update_ts as int,
            old(ctx).clock.unix_timestamp as int,
        ) ==> (r matches Err(OracleError::Code(e)) && e == ErrorCode::TooFrequentUpdate),
        price_update_permitted(
            old(ctx).oracle_state.last_update_ts as int,
            old(ctx).clock.unix_timestamp as int,
        ) ==> match r {
            Ok(_) => {
                &&& pyth_feed_price(old(ctx).pyth_price_account@) matches Some(a)
                &&& old(ctx).switchboard_feed@.len() >= AGGREGATOR_ACCOUNT_LEN
                &&& switchboard_feed_mantissa(old(ctx).switchboard_feed@) matches Some(b)
                &&& old(ctx).oracle_state@.updated(a, b, old(ctx).clock.unix_timestamp) == Ok::<
                    _,
                    ErrorCode,
                >(final(ctx).oracle_state@)
            },
            Err(OracleError::Pyth(_)) => pyth_feed_price(old(ctx).pyth_price_account@) is None,
            Err(OracleError::SwitchboardFeedTooShort) => {
                &&& pyth_feed_price(old(ctx).pyth_price_account@) is Some
                &&& old(ctx).switchboard_feed@.len() < AGGREGATOR_ACCOUNT_LEN
            },
            Err(OracleError::Switchboard(_)) => {
                &&& pyth_feed_price(old(ctx).pyth_price_account@) is Some
                &&& old(ctx).switchboard_feed@.len() >= AGGREGATOR_ACCOUNT_LEN
                &&& switchboard_feed_mantissa(old(ctx).switchboard_feed@) is None
            },
            Err(OracleError::Code(e)) => {
                &&& pyth_feed_price(old(ctx).pyth_price_account@) matches Some(a)
                &&& old(ctx).switchboard_feed@.len() >= AGGREGATOR_ACCOUNT_LEN
                &&& switchboard_feed_mantissa(old(ctx).switchboard_feed@) matches Some(b)
                &&& old(ctx).oracle_state@.updated(a, b, old(ctx).clock.unix_timestamp) == Err::<
                    OracleStateView,
                    ErrorCode,
                >(e)
            },
        },
{
    if (ctx.clock.unix_timestamp as i128) - (ctx.oracle_state.last_update_ts as i128)
        < MIN_UPDATE_INTERVAL as i128 {
        return Err(OracleError::Code(ErrorCode::TooFrequentUpdate));
    }
    let current_price = get_weighted_median_price(
        ctx.pyth_price_account.as_slice(),
        ctx.switchboard_feed.as_slice(),
        &ctx.oracle_state,
    )?;

    let ema_price = match ctx.oracle_state.calculate_ema(current_price) {
        Ok(ema) => ema,
        Err(e) => return Err(OracleError::Code(e)),
    };

    ctx.oracle_state.last_price = current_price;
    ctx.oracle_state.ema_price = ema_price;
    ctx.oracle_state.update_price_history(current_price);
    ctx.oracle_state.last_update_ts = ctx.clock.unix_timestamp;

    Ok(())
}

} // verus!
