//! The records a price update works on.

use vstd::prelude::*;
use crate::host::Clock;
use crate::state::oracle::OracleState;
use crate::state::pool::PoolState;

verus! {

/// The records a price update works on.
#[derive(Clone, Debug, PartialEq, Eq)]
pub struct UpdatePrice {
    pub pool: PoolState,
    pub oracle_state: OracleState,
    /// The data of the Pyth price account.
    pub pyth_price_account: Vec<u8>,
    /// The data of the Switchboard aggregator account.
    pub switchboard_feed: Vec<u8>,
    pub clock: Clock,
}

} // verus!
