//! The instructions of the weighted pool.

pub mod compound_rewards;
pub mod initialize_pool;
pub mod rebalance_pool;
