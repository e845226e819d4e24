//! Records held by the pool and the arithmetic that maintains them.

pub mod feeds;
pub mod insurance_fund;
pub mod jito_reserves;
pub mod liquid_stake_pool;
pub mod liquidity_protection;
pub mod lst_pool_config;
pub mod lst_state;
pub mod oracle;
pub mod pool;
pub mod risk_adjusted_pool;
pub mod swap_pool;
pub mod validator;
pub mod validator_tracking;
