//! The records each operation of the pool program works on, and the
//! operations that span several records.

pub mod liquidity_protection;
pub mod lst_pool;
pub mod update_price;
pub mod validator_update;
