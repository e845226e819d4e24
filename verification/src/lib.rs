//! Risk-adjusted pricing and capital allocation for a pool of liquid-staking
//! tokens.
//!
//! Every operation is a transition on plain records: the host supplies the
//! records and the current time, and stores the records again when the
//! operation returns `Ok`. An operation that returns `Err` leaves its records
//! exactly as they were.

pub mod contexts;
pub mod error;
pub mod host;
pub mod instructions;
pub mod math;
pub mod solswap;
pub mod state;
