//! Configuration of a pool that holds several liquid-staking tokens.

use vstd::prelude::*;

verus! {

/// Settings of the whole pool.
#[derive(Clone, Copy, Debug, PartialEq, Eq)]
pub struct LstPoolConfig {
    pub jito_config: JitoPoolSettings,
    pub msol_config: MsolPoolSettings,
    pub rebalance_threshold: u64,
    pub fee_structure: FeeStructure,
}

/// Settings that apply to JitoSOL.
#[derive(Clone, Copy, Debug, PartialEq, Eq)]
pub struct JitoPoolSettings {
    pub mev_share_fee: u64,
}

/// Settings that apply to mSOL.
#[derive(Clone, Copy, Debug, PartialEq, Eq)]
pub struct MsolPoolSettings {
    pub directed_stake_enabled: bool,
}

/// The fees the pool charges.
#[derive(Clone, Copy, Debug, PartialEq, Eq)]
pub struct FeeStructure {
    pub swap_fee: u64,
    pub admin_fee: u64,
    pub mev_share_fee: u64,
}

} // verus!
