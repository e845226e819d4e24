//! The stable-swap pool record and the positions of its liquidity providers.

use vstd::prelude::*;
use crate::host::Pubkey;

verus! {

/// A stable-swap pool over liquid-staking tokens.
#[derive(Clone, Debug, PartialEq, Eq)]
pub struct Pool {
    /// Who controls the pool.
    pub authority: Pubkey,
    pub bump: u8,
    /// The tokens the pool trades.
    pub tokens: Vec<Pubkey>,
    /// Amplification coefficient of the curve.
    pub amp: u64,
    /// Swap fee, in basis points.
    pub fee_bps: u16,
    /// Share of the fee that goes to the administrator, in basis points.
    pub admin_fee_bps: u16,
    /// Supply of liquidity-provider tokens.
    pub lp_supply: u64,
}

/// The share of one liquidity provider in one pool.
#[derive(Clone, Copy, Debug, PartialEq, Eq)]
pub struct UserPosition {
    pub owner: Pubkey,
    pub pool: Pubkey,
    pub lp_tokens: u64,
}

/// A stable-swap pool with its tokens as a sequence.
pub struct PoolView {
    pub authority: Pubkey,
    pub bump: u8,
    pub tokens: Seq<Pubkey>,
    pub amp: u64,
    pub fee_bps: u16,
    pub admin_fee_bps: u16,
    pub lp_supply: u64,
}

impl View for Pool {
    type V = PoolView;

    open spec fn view(&self) -> PoolView {
        PoolView {
            authority: self.authority,
            bump: self.bump,
            tokens: self.tokens@,
            amp: self.amp,
            fee_bps: self.fee_bps,
            admin_fee_bps: self.admin_fee_bps,
            lp_supply: self.lp_supply,
        }
    }
}

} // verus!
