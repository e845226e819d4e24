//! The records behind the operations on a liquid-staking pool.

use vstd::prelude::*;
use crate::error::ErrorCode;
use crate::host::Pubkey;
use crate::state::pool::PoolState;

verus! {

/// Decimal places the pool's token mints must have.
pub const MINT_DECIMALS: u8 = 6;

/// What the pool reads of a token mint.
#[derive(Clone, Copy, Debug, PartialEq, Eq)]
pub struct Mint {
    /// Decimal places of the token.
    pub decimals: u8,
}

/// The records an operation on the pool works on.
#[derive(Clone, Copy, Debug, PartialEq, Eq)]
pub struct LSTPool {
    pub pool_state: PoolState,
    /// Mint of the liquid-staking token.
    pub lst_mint: Mint,
    /// Mint of the stablecoin the token trades against.
    pub usdc_mint: Mint,
    /// The pool's authority.
    pub authority: Pubkey,
}

impl LSTPool {
    /// Whether both mints have the decimal places the pool works with.
    pub fn mints_supported(&self) -> (supported: bool)
        ensures
            supported == (self.lst_mint.decimals == MINT_DECIMALS && self.usdc_mint.decimals
                == MINT_DECIMALS),
    {
        self.lst_mint.decimals == MINT_DECIMALS && self.usdc_mint.decimals == MINT_DECIMALS
    }

    /// Accepts an initialized pool and rejects any other with
    /// `PoolNotInitialized`.
    pub fn validate(&self) -> (r: Result<(), ErrorCode>)
        ensures
            self.pool_state.is_initialized ==> r == Ok::<(), ErrorCode>(()),
            !self.pool_state.is_initialized ==> r == Err::<(), ErrorCode>(
                ErrorCode::PoolNotInitialized,
            ),
    {
        if !self.pool_state.is_initialized {
            return Err(ErrorCode::PoolNotInitialized);
        }
        Ok(())
    }
}

} // verus!
