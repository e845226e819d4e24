//! Setting up a stable-swap pool.

use vstd::prelude::*;
use crate::error::SwapError;
use crate::host::Pubkey;
use crate::state::swap_pool::{Pool, PoolView};

verus! {

/// The records an initialization works on.
#[derive(Clone, Debug, PartialEq, Eq)]
pub struct InitializePool {
    /// Who sets the pool up and controls it from then on.
    pub authority: Pubkey,
    /// The pool to set up.
    pub pool: Pool,
}

/// Hands the pool to the authority and sets its curve and fees; the supply
/// of liquidity-provider tokens starts at zero.
pub fn handler(ctx: &mut InitializePool, amp: u64, fee_bps: u16, admin_fee_bps: u16) -> (r: Result<
    (),
    SwapError,
>)
    ensures
        r == Ok::<(), SwapError>(()),
        final(ctx).authority == old(ctx).authority,
        final(ctx).pool@ == (PoolView {
            authority: old(ctx).authority,
            amp,
            fee_bps,
            admin_fee_bps,
            lp_supply: 0,
            ..old(ctx).pool@
        }),
{
    ctx.pool.authority = ctx.authority;
    ctx.pool.amp = amp;
    ctx.pool.fee_bps = fee_bps;
    ctx.pool.admin_fee_bps = admin_fee_bps;
    ctx.pool.lp_supply = 0;
    Ok(())
}

} // verus!
