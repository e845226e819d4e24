//! The insurance fund and its risk-driven target allocation.

use vstd::prelude::*;
use crate::error::ErrorCode;
use crate::host::Pubkey;

verus! {

/// State of the fund that covers the pool against unexpected events.
#[derive(Clone, Copy, Debug, PartialEq, Eq)]
pub struct InsuranceFund {
    /// Assets held by the fund.
    pub total_assets: u64,
    /// Share of pool liquidity the fund aims to hold, in basis points.
    pub target_allocation: u16,
    /// Smallest share the fund may aim for, in basis points.
    pub minimum_allocation: u16,
    /// Largest share the fund may aim for, in basis points.
    pub maximum_allocation: u16,
    /// Risk level the target was last derived from, 0 to 10000.
    pub current_risk_level: u16,
    /// Time the fund was last rebalanced.
    pub last_rebalance: i64,
    /// Assets currently deployed for protection.
    pub deployed_amount: u64,
    /// Who may change the fund's parameters.
    pub authority: Pubkey,
    pub bump: u8,
}

/// The target allocation for a risk level: the minimum plus the risk level's
/// share of the span up to the maximum. A maximum below the minimum counts as
/// a span of zero.
pub open spec fn allocation_for(minimum: int, maximum: int, risk_level: int) -> int {
    let span = if maximum >= minimum {
        maximum - minimum
    } else {
        0
    };
    minimum + span * risk_level / 10_000
}

/// Without risk the target is the minimum allocation, at full risk it is the
/// maximum, and in between it stays within the two and does not fall when
/// risk rises.
pub proof fn lemma_allocation_for_range(minimum: u16, maximum: u16, low: u16, high: u16)
    requires
        minimum <= maximum,
        low <= high <= 10_000,
    ensures
        allocation_for(minimum as int, maximum as int, 0) == minimum,
        allocation_for(minimum as int, maximum as int, 10_000) == maximum,
        minimum <= allocation_for(minimum as int, maximum as int, low as int) <= allocation_for(
            minimum as int,
            maximum as int,
            high as int,
        ) <= maximum,
{
    let span = maximum - minimum;
    assert(0 <= span * low <= span * high <= span * 10_000) by (nonlinear_arith)
        requires
            0 <= span,
            0 <= low <= high <= 10_000,
    ;
}

impl InsuranceFund {
    /// Bytes the record occupies in storage, header included.
    pub const LEN: usize = 8 + 8 + 2 + 2 + 2 + 2 + 8 + 8 + 32 + 1;

    /// An empty fund that aims for 5% and may range from 2% to 10%.
    pub fn new(authority: Pubkey, bump: u8) -> (fund: InsuranceFund)
        ensures
            fund == (InsuranceFund {
                total_assets: 0,
                target_allocation: 500,
                minimum_allocation: 200,
                maximum_allocation: 1000,
                current_risk_level: 0,
                last_rebalance: 0,
                deployed_amount: 0,
                authority,
                bump,
            }),
    {
        InsuranceFund {
            total_assets: 0,
            target_allocation: 500,
            minimum_allocation: 200,
            maximum_allocation: 1000,
            current_risk_level: 0,
            last_rebalance: 0,
            deployed_amount: 0,
            authority,
            bump,
        }
    }

    /// Derives the target allocation from a risk level and records the level.
    /// A risk level above 10000 is rejected with `InvalidRiskLevel` and
    /// changes nothing.
    pub fn update_allocation(&mut self, risk_level: u16) -> (r: Result<(), ErrorCode>)
        ensures
            risk_level > 10_000 ==> r == Err::<(), ErrorCode>(ErrorCode::InvalidRiskLevel)
                && *final(self) == *old(self),
            risk_level <= 10_000 ==> r == Ok::<(), ErrorCode>(()) && final(self).target_allocation
                == allocation_for(
                old(self).minimum_allocation as int,
                old(self).maximum_allocation as int,
                risk_level as int,
            ) && *final(self) == (InsuranceFund {
                target_allocation: final(self).target_allocation,
                current_risk_level: risk_level,
                ..*old(self)
            }),
    {
        if risk_level > 10_000 {
            return Err(ErrorCode::InvalidRiskLevel);
        }
        let range: u16 = self.maximum_allocation.saturating_sub(self.minimum_allocation);
        proof {
            assert(range * risk_level <= 65_535 * 10_000) by (nonlinear_arith)
                requires
                    0 <= range <= 65_535,
                    0 <= risk_level <= 10_000,
            ;
            assert(range * risk_level <= range * 10_000) by (nonlinear_arith)
                requires
                    0 <= range,
                    0 <= risk_level <= 10_000,
            ;
        }
        let scaled: u32 = range as u32 * risk_level as u32;
        let risk_adjusted_addition: u32 = scaled / 10_000;
        self.target_allocation = self.minimum_allocation.saturating_add(
            risk_adjusted_addition as u16,
        );
        self.current_risk_level = risk_level;
        Ok(())
    }
}

} // verus!
