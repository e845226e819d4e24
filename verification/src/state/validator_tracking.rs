//! Validators, the protocols that stake with them, and the reserves that
//! back the pool's tokens.

use vstd::prelude::*;
use crate::host::Pubkey;
use crate::instructions::compound_rewards::RewardsSnapshot;

verus! {

/// A validator and the protocols staking with it.
#[derive(Clone, Debug, PartialEq, Eq)]
pub struct ValidatorInfo {
    pub identity: Pubkey,
    pub stake_amount: u64,
    pub metrics: ValidatorMetrics,
    pub lst_protocols: Vec<LstProtocolInfo>,
}

/// Long-term metrics of a validator.
#[derive(Clone, Copy, Debug, PartialEq, Eq)]
pub struct ValidatorMetrics {
    /// Average yearly yield over the last 30 days.
    pub avg_apy: u64,
    /// Uptime, in basis points.
    pub uptime_bps: u16,
    pub epochs_active: u64,
    /// Slot of the last update.
    pub last_update: u64,
}

/// The stake one protocol has with a validator.
#[derive(Clone, Copy, Debug, PartialEq, Eq)]
pub struct LstProtocolInfo {
    pub protocol: Pubkey,
    pub staked_amount: u64,
    pub risk_score: u8,
}

/// The reserves behind the pool's tokens and the rewards added to them.
#[derive(Clone, Debug, PartialEq, Eq)]
pub struct ReservesTracker {
    /// Who may update the reserves.
    pub authority: Pubkey,
    /// Time of the last compounding.
    pub last_update: i64,
    /// All reserves, in SOL.
    pub total_reserves: u64,
    /// The reserves by protocol.
    pub protocol_reserves: Vec<ProtocolReserves>,
    /// MEV rewards held for JitoSOL.
    pub jito_mev_rewards: u64,
    /// Every compounding so far, oldest first.
    pub rewards_history: Vec<RewardsSnapshot>,
}

/// The reserves of one protocol.
#[derive(Clone, Copy, Debug, PartialEq, Eq)]
pub struct ProtocolReserves {
    pub protocol: Pubkey,
    /// SOL backing the protocol's tokens.
    pub sol_reserves: u64,
    /// Tokens the protocol has issued.
    pub lst_supply: u64,
    /// Time the reserves were last verified.
    pub last_verified: i64,
}

/// A validator with its protocols as a sequence.
pub struct ValidatorInfoView {
    pub identity: Pubkey,
    pub stake_amount: u64,
    pub metrics: ValidatorMetrics,
    pub lst_protocols: Seq<LstProtocolInfo>,
}

/// The reserves with their lists as sequences.
pub struct ReservesTrackerView {
    pub authority: Pubkey,
    pub last_update: i64,
    pub total_reserves: u64,
    pub protocol_reserves: Seq<ProtocolReserves>,
    pub jito_mev_rewards: u64,
    pub rewards_history: Seq<RewardsSnapshot>,
}

impl View for ValidatorInfo {
    type V = ValidatorInfoView;

    open spec fn view(&self) -> ValidatorInfoView {
        ValidatorInfoView {
            identity: self.identity,
            stake_amount: self.stake_amount,
            metrics: self.metrics,
            lst_protocols: self.lst_protocols@,
        }
    }
}

impl View for ReservesTracker {
    type V = ReservesTrackerView;

    open spec fn view(&self) -> ReservesTrackerView {
        ReservesTrackerView {
            authority: self.authority,
            last_update: self.last_update,
            total_reserves: self.total_reserves,
            protocol_reserves: self.protocol_reserves@,
            jito_mev_rewards: self.jito_mev_rewards,
            rewards_history: self.rewards_history@,
        }
    }
}

impl ReservesTracker {
    /// Empty reserves that have never been compounded.
    pub fn new(authority: Pubkey) -> (reserves: ReservesTracker)
        ensures
            reserves@ == (ReservesTrackerView {
                authority,
                last_update: 0,
                total_reserves: 0,
                protocol_reserves: Seq::empty(),
                jito_mev_rewards: 0,
                rewards_history: Seq::empty(),
            }),
    {
        ReservesTracker {
            authority,
            last_update: 0,
            total_reserves: 0,
            protocol_reserves: Vec::new(),
            jito_mev_rewards: 0,
            rewards_history: Vec::new(),
        }
    }
}

} // verus!
