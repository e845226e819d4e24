//! The weighted pool of liquid-staking tokens and the scores its weights
//! derive from.

use vstd::prelude::*;
use crate::host::Pubkey;
use crate::state::jito_reserves::{JitoReserves, JitoReservesView};
use crate::state::liquid_stake_pool::{LiquidStakePool, LiquidStakePoolView};

verus! {

/// A pool that weights its tokens by their risk.
#[derive(Clone, Debug, PartialEq, Eq)]
pub struct RiskAdjustedPool {
    /// Who controls the pool.
    pub authority: Pubkey,
    pub config: PoolConfig,
    /// The tokens of the pool with their current weights.
    pub token_weights: Vec<TokenWeight>,
    /// Time of the last rebalance.
    pub last_rebalance: i64,
    /// The weight each token should have.
    pub target_weights: Vec<TargetWeight>,
    /// The risk scores of the tokens, in the order of `token_weights`.
    pub risk_scores: Vec<RiskScore>,
    pub jito_reserves: Option<JitoReserves>,
    pub msol_pool: Option<LiquidStakePool>,
}

/// Limits and intervals of a weighted pool.
#[derive(Clone, Copy, Debug, PartialEq, Eq)]
pub struct PoolConfig {
    /// Ceiling on the weight of a single token, in percent.
    pub max_weight: u8,
    /// Seconds that must pass between two rebalances.
    pub rebalance_interval: i64,
    /// Largest deviation from the target weights, in percent.
    pub max_weight_deviation: u8,
    /// Seconds that must pass between two reward compoundings.
    pub min_compound_interval: i64,
}

/// A token of the pool with its weight and amount.
#[derive(Clone, Copy, Debug, PartialEq, Eq)]
pub struct TokenWeight {
    pub mint: Pubkey,
    /// Current weight, in basis points.
    pub weight: u16,
    /// Amount of the token in the pool.
    pub amount: u64,
}

/// The weight a token should have.
#[derive(Clone, Copy, Debug, PartialEq, Eq)]
pub struct TargetWeight {
    pub mint: Pubkey,
    /// Target weight, in basis points.
    pub target: u16,
}

/// The score that only one kind of token carries. A token has at most one.
#[derive(Clone, Copy, Debug, PartialEq, Eq)]
pub enum RiskAdjustment {
    /// The token carries no further score.
    NoAdjustment,
    /// How reliably the token's validators earn MEV, 0 to 100.
    MevReliability(u8),
    /// How widely the token's stake is spread, 0 to 100.
    ValidatorDiversity(u8),
}

/// The risk scores of one token, each from 0 to 100.
#[derive(Clone, Copy, Debug, PartialEq, Eq)]
pub struct RiskScore {
    pub mint: Pubkey,
    pub validator_score: u8,
    pub security_score: u8,
    pub decentralization_score: u8,
    pub yield_stability_score: u8,
    pub adjustment: RiskAdjustment,
}

/// A weighted pool with its lists as sequences.
pub struct RiskAdjustedPoolView {
    pub authority: Pubkey,
    pub config: PoolConfig,
    pub token_weights: Seq<TokenWeight>,
    pub last_rebalance: i64,
    pub target_weights: Seq<TargetWeight>,
    pub risk_scores: Seq<RiskScore>,
    pub jito_reserves: Option<JitoReservesView>,
    pub msol_pool: Option<LiquidStakePoolView>,
}

impl View for RiskAdjustedPool {
    type V = RiskAdjustedPoolView;

    open spec fn view(&self) -> RiskAdjustedPoolView {
        RiskAdjustedPoolView {
            authority: self.authority,
            config: self.config,
            token_weights: self.token_weights@,
            last_rebalance: self.last_rebalance,
            target_weights: self.target_weights@,
            risk_scores: self.risk_scores@,
            jito_reserves: match self.jito_reserves {
                Some(reserves) => Some(reserves@),
                None => None,
            },
            msol_pool: match self.msol_pool {
                Some(pool) => Some(pool@),
                None => None,
            },
        }
    }
}

impl RiskAdjustedPoolView {
    /// Whether every token weight is within the configured ceiling.
    pub open spec fn weights_within_ceiling(self) -> bool {
        forall|i: int|
            0 <= i < self.token_weights.len() ==> (#[trigger] self.token_weights[i]).weight
                <= self.config.max_weight * 100
    }
}

impl RiskAdjustedPool {
    /// A pool without tokens that has never been rebalanced.
    pub fn new(authority: Pubkey, config: PoolConfig) -> (pool: RiskAdjustedPool)
        ensures
            pool@ == (RiskAdjustedPoolView {
                authority,
                config,
                token_weights: Seq::empty(),
                last_rebalance: 0,
                target_weights: Seq::empty(),
                risk_scores: Seq::empty(),
                jito_reserves: None,
                msol_pool: None,
            }),
            pool@.weights_within_ceiling(),
    {
        RiskAdjustedPool {
            authority,
            config,
            token_weights: Vec::new(),
            last_rebalance: 0,
            target_weights: Vec::new(),
            risk_scores: Vec::new(),
            jito_reserves: None,
            msol_pool: None,
        }
    }
}

} // verus!
