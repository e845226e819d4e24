//! Failures reported by the pool operations.

use vstd::prelude::*;

verus! {

/// The broad class a failure belongs to.
#[derive(Clone, Copy, Debug, PartialEq, Eq, Structural)]
pub enum ErrorKind {
    /// An update arrived before its minimum interval had elapsed.
    CadenceViolation,
    /// A checked arithmetic step left the range of its integer type.
    ArithmeticOverflow,
    /// An input or a stored configuration value is out of range.
    ValidationError,
    /// The caller is not the authority of the record it tried to change.
    AuthorizationError,
}

/// Failures of the operations on the pool state, the oracle, the validators
/// and the insurance fund.
#[derive(Clone, Copy, Debug, PartialEq, Eq, Structural)]
pub enum ErrorCode {
    PoolNotInitialized,
    InvalidLSTMint,
    TooFrequentUpdate,
    InvalidOracleWeights,
    MathOverflow,
    InvalidRiskParameters,
    InvalidRiskLevel,
    InvalidFeeConfig,
    InvalidInsuranceParams,
    InvalidAuthority,
    InvalidValidatorState,
}

/// Failures of the weighted pool's instructions.
#[derive(Clone, Copy, Debug, PartialEq, Eq, Structural)]
pub enum SwapError {
    InvalidPoolParameters,
    SlippageExceeded,
    InvalidTokenAccount,
    InsufficientLiquidity,
    InvalidCalculation,
    TooEarlyToCompound,
    TooEarlyToRebalance,
    MathOverflow,
}

impl ErrorCode {
    /// The class of this failure.
    pub open spec fn kind_of(self) -> ErrorKind {
        match self {
            ErrorCode::TooFrequentUpdate => ErrorKind::CadenceViolation,
            ErrorCode::MathOverflow => ErrorKind::ArithmeticOverflow,
            ErrorCode::InvalidAuthority => ErrorKind::AuthorizationError,
            _ => ErrorKind::ValidationError,
        }
    }

    #[verifier::when_used_as_spec(kind_of)]
    pub fn kind(self) -> (k: ErrorKind)
        ensures
            k == self.kind_of(),
    {
        match self {
            ErrorCode::TooFrequentUpdate => ErrorKind::CadenceViolation,
            ErrorCode::MathOverflow => ErrorKind::ArithmeticOverflow,
            ErrorCode::InvalidAuthority => ErrorKind::AuthorizationError,
            _ => ErrorKind::ValidationError,
        }
    }
}

impl SwapError {
    /// The class of this failure.
    pub open spec fn kind_of(self) -> ErrorKind {
        match self {
            SwapError::TooEarlyToCompound => ErrorKind::CadenceViolation,
            SwapError::TooEarlyToRebalance => ErrorKind::CadenceViolation,
            SwapError::MathOverflow => ErrorKind::ArithmeticOverflow,
            SwapError::InvalidCalculation => ErrorKind::ArithmeticOverflow,
            _ => ErrorKind::ValidationError,
        }
    }

    #[verifier::when_used_as_spec(kind_of)]
    pub fn kind(self) -> (k: ErrorKind)
        ensures
            k == self.kind_of(),
    {
        match self {
            SwapError::TooEarlyToCompound => ErrorKind::CadenceViolation,
            SwapError::TooEarlyToRebalance => ErrorKind::CadenceViolation,
            SwapError::MathOverflow => ErrorKind::ArithmeticOverflow,
            SwapError::InvalidCalculation => ErrorKind::ArithmeticOverflow,
            _ => ErrorKind::ValidationError,
        }
    }
}

} // verus!
