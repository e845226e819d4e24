use solswap::error::{ErrorCode, ErrorKind, SwapError};

#[test]
fn pool_failures_fall_into_their_kinds() {
    assert_eq!(ErrorCode::TooFrequentUpdate.kind(), ErrorKind::CadenceViolation);
    assert_eq!(ErrorCode::MathOverflow.kind(), ErrorKind::ArithmeticOverflow);
    assert_eq!(ErrorCode::InvalidAuthority.kind(), ErrorKind::AuthorizationError);
    for code in [
        ErrorCode::PoolNotInitialized,
        ErrorCode::InvalidLSTMint,
        ErrorCode::InvalidOracleWeights,
        ErrorCode::InvalidRiskParameters,
        ErrorCode::InvalidRiskLevel,
        ErrorCode::InvalidFeeConfig,
        ErrorCode::InvalidInsuranceParams,
        ErrorCode::InvalidValidatorState,
    ] {
        assert_eq!(code.kind(), ErrorKind::ValidationError);
    }
}

#[test]
fn swap_failures_fall_into_their_kinds() {
    assert_eq!(SwapError::TooEarlyToCompound.kind(), ErrorKind::CadenceViolation);
    assert_eq!(SwapError::TooEarlyToRebalance.kind(), ErrorKind::CadenceViolation);
    assert_eq!(SwapError::MathOverflow.kind(), ErrorKind::ArithmeticOverflow);
    assert_eq!(SwapError::InvalidCalculation.kind(), ErrorKind::ArithmeticOverflow);
    for code in [
        SwapError::InvalidPoolParameters,
        SwapError::SlippageExceeded,
        SwapError::InvalidTokenAccount,
        SwapError::InsufficientLiquidity,
    ] {
        assert_eq!(code.kind(), ErrorKind::ValidationError);
    }
}
