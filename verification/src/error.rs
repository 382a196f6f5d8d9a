//! Errors that abort an action.

use vstd::prelude::*;

verus! {

/// Every way an action can fail. None is retried internally.
#[derive(Clone, Copy, Debug, PartialEq, Eq, Structural)]
pub enum PerpetualsError {
    MathOverflow,
    InvalidOracleAccount,
    StaleOraclePrice,
    InvalidOraclePrice,
    UnsupportedOracle,
    MissingTwap,
    InvalidCustodyConfig,
    InvalidPoolConfig,
    UnknownToken,
    InsufficientCollateral,
    MaxLeverageExceeded,
    PositionNotLiquidatable,
    InsufficientFunds,
    MaxUtilization,
    RatioOutOfBounds,
    InsufficientPoolLiquidity,
    UnauthorizedSigner,
    InstructionMismatch,
    InvalidArgument,
}

} // verus!
