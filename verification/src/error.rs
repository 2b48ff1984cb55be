//! Error taxonomy of the engine. Every failing operation aborts atomically
//! and surfaces exactly one of these codes; no partial state change survives.

use vstd::prelude::*;

verus! {

/// Why an operation was refused. Validation errors
/// (`InsufficientSolAmount`, `InsufficientTokenAmount`, `InvalidFeeConfig`,
/// `MigrationThresholdNotReached`, `AlreadyMigrated`), the authorization
/// error (`Unauthorized`), the arithmetic error (`MathOverflow`), market
/// errors (`SlippageExceeded`, `InsufficientLiquidity`) and the identity
/// error (`InvalidMint`).
#[derive(Clone, Copy, Debug, PartialEq, Eq, Structural)]
pub enum OpenClawError {
    InsufficientSolAmount,
    InsufficientTokenAmount,
    SlippageExceeded,
    AlreadyMigrated,
    MigrationThresholdNotReached,
    InvalidFeeConfig,
    Unauthorized,
    MathOverflow,
    InvalidMint,
    InsufficientLiquidity,
}

impl OpenClawError {
    /// A short human-readable description of the error.
    pub fn message(&self) -> (m: &'static str)
    {
        match self {
            OpenClawError::InsufficientSolAmount => "Insufficient SOL amount",
            OpenClawError::InsufficientTokenAmount => "Insufficient token amount",
            OpenClawError::SlippageExceeded => "Slippage tolerance exceeded",
            OpenClawError::AlreadyMigrated => "Token has already been migrated",
            OpenClawError::MigrationThresholdNotReached => "Migration threshold not reached",
            OpenClawError::InvalidFeeConfig => "Invalid fee configuration",
            OpenClawError::Unauthorized => "Unauthorized",
            OpenClawError::MathOverflow => "Math overflow",
            OpenClawError::InvalidMint => "Invalid token mint",
            OpenClawError::InsufficientLiquidity => "Curve has insufficient liquidity",
        }
    }
}

} // verus!
