use vstd::prelude::*;

verus! {

/// Every way an operation of the exchange can be refused.
///
/// An error aborts the whole operation: the functions of this crate that
/// return one leave the state they were given unchanged.
#[derive(Clone, Copy, Debug, PartialEq, Eq, Structural)]
pub enum AmmError {
    InvalidFee,
    InvalidMintAuthority,
    PoolPaused,
    ProtocolPaused,
    MathOverflow,
    SlippageExceeded,
    Unauthorized,
    NoLiquidity,
    Reentrancy,
    InvalidVaultOwner,
    InvalidVaultMint,
    InvalidDecimals,
    ZeroLpMint,
    OraclePriceMismatch,
    NoFees,
    ClaimLocked,
    GovernanceApprovalMissing,
    GovernanceNotApproved,
    GovernanceApprovalExpired,
    GovernanceApprovalTargetMismatch,
}

impl AmmError {
    /// The human-readable message for this error.
    pub fn message(&self) -> (r: &'static str) {
        match self {
            AmmError::InvalidFee => "Invalid fee",
            AmmError::InvalidMintAuthority => "Invalid mint authority",
            AmmError::PoolPaused => "Pool is paused",
            AmmError::ProtocolPaused => "Protocol is paused",
            AmmError::MathOverflow => "Math overflow",
            AmmError::SlippageExceeded => "Slippage exceeded",
            AmmError::Unauthorized => "Unauthorized",
            AmmError::NoLiquidity => "No liquidity",
            AmmError::Reentrancy => "Reentrancy detected",
            AmmError::InvalidVaultOwner => "Invalid vault owner",
            AmmError::InvalidVaultMint => "Invalid vault mint",
            AmmError::InvalidDecimals => "Invalid decimals",
            AmmError::ZeroLpMint => "Zero LP minted",
            AmmError::OraclePriceMismatch => "Oracle price mismatch",
            AmmError::NoFees => "No fees to claim",
            AmmError::ClaimLocked => "Creator claim locked",
            AmmError::GovernanceApprovalMissing => "Governance approval missing",
            AmmError::GovernanceNotApproved => "Governance not approved",
            AmmError::GovernanceApprovalExpired => "Governance approval expired",
            AmmError::GovernanceApprovalTargetMismatch => "Governance approval target mismatch",
        }
    }
}

} // verus!
