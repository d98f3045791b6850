//! Error taxonomy of the pool engine.
//!
//! Every failure of a value-moving operation is terminal for that operation:
//! the caller sees one of these variants and no state change.

use vstd::prelude::*;

verus! {

/// Reasons a pool operation can fail.
#[derive(Clone, Copy, Debug, PartialEq, Eq, Structural)]
pub enum PoolError {
    /// A value-moving operation was attempted while the pool is inactive.
    PoolInactive,
    /// A zero or otherwise nonsensical amount was supplied.
    InvalidAmount,
    /// A withdrawal requested more shares than are outstanding.
    InsufficientSupply,
    /// The computed share or underlying amount rounds down to zero.
    InsufficientResult,
    /// A claim ticket was presented before its unbonding period passed.
    LockActive,
}

impl PoolError {
    /// The human-readable reason string attached to this failure.
    pub fn message(&self) -> (r: &'static str)
        ensures
            *self is PoolInactive ==> r@ == "Not active"@,
            *self is InvalidAmount ==> r@ == "Insufficient delegated amount"@,
            *self is InsufficientSupply ==> r@ == "Not enough LP token supply"@,
            *self is InsufficientResult ==> r@ == "Insufficient liquidity minted"@,
            *self is LockActive ==> r@ == "The unstake period has not passed"@,
    {
        match self {
            PoolError::PoolInactive => "Not active",
            PoolError::InvalidAmount => "Insufficient delegated amount",
            PoolError::InsufficientSupply => "Not enough LP token supply",
            PoolError::InsufficientResult => "Insufficient liquidity minted",
            PoolError::LockActive => "The unstake period has not passed",
        }
    }
}

} // verus!
