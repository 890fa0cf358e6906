//! Error kinds shared by every operation of the reward system.

use vstd::prelude::*;

verus! {

/// Terminal result of a failed operation. Every validation failure is
/// detected before any balance changes, and every ledger fault maps to one
/// of these kinds, so a failed operation leaves no observable state change.
#[derive(Clone, Copy, Debug, PartialEq, Eq, Structural)]
pub enum RewardSystemError {
    /// A zero amount was supplied where a positive amount is required.
    InvalidAmount,
    /// The mint primitive rejected or failed the issuance.
    MintingFailed,
    /// The transfer primitive rejected or failed the move, including an
    /// insufficient source balance.
    TransferFailed,
    /// A staking-reward request was made against a zero stake.
    NoStakedAmount,
    /// A staking deposit would exceed the representable counter range.
    Overflow,
}

impl RewardSystemError {
    /// A short description of the error, suitable for reporting to a caller.
    pub fn message(&self) -> (m: &'static str)
        ensures
            *self is InvalidAmount ==> m@ == "Invalid amount provided."@,
            *self is MintingFailed ==> m@ == "Minting of tokens failed."@,
            *self is TransferFailed ==> m@ == "Token transfer failed."@,
            *self is NoStakedAmount ==> m@ == "Staked amount cannot be zero."@,
            *self is Overflow ==> m@ == "Arithmetic overflow occurred."@,
    {
        match self {
            RewardSystemError::InvalidAmount => "Invalid amount provided.",
            RewardSystemError::MintingFailed => "Minting of tokens failed.",
            RewardSystemError::TransferFailed => "Token transfer failed.",
            RewardSystemError::NoStakedAmount => "Staked amount cannot be zero.",
            RewardSystemError::Overflow => "Arithmetic overflow occurred.",
        }
    }
}

} // verus!
