//! The accounts each operation declares and may touch.
//!
//! One operation reads and writes exactly the records named by its context
//! struct; the execution environment supplies them, checks the caller's
//! authorization, and commits the transition atomically. Authorization is
//! therefore an ambient precondition of the environment, not a field the
//! core computes with, and the storage allocation behind a fresh record is
//! the environment's job too: a context only carries the logical values.

use vstd::prelude::*;

use crate::ledger::TokenAccount;
use crate::ledger::TokenMint;

verus! {

/// One participant's ledger entry: the counter of tokens they have staked.
/// Created once per participant with a zero counter; only staking deposits
/// ever change it, by overflow-checked increments.
#[derive(Clone, Copy, Debug, PartialEq, Eq, Structural)]
pub struct User {
    pub staked_amount: u64,
}

/// Accounts of treasury initialization: the freshly created mint and the
/// freshly created treasury balance that receives the initial supply.
#[derive(Clone, Copy, Debug, PartialEq, Eq, Structural)]
pub struct Initialize {
    pub mint: TokenMint,
    pub reward_account: TokenAccount,
}

/// Accounts of participant initialization: the freshly allocated ledger
/// entry whose counter the operation sets to zero.
#[derive(Clone, Copy, Debug, PartialEq, Eq, Structural)]
pub struct InitializeUser {
    pub user: User,
}

/// Accounts of a reward payout: the treasury balance paying out and the
/// participant balance receiving.
#[derive(Clone, Copy, Debug, PartialEq, Eq, Structural)]
pub struct DistributeReward {
    pub reward_account: TokenAccount,
    pub user_account: TokenAccount,
}

/// Accounts of a loan-keyed treasury top-up: the mint issuing the reward
/// and the treasury balance receiving it.
#[derive(Clone, Copy, Debug, PartialEq, Eq, Structural)]
pub struct LoanAction {
    pub reward_account: TokenAccount,
    pub mint: TokenMint,
}

/// Accounts of a staking deposit: the participant's ledger entry.
#[derive(Clone, Copy, Debug, PartialEq, Eq, Structural)]
pub struct StakeTokens {
    pub user: User,
}

/// Accounts of a staking-reward payout: the participant's ledger entry the
/// reward is computed from, the mint issuing the reward, and the
/// participant balance receiving it.
#[derive(Clone, Copy, Debug, PartialEq, Eq, Structural)]
pub struct DistributeStakingRewards {
    pub user: User,
    pub mint: TokenMint,
    pub user_account: TokenAccount,
}

} // verus!
