//! A token-reward and staking ledger core.
//!
//! The crate verifies the accounting state machine of a reward system: a
//! treasury funded by minted tokens, reward payouts transferred from the
//! treasury to participants, loan-keyed treasury top-ups, and per-participant
//! staking counters that accrue further minted rewards.
//!
//! The token ledger itself (mint and transfer) is an external collaborator of
//! the system; it is modelled here by plain balance records with exact
//! contracts, so that every operation's effect on supply and balances is
//! stated and proved.

mod accounts;
mod error;
mod laws;
mod ledger;
mod operations;

pub use laws::lemma_stake_deposits_accumulate;
pub use laws::lemma_staking_rewards_repeat;

pub use accounts::DistributeReward;
pub use accounts::DistributeStakingRewards;
pub use accounts::Initialize;
pub use accounts::InitializeUser;
pub use accounts::LoanAction;
pub use accounts::StakeTokens;
pub use accounts::User;
pub use error::RewardSystemError;
pub use ledger::mint_to;
pub use ledger::spec_can_mint;
pub use ledger::spec_can_transfer;
pub use ledger::spec_mint_to;
pub use ledger::spec_transfer;
pub use ledger::transfer;
pub use ledger::TokenAccount;
pub use ledger::TokenMint;
pub use operations::compute_reward;
pub use operations::distribute_reward;
pub use operations::distribute_staking_rewards;
pub use operations::initialize;
pub use operations::initialize_user;
pub use operations::loan_action;
pub use operations::mint_tokens;
pub use operations::spec_distribute_reward;
pub use operations::spec_distribute_staking_rewards;
pub use operations::spec_initialize;
pub use operations::spec_initialize_user;
pub use operations::spec_loan_action;
pub use operations::spec_reward_of;
pub use operations::spec_stake_tokens;
pub use operations::stake_tokens;
pub use operations::transfer_tokens;
