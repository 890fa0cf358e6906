use reward_system::distribute_reward;
use reward_system::distribute_staking_rewards;
use reward_system::initialize;
use reward_system::initialize_user;
use reward_system::loan_action;
use reward_system::stake_tokens;
use reward_system::DistributeReward;
use reward_system::DistributeStakingRewards;
use reward_system::Initialize;
use reward_system::InitializeUser;
use reward_system::LoanAction;
use reward_system::RewardSystemError;
use reward_system::StakeTokens;
use reward_system::TokenAccount;
use reward_system::TokenMint;
use reward_system::User;

fn fresh_treasury() -> Initialize {
    Initialize { mint: TokenMint { supply: 0 }, reward_account: TokenAccount { amount: 0 } }
}

#[test]
fn initialize_zero_amount_is_rejected() {
    let mut ctx = fresh_treasury();
    let r = initialize(&mut ctx, 0);
    assert_eq!(r, Err(RewardSystemError::InvalidAmount));
    assert_eq!(ctx.reward_account.amount, 0);
    assert_eq!(ctx.mint.supply, 0);
}

#[test]
fn initialize_mints_the_initial_supply() {
    let mut ctx = fresh_treasury();
    let r = initialize(&mut ctx, 1000);
    assert_eq!(r, Ok(()));
    assert_eq!(ctx.reward_account.amount, 1000);
    assert_eq!(ctx.mint.supply, 1000);
}

#[test]
fn initialize_surfaces_a_mint_fault() {
    let mut ctx = fresh_treasury();
    assert_eq!(initialize(&mut ctx, u64::MAX), Ok(()));
    let r = initialize(&mut ctx, 1);
    assert_eq!(r, Err(RewardSystemError::MintingFailed));
    assert_eq!(ctx.reward_account.amount, u64::MAX);
    assert_eq!(ctx.mint.supply, u64::MAX);
}

#[test]
fn distribute_reward_zero_amount_is_rejected() {
    let mut ctx = DistributeReward {
        reward_account: TokenAccount { amount: 100 },
        user_account: TokenAccount { amount: 0 },
    };
    let r = distribute_reward(&mut ctx, 0);
    assert_eq!(r, Err(RewardSystemError::InvalidAmount));
    assert_eq!(ctx.reward_account.amount, 100);
    assert_eq!(ctx.user_account.amount, 0);
}

#[test]
fn distribute_reward_moves_tokens_from_the_treasury() {
    let mut ctx = DistributeReward {
        reward_account: TokenAccount { amount: 100 },
        user_account: TokenAccount { amount: 7 },
    };
    let r = distribute_reward(&mut ctx, 40);
    assert_eq!(r, Ok(()));
    assert_eq!(ctx.reward_account.amount, 60);
    assert_eq!(ctx.user_account.amount, 47);
}

#[test]
fn distribute_reward_beyond_the_treasury_fails_and_changes_nothing() {
    let mut ctx = DistributeReward {
        reward_account: TokenAccount { amount: 100 },
        user_account: TokenAccount { amount: 7 },
    };
    let r = distribute_reward(&mut ctx, 101);
    assert_eq!(r, Err(RewardSystemError::TransferFailed));
    assert_eq!(ctx.reward_account.amount, 100);
    assert_eq!(ctx.user_account.amount, 7);
}

#[test]
fn loan_action_mints_a_tenth_of_the_loan() {
    let mut ctx = LoanAction {
        reward_account: TokenAccount { amount: 0 },
        mint: TokenMint { supply: 0 },
    };
    let r = loan_action(&mut ctx, 100);
    assert_eq!(r, Ok(()));
    assert_eq!(ctx.reward_account.amount, 10);
    assert_eq!(ctx.mint.supply, 10);
}

#[test]
fn loan_action_under_ten_mints_nothing_and_succeeds() {
    let mut ctx = LoanAction {
        reward_account: TokenAccount { amount: 3 },
        mint: TokenMint { supply: 3 },
    };
    let r = loan_action(&mut ctx, 5);
    assert_eq!(r, Ok(()));
    assert_eq!(ctx.reward_account.amount, 3);
    assert_eq!(ctx.mint.supply, 3);
}

#[test]
fn loan_action_zero_amount_is_rejected() {
    let mut ctx = LoanAction {
        reward_account: TokenAccount { amount: 3 },
        mint: TokenMint { supply: 3 },
    };
    let r = loan_action(&mut ctx, 0);
    assert_eq!(r, Err(RewardSystemError::InvalidAmount));
    assert_eq!(ctx.reward_account.amount, 3);
}

#[test]
fn loan_action_surfaces_a_mint_fault() {
    let mut ctx = LoanAction {
        reward_account: TokenAccount { amount: 0 },
        mint: TokenMint { supply: u64::MAX - 5 },
    };
    let r = loan_action(&mut ctx, 100);
    assert_eq!(r, Err(RewardSystemError::MintingFailed));
    assert_eq!(ctx.reward_account.amount, 0);
    assert_eq!(ctx.mint.supply, u64::MAX - 5);
}

#[test]
fn stake_tokens_accumulates_deposits() {
    let mut ctx = StakeTokens { user: User { staked_amount: 0 } };
    assert_eq!(stake_tokens(&mut ctx, 50), Ok(()));
    assert_eq!(stake_tokens(&mut ctx, 30), Ok(()));
    assert_eq!(ctx.user.staked_amount, 80);
}

#[test]
fn stake_tokens_zero_amount_is_rejected() {
    let mut ctx = StakeTokens { user: User { staked_amount: 5 } };
    let r = stake_tokens(&mut ctx, 0);
    assert_eq!(r, Err(RewardSystemError::InvalidAmount));
    assert_eq!(ctx.user.staked_amount, 5);
}

#[test]
fn stake_tokens_past_the_maximum_fails_and_keeps_the_counter() {
    let mut ctx = StakeTokens { user: User { staked_amount: u64::MAX - 10 } };
    let r = stake_tokens(&mut ctx, 11);
    assert_eq!(r, Err(RewardSystemError::Overflow));
    assert_eq!(ctx.user.staked_amount, u64::MAX - 10);
    assert_eq!(stake_tokens(&mut ctx, 10), Ok(()));
    assert_eq!(ctx.user.staked_amount, u64::MAX);
}

#[test]
fn staking_rewards_on_a_zero_stake_are_rejected() {
    let mut ctx = DistributeStakingRewards {
        user: User { staked_amount: 0 },
        mint: TokenMint { supply: 0 },
        user_account: TokenAccount { amount: 0 },
    };
    let r = distribute_staking_rewards(&mut ctx);
    assert_eq!(r, Err(RewardSystemError::NoStakedAmount));
    assert_eq!(ctx.user_account.amount, 0);
    assert_eq!(ctx.mint.supply, 0);
}

#[test]
fn staking_rewards_mint_a_tenth_and_keep_the_stake() {
    let mut ctx = DistributeStakingRewards {
        user: User { staked_amount: 100 },
        mint: TokenMint { supply: 100 },
        user_account: TokenAccount { amount: 0 },
    };
    assert_eq!(distribute_staking_rewards(&mut ctx), Ok(()));
    assert_eq!(ctx.user_account.amount, 10);
    assert_eq!(ctx.user.staked_amount, 100);
    assert_eq!(ctx.mint.supply, 110);
    // the stake is never reset, so a second call mints another tenth
    assert_eq!(distribute_staking_rewards(&mut ctx), Ok(()));
    assert_eq!(ctx.user_account.amount, 20);
    assert_eq!(ctx.user.staked_amount, 100);
    assert_eq!(ctx.mint.supply, 120);
}

#[test]
fn staking_rewards_surface_a_mint_fault() {
    let mut ctx = DistributeStakingRewards {
        user: User { staked_amount: 100 },
        mint: TokenMint { supply: 0 },
        user_account: TokenAccount { amount: u64::MAX - 5 },
    };
    let r = distribute_staking_rewards(&mut ctx);
    assert_eq!(r, Err(RewardSystemError::MintingFailed));
    assert_eq!(ctx.user_account.amount, u64::MAX - 5);
    assert_eq!(ctx.user.staked_amount, 100);
    assert_eq!(ctx.mint.supply, 0);
}

#[test]
fn initialize_user_starts_with_a_zero_stake() {
    let mut ctx = InitializeUser { user: User { staked_amount: 77 } };
    assert_eq!(initialize_user(&mut ctx), Ok(()));
    assert_eq!(ctx.user.staked_amount, 0);
}
