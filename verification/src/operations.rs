//! The operations of the reward system.
//!
//! Each operation is one atomic transition over the accounts its context
//! names: it validates its inputs, computes any derived amount, issues zero
//! or one ledger calls, and commits. A validation failure or a ledger fault
//! aborts the operation with the corresponding error kind and no observable
//! state change. Each operation's whole effect is given by a spec function
//! of the same name, which the executable function is proved to realize.

use vstd::prelude::*;

use crate::accounts::DistributeReward;
use crate::accounts::DistributeStakingRewards;
use crate::accounts::Initialize;
use crate::accounts::InitializeUser;
use crate::accounts::LoanAction;
use crate::accounts::StakeTokens;
use crate::accounts::User;
use crate::error::RewardSystemError;
use crate::ledger::spec_can_mint;
use crate::ledger::spec_can_transfer;
use crate::ledger::spec_mint_to;
use crate::ledger::spec_transfer;
use crate::ledger::TokenAccount;
use crate::ledger::TokenMint;

verus! {

/// The reward rate: a reward is one tenth of its base amount, rounded down
/// to a whole number of tokens; the remainder is discarded.
pub open spec fn spec_reward_of(amount: u64) -> u64 {
    amount / 10
}

/// Computes the reward earned by `amount` at the system's flat 10% rate,
/// rounded down; used both for loan-keyed top-ups and staking payouts.
pub fn compute_reward(amount: u64) -> (r: u64)
    ensures
        r == spec_reward_of(amount),
{
    amount / 10
}

/// Issues `amount` new tokens into `to` and maps a ledger fault to
/// `MintingFailed`; on failure both records are left unchanged.
pub fn mint_tokens(mint: &mut TokenMint, to: &mut TokenAccount, amount: u64) -> (r: Result<
    (),
    RewardSystemError,
>)
    ensures
        r is Ok <==> spec_can_mint(*old(mint), *old(to), amount),
        r is Ok ==> r == Ok::<(), RewardSystemError>(()),
        r is Ok ==> final(mint).supply == old(mint).supply + amount,
        r is Ok ==> final(to).amount == old(to).amount + amount,
        r is Err ==> r == Err::<(), RewardSystemError>(RewardSystemError::MintingFailed),
        r is Err ==> *final(mint) == *old(mint) && *final(to) == *old(to),
{
    if crate::ledger::mint_to(mint, to, amount) {
        Ok(())
    } else {
        Err(RewardSystemError::MintingFailed)
    }
}

/// Moves `amount` tokens from `from` to `to` and maps a ledger fault to
/// `TransferFailed`; on failure both records are left unchanged.
pub fn transfer_tokens(from: &mut TokenAccount, to: &mut TokenAccount, amount: u64) -> (r: Result<
    (),
    RewardSystemError,
>)
    ensures
        r is Ok <==> spec_can_transfer(*old(from), *old(to), amount),
        r is Ok ==> r == Ok::<(), RewardSystemError>(()),
        r is Ok ==> final(from).amount == old(from).amount - amount,
        r is Ok ==> final(to).amount == old(to).amount + amount,
        r is Err ==> r == Err::<(), RewardSystemError>(RewardSystemError::TransferFailed),
        r is Err ==> *final(from) == *old(from) && *final(to) == *old(to),
{
    if crate::ledger::transfer(from, to, amount) {
        Ok(())
    } else {
        Err(RewardSystemError::TransferFailed)
    }
}

/// The whole effect of `initialize`.
pub open spec fn spec_initialize(ctx: Initialize, amount: u64) -> (
    Result<(), RewardSystemError>,
    Initialize,
) {
    if amount == 0 {
        (Err(RewardSystemError::InvalidAmount), ctx)
    } else {
        let minted = spec_mint_to(ctx.mint, ctx.reward_account, amount);
        if minted.0 {
            (Ok(()), (Initialize { mint: minted.1, reward_account: minted.2 }))
        } else {
            (Err(RewardSystemError::MintingFailed), ctx)
        }
    }
}

/// Initializes the reward treasury by minting the initial supply of
/// `amount` tokens into it. A zero amount is rejected before any state
/// change; a mint fault surfaces as `MintingFailed` and changes nothing.
pub fn initialize(ctx: &mut Initialize, amount: u64) -> (r: Result<(), RewardSystemError>)
    ensures
        (r, *final(ctx)) == spec_initialize(*old(ctx), amount),
        amount == 0 ==> r == Err::<(), RewardSystemError>(RewardSystemError::InvalidAmount),
        amount > 0 && !spec_can_mint(old(ctx).mint, old(ctx).reward_account, amount) ==> r
            == Err::<(), RewardSystemError>(RewardSystemError::MintingFailed),
        r is Ok <==> amount > 0 && spec_can_mint(old(ctx).mint, old(ctx).reward_account, amount),
        r is Ok ==> final(ctx).reward_account.amount == old(ctx).reward_account.amount + amount,
        r is Ok ==> final(ctx).mint.supply == old(ctx).mint.supply + amount,
        r is Err ==> *final(ctx) == *old(ctx),
{
    if amount == 0 {
        return Err(RewardSystemError::InvalidAmount);
    }
    mint_tokens(&mut ctx.mint, &mut ctx.reward_account, amount)
}

/// The whole effect of `distribute_reward`.
pub open spec fn spec_distribute_reward(ctx: DistributeReward, amount: u64) -> (
    Result<(), RewardSystemError>,
    DistributeReward,
) {
    if amount == 0 {
        (Err(RewardSystemError::InvalidAmount), ctx)
    } else {
        let moved = spec_transfer(ctx.reward_account, ctx.user_account, amount);
        if moved.0 {
            (Ok(()), (DistributeReward { reward_account: moved.1, user_account: moved.2 }))
        } else {
            (Err(RewardSystemError::TransferFailed), ctx)
        }
    }
}

/// Pays a reward of `amount` tokens out of the treasury into the
/// participant's balance. A zero amount is rejected; an insufficient
/// treasury or any transfer fault surfaces as `TransferFailed` and changes
/// nothing. A payout only moves tokens: it never creates any, so the two
/// balances' sum is preserved whatever the outcome.
pub fn distribute_reward(ctx: &mut DistributeReward, amount: u64) -> (r: Result<
    (),
    RewardSystemError,
>)
    ensures
        (r, *final(ctx)) == spec_distribute_reward(*old(ctx), amount),
        amount == 0 ==> r == Err::<(), RewardSystemError>(RewardSystemError::InvalidAmount),
        amount > old(ctx).reward_account.amount ==> r == Err::<(), RewardSystemError>(
            RewardSystemError::TransferFailed,
        ),
        r is Ok <==> amount > 0 && spec_can_transfer(
            old(ctx).reward_account,
            old(ctx).user_account,
            amount,
        ),
        r is Ok ==> final(ctx).reward_account.amount == old(ctx).reward_account.amount - amount
            && final(ctx).user_account.amount == old(ctx).user_account.amount + amount,
        final(ctx).reward_account.amount + final(ctx).user_account.amount == old(ctx)
            .reward_account.amount + old(ctx).user_account.amount,
        r is Err ==> *final(ctx) == *old(ctx),
{
    if amount == 0 {
        return Err(RewardSystemError::InvalidAmount);
    }
    transfer_tokens(&mut ctx.reward_account, &mut ctx.user_account, amount)
}

/// The whole effect of `loan_action`.
pub open spec fn spec_loan_action(ctx: LoanAction, loan_amount: u64) -> (
    Result<(), RewardSystemError>,
    LoanAction,
) {
    if loan_amount == 0 {
        (Err(RewardSystemError::InvalidAmount), ctx)
    } else {
        let minted = spec_mint_to(ctx.mint, ctx.reward_account, spec_reward_of(loan_amount));
        if minted.0 {
            (Ok(()), (LoanAction { reward_account: minted.2, mint: minted.1 }))
        } else {
            (Err(RewardSystemError::MintingFailed), ctx)
        }
    }
}

/// Records a loan of `loan_amount` and tops the treasury up by minting the
/// earned reward, one tenth of the loan rounded down, into it. A zero loan
/// is rejected; a loan under ten tokens earns a zero reward, whose mint is
/// still attempted and its outcome obeyed. A mint fault surfaces as
/// `MintingFailed` and changes nothing.
pub fn loan_action(ctx: &mut LoanAction, loan_amount: u64) -> (r: Result<(), RewardSystemError>)
    ensures
        (r, *final(ctx)) == spec_loan_action(*old(ctx), loan_amount),
        loan_amount == 0 ==> r == Err::<(), RewardSystemError>(RewardSystemError::InvalidAmount),
        loan_amount > 0 && !spec_can_mint(
            old(ctx).mint,
            old(ctx).reward_account,
            spec_reward_of(loan_amount),
        ) ==> r == Err::<(), RewardSystemError>(RewardSystemError::MintingFailed),
        r is Ok <==> loan_amount > 0 && spec_can_mint(
            old(ctx).mint,
            old(ctx).reward_account,
            spec_reward_of(loan_amount),
        ),
        r is Ok ==> final(ctx).reward_account.amount == old(ctx).reward_account.amount
            + spec_reward_of(loan_amount),
        r is Ok ==> final(ctx).mint.supply == old(ctx).mint.supply + spec_reward_of(loan_amount),
        r is Err ==> *final(ctx) == *old(ctx),
{
    if loan_amount == 0 {
        return Err(RewardSystemError::InvalidAmount);
    }
    let reward = compute_reward(loan_amount);
    mint_tokens(&mut ctx.mint, &mut ctx.reward_account, reward)
}

/// The whole effect of `stake_tokens`.
pub open spec fn spec_stake_tokens(ctx: StakeTokens, stake_amount: u64) -> (
    Result<(), RewardSystemError>,
    StakeTokens,
) {
    if stake_amount == 0 {
        (Err(RewardSystemError::InvalidAmount), ctx)
    } else if ctx.user.staked_amount + stake_amount > u64::MAX {
        (Err(RewardSystemError::Overflow), ctx)
    } else {
        (
            Ok(()),
            (StakeTokens {
                user: User { staked_amount: (ctx.user.staked_amount + stake_amount) as u64 },
            }),
        )
    }
}

/// Deposits a stake: adds `stake_amount` to the participant's staked
/// counter with overflow-checked addition. A zero amount is rejected; an
/// addition that would exceed the representable range fails with `Overflow`
/// and leaves the counter at its prior value. No ledger call is issued.
pub fn stake_tokens(ctx: &mut StakeTokens, stake_amount: u64) -> (r: Result<
    (),
    RewardSystemError,
>)
    ensures
        (r, *final(ctx)) == spec_stake_tokens(*old(ctx), stake_amount),
        stake_amount == 0 ==> r == Err::<(), RewardSystemError>(RewardSystemError::InvalidAmount),
        stake_amount > 0 && old(ctx).user.staked_amount + stake_amount > u64::MAX ==> r == Err::<
            (),
            RewardSystemError,
        >(RewardSystemError::Overflow),
        r is Ok <==> stake_amount > 0 && old(ctx).user.staked_amount + stake_amount <= u64::MAX,
        r is Ok ==> final(ctx).user.staked_amount == old(ctx).user.staked_amount + stake_amount,
        r is Err ==> *final(ctx) == *old(ctx),
{
    if stake_amount == 0 {
        return Err(RewardSystemError::InvalidAmount);
    }
    match ctx.user.staked_amount.checked_add(stake_amount) {
        Some(staked) => {
            ctx.user.staked_amount = staked;
            Ok(())
        },
        None => Err(RewardSystemError::Overflow),
    }
}

/// The whole effect of `distribute_staking_rewards`.
pub open spec fn spec_distribute_staking_rewards(ctx: DistributeStakingRewards) -> (
    Result<(), RewardSystemError>,
    DistributeStakingRewards,
) {
    if ctx.user.staked_amount == 0 {
        (Err(RewardSystemError::NoStakedAmount), ctx)
    } else {
        let minted = spec_mint_to(ctx.mint, ctx.user_account, spec_reward_of(ctx.user.staked_amount));
        if minted.0 {
            (
                Ok(()),
                (DistributeStakingRewards { user: ctx.user, mint: minted.1, user_account: minted.2 }),
            )
        } else {
            (Err(RewardSystemError::MintingFailed), ctx)
        }
    }
}

/// Pays a staking reward: mints one tenth of the participant's staked
/// counter, rounded down, directly into the participant's balance. A zero
/// stake is rejected with `NoStakedAmount`; a mint fault surfaces as
/// `MintingFailed` and changes nothing. The staked counter itself is never
/// reduced or marked claimed, so an unchanged stake earns the same reward
/// on every call.
pub fn distribute_staking_rewards(ctx: &mut DistributeStakingRewards) -> (r: Result<
    (),
    RewardSystemError,
>)
    ensures
        (r, *final(ctx)) == spec_distribute_staking_rewards(*old(ctx)),
        old(ctx).user.staked_amount == 0 ==> r == Err::<(), RewardSystemError>(
            RewardSystemError::NoStakedAmount,
        ),
        old(ctx).user.staked_amount > 0 && !spec_can_mint(
            old(ctx).mint,
            old(ctx).user_account,
            spec_reward_of(old(ctx).user.staked_amount),
        ) ==> r == Err::<(), RewardSystemError>(RewardSystemError::MintingFailed),
        r is Ok <==> old(ctx).user.staked_amount > 0 && spec_can_mint(
            old(ctx).mint,
            old(ctx).user_account,
            spec_reward_of(old(ctx).user.staked_amount),
        ),
        r is Ok ==> final(ctx).user_account.amount == old(ctx).user_account.amount + spec_reward_of(
            old(ctx).user.staked_amount,
        ),
        r is Ok ==> final(ctx).mint.supply == old(ctx).mint.supply + spec_reward_of(
            old(ctx).user.staked_amount,
        ),
        final(ctx).user.staked_amount == old(ctx).user.staked_amount,
        r is Err ==> *final(ctx) == *old(ctx),
{
    if ctx.user.staked_amount == 0 {
        return Err(RewardSystemError::NoStakedAmount);
    }
    let reward = compute_reward(ctx.user.staked_amount);
    mint_tokens(&mut ctx.mint, &mut ctx.user_account, reward)
}

/// The whole effect of `initialize_user`.
pub open spec fn spec_initialize_user(ctx: InitializeUser) -> (
    Result<(), RewardSystemError>,
    InitializeUser,
) {
    (Ok(()), (InitializeUser { user: User { staked_amount: 0 } }))
}

/// Initializes a participant's ledger entry with a zero staked counter.
/// Whether an entry already exists for the identity is the storage layer's
/// check, made before this logic runs; the operation itself always
/// succeeds.
pub fn initialize_user(ctx: &mut InitializeUser) -> (r: Result<(), RewardSystemError>)
    ensures
        (r, *final(ctx)) == spec_initialize_user(*old(ctx)),
        r is Ok,
        final(ctx).user.staked_amount == 0,
{
    ctx.user.staked_amount = 0;
    Ok(())
}

} // verus!
