//! Laws of the reward system that relate several operations, stated over
//! the operations' spec functions and proved once for all inputs.

use vstd::prelude::*;

use crate::accounts::DistributeStakingRewards;
use crate::accounts::StakeTokens;
use crate::error::RewardSystemError;
use crate::operations::spec_distribute_staking_rewards;
use crate::operations::spec_reward_of;
use crate::operations::spec_stake_tokens;

verus! {

/// Staking deposits accumulate: two successive positive deposits whose sum
/// stays representable both succeed, and together they raise the staked
/// counter by exactly their sum.
pub proof fn lemma_stake_deposits_accumulate(ctx: StakeTokens, a: u64, b: u64)
    requires
        a > 0,
        b > 0,
        ctx.user.staked_amount + a + b <= u64::MAX,
    ensures
        ({
            let first = spec_stake_tokens(ctx, a);
            let second = spec_stake_tokens(first.1, b);
            first.0 == Ok::<(), RewardSystemError>(()) && second.0 == Ok::<
                (),
                RewardSystemError,
            >(()) && second.1.user.staked_amount == ctx.user.staked_amount + a + b
        }),
{
}

/// An unchanged stake earns the same reward again: a staking-reward payout
/// never reduces or marks the staked counter, so a payout made right after
/// another one succeeds and mints the same amount once more, leaving the
/// participant's balance exactly two rewards higher.
pub proof fn lemma_staking_rewards_repeat(ctx: DistributeStakingRewards)
    requires
        ctx.user.staked_amount > 0,
        ctx.mint.supply + 2 * spec_reward_of(ctx.user.staked_amount) <= u64::MAX,
        ctx.user_account.amount + 2 * spec_reward_of(ctx.user.staked_amount) <= u64::MAX,
    ensures
        ({
            let first = spec_distribute_staking_rewards(ctx);
            let second = spec_distribute_staking_rewards(first.1);
            first.0 == Ok::<(), RewardSystemError>(()) && second.0 == Ok::<
                (),
                RewardSystemError,
            >(()) && first.1.user.staked_amount == ctx.user.staked_amount
                && second.1.user.staked_amount == ctx.user.staked_amount
                && second.1.user_account.amount == ctx.user_account.amount + 2 * spec_reward_of(
                ctx.user.staked_amount,
            ) && second.1.mint.supply == ctx.mint.supply + 2 * spec_reward_of(
                ctx.user.staked_amount,
            )
        }),
{
}

} // verus!
