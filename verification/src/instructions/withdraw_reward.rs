use vstd::prelude::*;

use crate::clock::current_unix_timestamp;
use crate::error::ErrorCode;
use crate::keys::{keys_equal, Pubkey};
use crate::states::farm::{Farm, RewardStream, RewardStreamStatus, MAX_REWARD_STREAMS};

verus! {

/// What the withdrawal reads of its accounts: the signer, the staking mint,
/// the farm, the reward mint (its key and decimals) and the balance of the
/// farm's reward vault.
#[derive(Debug, Clone, Copy)]
pub struct WithdrawReward {
    pub authority: Pubkey,
    pub staking_mint: Pubkey,
    pub farm: Farm,
    pub reward_mint: Pubkey,
    pub reward_mint_decimals: u8,
    pub reward_vault_amount: u64,
}

/// A checked transfer of `amount` base units of a mint with `decimals`
/// decimals from the farm's reward vault to the authority's reward account.
#[derive(Debug, Clone, Copy, PartialEq, Eq, Structural)]
pub struct RewardTransfer {
    pub amount: u64,
    pub decimals: u8,
}

/// The error that the account constraints raise, if any: the signer must be
/// the farm's authority and the staking mint the farm's staking mint.
pub open spec fn constraint_error(ctx: WithdrawReward) -> Option<ErrorCode> {
    if ctx.authority@ != ctx.farm.authority@ || ctx.staking_mint@ != ctx.farm.staking_mint@ {
        Some(ErrorCode::ConstraintHasOne)
    } else {
        None
    }
}

/// The error that withdrawing from stream `idx` at block time `now` raises,
/// if any, in the order the checks run: the update of the farm, the index,
/// the reward mint, then the status of the stream after the update.
pub open spec fn withdraw_error(ctx: WithdrawReward, idx: u8, now: i64) -> Option<ErrorCode> {
    if !ctx.farm.update_defined(now) {
        Some(ErrorCode::MathOverflow)
    } else if idx >= ctx.farm.reward_streams_count {
        Some(ErrorCode::ReferencedRewardStreamInvalid)
    } else if ctx.reward_mint@ != ctx.farm.stream_after_update(idx as int, now).reward_mint@ {
        Some(ErrorCode::MismatchingAccounts)
    } else if ctx.farm.stream_after_update(idx as int, now).status != RewardStreamStatus::Ended {
        Some(ErrorCode::RewardStreamIsRunning)
    } else {
        None
    }
}

/// The transfer that a successful withdrawal asks for: the whole vault, when
/// it holds anything.
pub open spec fn withdraw_transfer(ctx: WithdrawReward) -> Option<RewardTransfer> {
    if ctx.reward_vault_amount > 0 {
        Some(RewardTransfer { amount: ctx.reward_vault_amount, decimals: ctx.reward_mint_decimals })
    } else {
        None
    }
}

/// `new` is `old` updated at `now` with the rewards left of stream `idx`
/// set to zero.
pub open spec fn withdrawn(old: Farm, new: Farm, idx: int, now: i64) -> bool {
    &&& new.authority == old.authority
    &&& new.staking_mint == old.staking_mint
    &&& new.staking_mint_program == old.staking_mint_program
    &&& new.staked_amount == old.staked_amount
    &&& new.last_updated_time == old.last_updated_after(now)
    &&& new.reward_streams_count == old.reward_streams_count
    &&& new.bump == old.bump
    &&& forall|j: int|
        0 <= j < 5 ==> #[trigger] new.reward_streams@[j] == if j == idx {
            RewardStream { rewards_left_x64: 0, ..old.stream_after_update(j, now) }
        } else {
            old.stream_after_update(j, now)
        }
}

impl WithdrawReward {
    /// Checks the account constraints: the signer is the farm's authority
    /// and the staking mint is the farm's staking mint.
    pub fn validate(&self) -> (r: Result<(), ErrorCode>)
        ensures
            r is Ok <==> constraint_error(*self) is None,
            r matches Err(e) ==> constraint_error(*self) == Some(e),
    {
        if !keys_equal(&self.authority, &self.farm.authority) {
            return Err(ErrorCode::ConstraintHasOne);
        }
        if !keys_equal(&self.staking_mint, &self.farm.staking_mint) {
            return Err(ErrorCode::ConstraintHasOne);
        }
        Ok(())
    }
}

/// Withdraws what is left of an ended reward stream at block time `now`:
/// brings the farm to `now`, checks that `reward_stream_idx` names a stream
/// in use whose mint is the reward mint handed in and that the stream has
/// ended, then zeroes the stream's rewards left and asks for the whole
/// vault to be transferred to the authority (nothing when it is empty). On
/// an error nothing changes.
pub fn withdraw_reward_at(ctx: &mut WithdrawReward, reward_stream_idx: u8, now: i64) -> (r: Result<
    Option<RewardTransfer>,
    ErrorCode,
>)
    requires
        old(ctx).farm.last_updated_time < now ==> old(ctx).farm.wf(),
        reward_stream_idx < old(ctx).farm.reward_streams_count ==> reward_stream_idx
            < MAX_REWARD_STREAMS,
    ensures
        r is Err <==> withdraw_error(*old(ctx), reward_stream_idx, now) is Some,
        r matches Err(e) ==> withdraw_error(*old(ctx), reward_stream_idx, now) == Some(e),
        r is Err ==> *final(ctx) == *old(ctx),
        r matches Ok(t) ==> t == withdraw_transfer(*old(ctx)),
        r is Ok ==> withdrawn(old(ctx).farm, final(ctx).farm, reward_stream_idx as int, now),
        final(ctx).authority == old(ctx).authority,
        final(ctx).staking_mint == old(ctx).staking_mint,
        final(ctx).reward_mint == old(ctx).reward_mint,
        final(ctx).reward_mint_decimals == old(ctx).reward_mint_decimals,
        final(ctx).reward_vault_amount == old(ctx).reward_vault_amount,
{
    let mut farm = ctx.farm;
    let ghost before = ctx.farm;
    farm.try_update_at(now)?;
    assert(before.updated_to(farm, now));
    assert(forall|j: int|
        0 <= j < 5 ==> #[trigger] farm.reward_streams@[j] == before.stream_after_update(j, now));
    if reward_stream_idx >= farm.reward_streams_count {
        return Err(ErrorCode::ReferencedRewardStreamInvalid);
    }
    let i = reward_stream_idx as usize;
    let mut stream = farm.reward_streams[i];
    if !keys_equal(&ctx.reward_mint, &stream.reward_mint) {
        return Err(ErrorCode::MismatchingAccounts);
    }
    if stream.status != RewardStreamStatus::Ended {
        return Err(ErrorCode::RewardStreamIsRunning);
    }
    let transfer = if ctx.reward_vault_amount > 0 {
        Some(RewardTransfer { amount: ctx.reward_vault_amount, decimals: ctx.reward_mint_decimals })
    } else {
        None
    };
    stream.rewards_left_x64 = 0;
    farm.reward_streams[i] = stream;
    ctx.farm = farm;
    Ok(transfer)
}

/// Withdraws at the block time of a clock reading: a failed reading (the
/// code of the clock's `ProgramError`) is passed back as `ClockUnavailable`
/// with that code and changes nothing; a block time is handled by
/// `withdraw_reward_at`.
pub fn withdraw_reward_with_clock(
    ctx: &mut WithdrawReward,
    reward_stream_idx: u8,
    clock: Result<i64, u64>,
) -> (r: Result<Option<RewardTransfer>, ErrorCode>)
    requires
        clock matches Ok(now) && old(ctx).farm.last_updated_time < now ==> old(ctx).farm.wf(),
        reward_stream_idx < old(ctx).farm.reward_streams_count ==> reward_stream_idx
            < MAX_REWARD_STREAMS,
    ensures
        clock matches Err(code) ==> r == Err::<Option<RewardTransfer>, ErrorCode>(
            ErrorCode::ClockUnavailable(code),
        ) && *final(ctx) == *old(ctx),
        clock matches Ok(now) ==> {
            &&& r is Err <==> withdraw_error(*old(ctx), reward_stream_idx, now) is Some
            &&& r matches Err(e) ==> withdraw_error(*old(ctx), reward_stream_idx, now) == Some(e)
            &&& r is Err ==> *final(ctx) == *old(ctx)
            &&& r matches Ok(t) ==> t == withdraw_transfer(*old(ctx))
            &&& r is Ok ==> withdrawn(old(ctx).farm, final(ctx).farm, reward_stream_idx as int, now)
        },
        final(ctx).authority == old(ctx).authority,
        final(ctx).staking_mint == old(ctx).staking_mint,
        final(ctx).reward_mint == old(ctx).reward_mint,
        final(ctx).reward_mint_decimals == old(ctx).reward_mint_decimals,
        final(ctx).reward_vault_amount == old(ctx).reward_vault_amount,
{
    match clock {
        Ok(now) => withdraw_reward_at(ctx, reward_stream_idx, now),
        Err(code) => Err(ErrorCode::ClockUnavailable(code)),
    }
}

/// Handles the withdrawal of what is left of an ended reward stream: checks
/// the account constraints, reads the block time from the runtime's clock
/// and withdraws at that time (see `withdraw_reward_with_clock`); a failed
/// clock read is passed back as `ClockUnavailable` with the code of the
/// clock's error. The caller performs the transfer it returns. On an error
/// nothing changes.
pub fn handle_withdraw_reward(ctx: &mut WithdrawReward, reward_stream_idx: u8) -> (r: Result<
    Option<RewardTransfer>,
    ErrorCode,
>)
    requires
        old(ctx).farm.wf(),
    ensures
        constraint_error(*old(ctx)) is Some ==> r == Err::<Option<RewardTransfer>, ErrorCode>(
            ErrorCode::ConstraintHasOne,
        ),
        r is Err ==> *final(ctx) == *old(ctx),
        r matches Ok(t) ==> t == withdraw_transfer(*old(ctx)),
        r is Ok ==> constraint_error(*old(ctx)) is None && exists|now: i64|
            #![trigger withdrawn(old(ctx).farm, final(ctx).farm, reward_stream_idx as int, now)]
            withdraw_error(*old(ctx), reward_stream_idx, now) is None && withdrawn(
                old(ctx).farm,
                final(ctx).farm,
                reward_stream_idx as int,
                now,
            ),
        r matches Err(e) ==> constraint_error(*old(ctx)) == Some(e) || e is ClockUnavailable
            || exists|now: i64|
            #![trigger withdraw_error(*old(ctx), reward_stream_idx, now)]
            withdraw_error(*old(ctx), reward_stream_idx, now) == Some(e),
        final(ctx).authority == old(ctx).authority,
        final(ctx).staking_mint == old(ctx).staking_mint,
        final(ctx).reward_mint == old(ctx).reward_mint,
        final(ctx).reward_mint_decimals == old(ctx).reward_mint_decimals,
        final(ctx).reward_vault_amount == old(ctx).reward_vault_amount,
{
    ctx.validate()?;
    let clock = current_unix_timestamp();
    let ghost before = *ctx;
    let r = withdraw_reward_with_clock(ctx, reward_stream_idx, clock);
    proof {
        if let Ok(now) = clock {
            assert(r is Ok ==> withdrawn(before.farm, ctx.farm, reward_stream_idx as int, now));
            assert(r is Err ==> withdraw_error(before, reward_stream_idx, now) == Some(r->Err_0));
        }
    }
    r
}
} // verus!
