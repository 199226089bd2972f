use vstd::prelude::*;

use crate::error::ErrorCode;
use crate::instructions::withdraw_reward::{constraint_error, withdraw_error, WithdrawReward};
use crate::states::farm::{updated_stream, RewardStreamStatus};

verus! {

/// The account constraints of a withdrawal are exactly the two `has_one`
/// checks: they pass when the signer is the farm's authority and the staking
/// mint is the farm's staking mint, and otherwise fail with
/// `ConstraintHasOne`. The reward mint and the vault play no part: two
/// withdrawals that differ only in those meet the same verdict.
pub proof fn law_constraints_are_the_has_one_checks(ctx: WithdrawReward, other: WithdrawReward)
    requires
        other.authority == ctx.authority,
        other.staking_mint == ctx.staking_mint,
        other.farm == ctx.farm,
    ensures
        constraint_error(ctx) is None <==> (ctx.authority@ == ctx.farm.authority@
            && ctx.staking_mint@ == ctx.farm.staking_mint@),
        constraint_error(ctx) is Some ==> constraint_error(ctx) == Some(ErrorCode::ConstraintHasOne),
        constraint_error(other) == constraint_error(ctx),
{
}

/// A withdrawal at a block time later than the farm's last update succeeds
/// exactly when the update runs without overflow, the index names a stream
/// in use whose mint is the reward mint handed in, and that stream has both
/// opened and ended by the block time (`open_time <= now` and
/// `end_time <= now`). A stream that has not opened yet, or is still
/// running, is refused with `RewardStreamIsRunning`. At a block time not
/// later than the last update the farm is not updated, and the stream's
/// recorded status must be `Ended`.
pub proof fn law_withdraw_only_from_ended_stream(ctx: WithdrawReward, idx: u8, now: i64)
    requires
        ctx.farm.wf(),
        idx < ctx.farm.reward_streams_count,
    ensures
        ctx.farm.last_updated_time < now ==> (withdraw_error(ctx, idx, now) is None <==> {
            &&& ctx.farm.update_defined(now)
            &&& ctx.reward_mint@ == ctx.farm.reward_streams@[idx as int].reward_mint@
            &&& ctx.farm.reward_streams@[idx as int].open_time <= now
            &&& ctx.farm.reward_streams@[idx as int].end_time <= now
        }),
        ctx.farm.last_updated_time < now && ctx.farm.update_defined(now) && ctx.reward_mint@
            == ctx.farm.reward_streams@[idx as int].reward_mint@ && (now
            < ctx.farm.reward_streams@[idx as int].open_time || now
            < ctx.farm.reward_streams@[idx as int].end_time) ==> withdraw_error(ctx, idx, now)
            == Some(ErrorCode::RewardStreamIsRunning),
        now <= ctx.farm.last_updated_time ==> (withdraw_error(ctx, idx, now) is None <==> {
            &&& ctx.reward_mint@ == ctx.farm.reward_streams@[idx as int].reward_mint@
            &&& ctx.farm.reward_streams@[idx as int].status == RewardStreamStatus::Ended
        }),
{
    if ctx.farm.last_updated_time < now {
        let s = ctx.farm.reward_streams@[idx as int];
        let u = updated_stream(s, ctx.farm.last_updated_time, now, ctx.farm.staked_amount);
        assert(ctx.farm.stream_after_update(idx as int, now) == u);
        assert(u.reward_mint == s.reward_mint);
    }
}

} // verus!
