use anchor_lang::prelude::ProgramError;
use raydium_farm::error::ErrorCode;
use raydium_farm::instructions::withdraw_reward::{
    handle_withdraw_reward, withdraw_reward_at, withdraw_reward_with_clock, RewardTransfer,
    WithdrawReward,
};
use raydium_farm::states::farm::{Farm, RewardStream, RewardStreamStatus};

const ONE_X64: u128 = 1u128 << 64;
const AUTHORITY: [u8; 32] = [1u8; 32];
const STAKING_MINT: [u8; 32] = [2u8; 32];
const REWARD_MINT_0: [u8; 32] = [7u8; 32];
const REWARD_MINT_1: [u8; 32] = [8u8; 32];

fn stream(reward_mint: [u8; 32], open_time: i64, end_time: i64, rewards_left_x64: u128) -> RewardStream {
    RewardStream {
        reward_mint,
        reward_mint_program: [9u8; 32],
        status: RewardStreamStatus::Running,
        open_time,
        end_time,
        acc_rewards_per_base_unit_x64: 0,
        rewards_left_x64,
        emission_per_second_x64: ONE_X64,
    }
}

fn unused_stream() -> RewardStream {
    stream([0u8; 32], 0, 0, 0)
}

// A farm last updated at 3 with nothing staked: stream 0 ended at 4, stream 1
// runs until 20.
fn ctx(reward_mint: [u8; 32], vault: u64) -> WithdrawReward {
    WithdrawReward {
        authority: AUTHORITY,
        staking_mint: STAKING_MINT,
        farm: Farm {
            authority: AUTHORITY,
            staking_mint: STAKING_MINT,
            staking_mint_program: [3u8; 32],
            staked_amount: 0,
            last_updated_time: 3,
            reward_streams_count: 2,
            reward_streams: [
                stream(REWARD_MINT_0, 0, 4, 5 * ONE_X64 + 3),
                stream(REWARD_MINT_1, 2, 20, 18 * ONE_X64),
                unused_stream(),
                unused_stream(),
                unused_stream(),
            ],
            bump: 255,
        },
        reward_mint,
        reward_mint_decimals: 2,
        reward_vault_amount: vault,
    }
}

#[test]
fn withdraw_from_ended_stream_empties_it() {
    let mut c = ctx(REWARD_MINT_0, 1);
    let r = withdraw_reward_at(&mut c, 0, 10);
    assert_eq!(r, Ok(Some(RewardTransfer { amount: 1, decimals: 2 })));
    assert_eq!(c.farm.last_updated_time, 10);
    assert_eq!(c.farm.reward_streams[0].rewards_left_x64, 0);
    assert_eq!(c.farm.reward_streams[0].status, RewardStreamStatus::Ended);
    // The other stream is only brought to the block time.
    assert_eq!(c.farm.reward_streams[1].status, RewardStreamStatus::Running);
    assert_eq!(c.farm.reward_streams[1].rewards_left_x64, 18 * ONE_X64);
}

#[test]
fn withdraw_with_empty_vault_asks_no_transfer() {
    let mut c = ctx(REWARD_MINT_0, 0);
    assert_eq!(withdraw_reward_at(&mut c, 0, 10), Ok(None));
    assert_eq!(c.farm.reward_streams[0].rewards_left_x64, 0);
}

#[test]
fn withdraw_with_invalid_index_fails() {
    let mut c = ctx(REWARD_MINT_0, 1);
    assert_eq!(withdraw_reward_at(&mut c, 2, 10), Err(ErrorCode::ReferencedRewardStreamInvalid));
    assert_eq!(c.farm.last_updated_time, 3);
    assert_eq!(c.farm.reward_streams[0].rewards_left_x64, 5 * ONE_X64 + 3);
}

#[test]
fn withdraw_with_other_mint_fails() {
    let mut c = ctx(REWARD_MINT_1, 1);
    assert_eq!(withdraw_reward_at(&mut c, 0, 10), Err(ErrorCode::MismatchingAccounts));
    assert_eq!(c.farm.last_updated_time, 3);
}

#[test]
fn withdraw_from_running_stream_fails() {
    let mut c = ctx(REWARD_MINT_1, 1);
    assert_eq!(withdraw_reward_at(&mut c, 1, 10), Err(ErrorCode::RewardStreamIsRunning));
    assert_eq!(c.farm.last_updated_time, 3);
    assert_eq!(c.farm.reward_streams[1].status, RewardStreamStatus::Running);
}

#[test]
fn withdraw_at_end_time_sees_the_stream_ended() {
    let mut c = ctx(REWARD_MINT_0, 4);
    let r = withdraw_reward_at(&mut c, 0, 4);
    assert_eq!(r, Ok(Some(RewardTransfer { amount: 4, decimals: 2 })));
    assert_eq!(c.farm.reward_streams[0].status, RewardStreamStatus::Ended);
}

#[test]
fn withdraw_before_the_update_finds_running_stream() {
    // At block time 3 the farm is not updated again and stream 0 still reads
    // as running.
    let mut c = ctx(REWARD_MINT_0, 4);
    assert_eq!(withdraw_reward_at(&mut c, 0, 3), Err(ErrorCode::RewardStreamIsRunning));
}

#[test]
fn withdraw_fails_when_the_update_overflows() {
    let mut c = ctx(REWARD_MINT_0, 4);
    c.farm.staked_amount = 1;
    // Stream 0 owes one more second of emission but has less than that left.
    c.farm.reward_streams[0].rewards_left_x64 = ONE_X64 - 1;
    assert_eq!(withdraw_reward_at(&mut c, 0, 10), Err(ErrorCode::MathOverflow));
    assert_eq!(c.farm.last_updated_time, 3);
    assert_eq!(c.farm.reward_streams[0].rewards_left_x64, ONE_X64 - 1);
}

#[test]
fn withdraw_by_other_signer_fails() {
    let mut c = ctx(REWARD_MINT_0, 1);
    c.authority = [4u8; 32];
    assert_eq!(c.validate(), Err(ErrorCode::ConstraintHasOne));
    assert_eq!(handle_withdraw_reward(&mut c, 0), Err(ErrorCode::ConstraintHasOne));
    assert_eq!(c.farm.last_updated_time, 3);
}

#[test]
fn withdraw_with_other_staking_mint_fails() {
    let mut c = ctx(REWARD_MINT_0, 1);
    c.staking_mint = [5u8; 32];
    assert_eq!(c.validate(), Err(ErrorCode::ConstraintHasOne));
    assert_eq!(handle_withdraw_reward(&mut c, 0), Err(ErrorCode::ConstraintHasOne));
}

#[test]
fn handle_withdraw_without_a_runtime_clock_fails() {
    let mut c = ctx(REWARD_MINT_0, 1);
    assert_eq!(c.validate(), Ok(()));
    assert_eq!(
        handle_withdraw_reward(&mut c, 0),
        Err(ErrorCode::ClockUnavailable(u64::from(ProgramError::UnsupportedSysvar)))
    );
    assert_eq!(c.farm.reward_streams[0].rewards_left_x64, 5 * ONE_X64 + 3);
}

#[test]
fn clock_reading_decides_the_withdrawal() {
    let mut c = ctx(REWARD_MINT_0, 1);
    let code = u64::from(ProgramError::UnsupportedSysvar);
    assert_eq!(withdraw_reward_with_clock(&mut c, 0, Err(code)), Err(ErrorCode::ClockUnavailable(code)));
    assert_eq!(c.farm.last_updated_time, 3);
    assert_eq!(
        withdraw_reward_with_clock(&mut c, 0, Ok(3)),
        Err(ErrorCode::RewardStreamIsRunning)
    );
    assert_eq!(
        withdraw_reward_with_clock(&mut c, 0, Ok(10)),
        Ok(Some(RewardTransfer { amount: 1, decimals: 2 }))
    );
    assert_eq!(c.farm.reward_streams[0].rewards_left_x64, 0);
}
