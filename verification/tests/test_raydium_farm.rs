use raydium_farm::error::ErrorCode;
use raydium_farm::instructions::withdraw_reward::{withdraw_reward_at, RewardTransfer, WithdrawReward};
use raydium_farm::states::farm::{Farm, RewardStream, RewardStreamStatus};

// The farm's side of a run of the farm program: a farm is created at t = 0
// with one stream, stakers come and go (which changes `staked_amount`), a
// second stream is added, streams are restarted, and finally the creator
// withdraws what is left. Each instruction first brings the farm to its
// block time; the staking, adding and restarting themselves are done by
// other instructions and are replayed here by setting the farm's fields.

const YASH: [u8; 32] = [1u8; 32];
const STAKING_MINT: [u8; 32] = [2u8; 32];
const REWARD_0_MINT: [u8; 32] = [3u8; 32];
const REWARD_1_MINT: [u8; 32] = [4u8; 32];
const TOKEN_PROGRAM: [u8; 32] = [5u8; 32];

fn x64(tokens: u128) -> u128 {
    tokens.checked_shl(64).unwrap()
}

fn new_stream(reward_mint: [u8; 32], open_time: i64, end_time: i64, emission_per_second_x64: u128, rewards_left_x64: u128) -> RewardStream {
    RewardStream {
        reward_mint,
        reward_mint_program: TOKEN_PROGRAM,
        status: RewardStreamStatus::Unused,
        open_time,
        end_time,
        acc_rewards_per_base_unit_x64: 0,
        rewards_left_x64,
        emission_per_second_x64,
    }
}

#[test]
fn test_raydium_farm() {
    // t = 0: a farm with one stream of 20111 tokens per 2 seconds, open at 0,
    // its end extended from 3 to 4 and funded with 40222 tokens.
    let emission_per_second_x64 = 20111u128.checked_shl(64).unwrap().checked_div(2).unwrap();
    let mut farm = Farm {
        authority: YASH,
        staking_mint: STAKING_MINT,
        staking_mint_program: TOKEN_PROGRAM,
        staked_amount: 0,
        last_updated_time: 0,
        reward_streams_count: 1,
        reward_streams: [
            new_stream(REWARD_0_MINT, 0, 4, emission_per_second_x64, x64(40222)),
            new_stream([0u8; 32], 0, 0, 0, 0),
            new_stream([0u8; 32], 0, 0, 0, 0),
            new_stream([0u8; 32], 0, 0, 0, 0),
            new_stream([0u8; 32], 0, 0, 0, 0),
        ],
        bump: 253,
    };
    farm.update_at(0);
    farm.reward_streams[0].status = RewardStreamStatus::Running;
    // Alice stakes 1.
    farm.staked_amount = 1;

    // t = 1: Alice harvests.
    farm.update_at(1);
    assert_eq!(farm.last_updated_time, 1);
    let s0 = farm.reward_streams[0];
    assert_eq!(s0.status, RewardStreamStatus::Running);
    assert_eq!(s0.acc_rewards_per_base_unit_x64, 100555u128.checked_shl(64).unwrap().checked_div(10).unwrap());
    assert_eq!(s0.rewards_left_x64, 301665u128.checked_shl(64).unwrap().checked_div(10).unwrap());

    // t = 2: Alice harvests, then Alice stakes 2 more and Bob stakes 1.
    farm.update_at(2);
    assert_eq!(farm.last_updated_time, 2);
    assert_eq!(farm.reward_streams[0].acc_rewards_per_base_unit_x64, x64(20111));
    assert_eq!(farm.reward_streams[0].rewards_left_x64, x64(20111));
    farm.update_at(2);
    farm.staked_amount += 2;
    farm.update_at(2);
    farm.staked_amount += 1;
    assert_eq!(farm.staked_amount, 4);
    assert_eq!(farm.reward_streams[0].acc_rewards_per_base_unit_x64, x64(20111));

    // t = 3: Alice unstakes her 3, Bob harvests; a second stream of 1 token
    // per second (6 decimals) is added for 5..8 and funded with 3 tokens.
    farm.update_at(3);
    assert_eq!(farm.last_updated_time, 3);
    assert_eq!(
        farm.reward_streams[0].acc_rewards_per_base_unit_x64,
        22624875u128.checked_shl(64).unwrap().checked_div(1000).unwrap()
    );
    assert_eq!(farm.reward_streams[0].rewards_left_x64, 100555u128.checked_shl(64).unwrap().checked_div(10).unwrap());
    farm.staked_amount -= 3;
    assert_eq!(farm.staked_amount, 1);
    farm.reward_streams[1] = new_stream(REWARD_1_MINT, 5, 8, x64(1000000), x64(3000000));
    farm.reward_streams_count = 2;
    assert_eq!(farm.reward_streams[1].status, RewardStreamStatus::Unused);

    // t = 5: Bob harvests. The first stream ended at 4 and emits its last
    // second; the second stream opens.
    farm.update_at(5);
    let s0 = farm.reward_streams[0];
    assert_eq!(
        s0.acc_rewards_per_base_unit_x64,
        32680375u128.checked_shl(64).unwrap().checked_div(1000).unwrap()
    );
    assert_eq!(s0.rewards_left_x64, 0);
    assert_eq!(s0.status, RewardStreamStatus::Ended);
    assert_eq!(farm.reward_streams[1].status, RewardStreamStatus::Running);
    assert_eq!(farm.reward_streams[1].open_time, 5);
    assert_eq!(farm.reward_streams[1].rewards_left_x64, x64(3000000));
    // The first stream is restarted for 5..8 at 10055.625 tokens per second
    // and topped up to 30167 tokens.
    farm.reward_streams[0].open_time = 5;
    farm.reward_streams[0].end_time = 8;
    farm.reward_streams[0].emission_per_second_x64 = 10055625u128.checked_shl(64).unwrap().checked_div(1000).unwrap();
    farm.reward_streams[0].rewards_left_x64 = x64(30167);

    // t = 6: Bob unstakes his 1.
    farm.update_at(6);
    assert_eq!(farm.reward_streams[0].acc_rewards_per_base_unit_x64, x64(42736));
    assert_eq!(
        farm.reward_streams[0].rewards_left_x64,
        20111375u128.checked_shl(64).unwrap().checked_div(1000).unwrap()
    );
    assert_eq!(farm.reward_streams[1].acc_rewards_per_base_unit_x64, x64(1000000));
    assert_eq!(farm.reward_streams[1].rewards_left_x64, x64(2000000));
    farm.staked_amount -= 1;
    assert_eq!(farm.staked_amount, 0);

    // t = 8: nothing is staked, so nothing is emitted; the second stream has
    // ended and is restarted for 8..9 at 1.5 tokens per second.
    farm.update_at(8);
    assert_eq!(farm.reward_streams[1].status, RewardStreamStatus::Ended);
    assert_eq!(farm.reward_streams[1].rewards_left_x64, x64(2000000));
    assert_eq!(farm.reward_streams[1].acc_rewards_per_base_unit_x64, x64(1000000));
    farm.reward_streams[1].open_time = 8;
    farm.reward_streams[1].end_time = 9;
    farm.reward_streams[1].emission_per_second_x64 = x64(1500000);
    farm.reward_streams[1].rewards_left_x64 = x64(1500000);
    farm.reward_streams[1].status = RewardStreamStatus::Running;
    assert_eq!(farm.reward_streams[1].status, RewardStreamStatus::Running);

    // t = 9: Bob harvests; both streams have ended.
    farm.update_at(9);
    assert_eq!(farm.last_updated_time, 9);
    assert_eq!(farm.reward_streams[0].status, RewardStreamStatus::Ended);
    assert_eq!(farm.reward_streams[1].status, RewardStreamStatus::Ended);
    assert_eq!(farm.reward_streams[1].rewards_left_x64, x64(1500000));

    // The creator withdraws what is left of both streams.
    let mut ctx = WithdrawReward {
        authority: YASH,
        staking_mint: STAKING_MINT,
        farm,
        reward_mint: REWARD_0_MINT,
        reward_mint_decimals: 2,
        reward_vault_amount: 20112,
    };
    assert_eq!(
        withdraw_reward_at(&mut ctx, 0, 9),
        Ok(Some(RewardTransfer { amount: 20112, decimals: 2 }))
    );
    assert_eq!(ctx.farm.reward_streams[0].rewards_left_x64, 0);

    ctx.reward_mint = REWARD_1_MINT;
    ctx.reward_mint_decimals = 6;
    ctx.reward_vault_amount = 1500000;
    // The mint must match the stream.
    assert_eq!(withdraw_reward_at(&mut ctx, 0, 9), Err(ErrorCode::MismatchingAccounts));
    assert_eq!(
        withdraw_reward_at(&mut ctx, 1, 9),
        Ok(Some(RewardTransfer { amount: 1500000, decimals: 6 }))
    );
    assert_eq!(ctx.farm.reward_streams[1].rewards_left_x64, 0);
    assert_eq!(ctx.farm.last_updated_time, 9);
}
