# raydium_farm

Reward accounting of a staking farm on Solana, verified with Verus.

A farm holds up to five reward streams. Each stream emits a Q64.64 amount of
reward tokens per second between its open and end time; the farm is brought
up to date lazily, at the block time of each instruction, moving the emitted
rewards from what the stream has left to what each staked unit has accrued.
An update that finds a stream ended charges it from the last update up to its
end time, so a stream that both opens and ends between two updates is charged
seconds before it opened as well.

- `src/states/farm.rs`: the farm and its streams, the update and its checks.
- `src/states/laws.rs`: properties of the update proved over its contract.
- `src/instructions/withdraw_reward.rs`: withdrawing what is left of an
  ended stream.
- `src/clock.rs`: the runtime clock, read through Anchor.
- `app/`: the Anchor account types and the instruction's token transfer.
