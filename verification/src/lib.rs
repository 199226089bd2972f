//! Reward accounting of a staking farm: a farm holds up to five reward
//! streams, each emitting a Q64.64 fixed-point amount of reward tokens per
//! second between its open and end time, shared among everything staked.
//! The farm is updated lazily, at the block time of each instruction. An
//! update that finds a stream ended charges it from the last update up to its
//! end time; so a stream that both opens and ends between two updates is
//! charged from the last update, including seconds before it opened.
pub mod error;
pub mod keys;
pub mod clock;
pub mod states;
pub mod instructions;
