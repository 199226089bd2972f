pub mod withdraw_reward;
pub mod laws;
