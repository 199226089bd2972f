use vstd::prelude::*;

verus! {

/// Errors of the farm program.
#[derive(Debug, Clone, Copy, PartialEq, Eq, Structural)]
pub enum ErrorCode {
    /// The reward stream index is not below the farm's reward stream count.
    ReferencedRewardStreamInvalid,
    /// An account handed to an instruction is not the one the farm records.
    MismatchingAccounts,
    /// The reward stream has not ended yet.
    RewardStreamIsRunning,
    /// An account does not match the one the farm records for it (the
    /// signer is not the farm's authority, or the staking mint is not the
    /// farm's staking mint).
    ConstraintHasOne,
    /// Reading the runtime's clock failed with the `ProgramError` whose
    /// numeric code this is.
    ClockUnavailable(u64),
    /// An update of the farm would overflow or draw more rewards than are left.
    MathOverflow,
}

} // verus!
