use vstd::prelude::*;
use anchor_lang::prelude::{Clock, SolanaSysvar};

verus! {

/// Reads the runtime's clock sysvar through `Clock::get` and hands back its
/// `unix_timestamp`, or, when `Clock::get` fails, the numeric code of its
/// `ProgramError` (`u64::from`, which `ProgramError::from(u64)` undoes). The
/// time is whatever the runtime reports for the current block, and whether
/// the read succeeds depends on the runtime, so nothing is promised about
/// the result.
#[verifier::external_body]
pub(crate) fn current_unix_timestamp() -> (r: Result<i64, u64>) {
    match Clock::get() {
        Ok(clock) => Ok(clock.unix_timestamp),
        Err(e) => Err(u64::from(e)),
    }
}

} // verus!
