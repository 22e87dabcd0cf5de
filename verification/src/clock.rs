//! The platform clock, the one source of timestamps.

use vstd::prelude::*;
use anchor_lang::prelude::Clock;
use anchor_lang::prelude::ProgramError;
use anchor_lang::prelude::SolanaSysvar;

verus! {

/// `ProgramError`, the platform's error type. It is opaque here: a value is
/// only carried from the clock to the caller, never inspected.
#[verifier::external_type_specification]
#[verifier::external_body]
pub struct ExProgramError(ProgramError);

/// Asks the platform for the current time with `Clock::get` and hands back
/// the `unix_timestamp` field of the answer, in seconds since the epoch, or
/// the platform's error.
///
/// Nothing is claimed of the outcome: the reading changes from call to call,
/// and where no clock is installed the platform answers with an error.
#[verifier::external_body]
pub(crate) fn clock_unix_timestamp() -> Result<i64, ProgramError> {
    match Clock::get() {
        Ok(clock) => Ok(clock.unix_timestamp),
        Err(e) => Err(e),
    }
}

} // verus!
