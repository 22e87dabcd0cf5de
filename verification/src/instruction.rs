//! The one instruction: write a message into the caller's record.

use vstd::prelude::*;
use anchor_lang::prelude::ProgramError;
use crate::clock::clock_unix_timestamp;
use crate::identity::Identity;
use crate::record::written;
use crate::record::write_guard;
use crate::record::HelloError;
use crate::record::HelloEvent;
use crate::record::HelloState;
use crate::record::Record;

verus! {

/// What one invocation names: the signing caller and the record it targets.
#[derive(Clone, Debug, PartialEq, Eq)]
pub struct HelloWrite {
    /// The identity that signed the call.
    pub authority: Identity,
    /// The record to write.
    pub hello_state: HelloState,
}

/// Why an invocation failed. Either way the record is left as it was.
#[derive(Debug, PartialEq, Eq)]
pub enum WriteError {
    /// The write was refused by the size bound or the ownership rule.
    Rejected(HelloError),
    /// The platform clock could not be read; there is no fallback timestamp.
    Clock(ProgramError),
}

/// The outcome of an invocation as a function of the record, the caller, the
/// message and what the clock answered: the guard decides first, and the
/// clock's answer matters only for an admitted write.
pub open spec fn settle_result(
    record: Record,
    caller: Seq<u8>,
    message: Seq<char>,
    clock: Result<i64, ProgramError>,
) -> Result<Record, WriteError> {
    match write_guard(record, caller, message) {
        Err(e) => Err(WriteError::Rejected(e)),
        Ok(_) => match clock {
            Ok(now) => Ok(written(caller, message, now as int)),
            Err(e) => Err(WriteError::Clock(e)),
        },
    }
}

/// Completes an invocation once the clock has answered: a refused write
/// reports its reason, an admitted write is stamped with the clock reading,
/// and a clock failure aborts an admitted write. Only success changes the
/// record.
pub fn settle_write(
    state: &mut HelloState,
    authority: Identity,
    message: String,
    clock: Result<i64, ProgramError>,
) -> (outcome: Result<HelloEvent, WriteError>)
    ensures
        match settle_result(old(state)@, authority@, message@, clock) {
            Ok(next) => {
                &&& outcome is Ok
                &&& final(state)@ == next
                &&& outcome->Ok_0@ == next
            },
            Err(e) => {
                &&& outcome == Err::<HelloEvent, WriteError>(e)
                &&& *final(state) == *old(state)
            },
        },
{
    match clock {
        Ok(now) => {
            match state.write_at(authority, message, now) {
                Ok(event) => Ok(event),
                Err(e) => Err(WriteError::Rejected(e)),
            }
        },
        Err(failure) => {
            match state.check_write(&authority, message.as_str()) {
                Err(e) => Err(WriteError::Rejected(e)),
                Ok(_) => Err(WriteError::Clock(failure)),
            }
        },
    }
}

/// Writes `message` into the record named by `accounts` on behalf of its
/// signer, stamped with the platform clock.
///
/// The message bound is checked first, then ownership, and only then is the
/// clock read. A refused call and a clock failure leave the record exactly as
/// it was; a successful call replaces owner, message and timestamp together
/// and returns the event that reports them.
pub fn hello_write(accounts: &mut HelloWrite, message: String) -> (outcome: Result<
    HelloEvent,
    WriteError,
>)
    ensures
        final(accounts).authority == old(accounts).authority,
        match write_guard(old(accounts).hello_state@, old(accounts).authority@, message@) {
            Err(e) => {
                &&& outcome == Err::<HelloEvent, WriteError>(WriteError::Rejected(e))
                &&& final(accounts).hello_state == old(accounts).hello_state
            },
            Ok(_) => match outcome {
                Ok(event) => {
                    &&& event@ == written(old(accounts).authority@, message@, event.updated_at as int)
                    &&& final(accounts).hello_state@ == event@
                },
                Err(WriteError::Clock(_)) => {
                    final(accounts).hello_state == old(accounts).hello_state
                },
                Err(WriteError::Rejected(_)) => false,
            },
        },
{
    let authority = accounts.authority;
    match accounts.hello_state.check_write(&authority, message.as_str()) {
        Err(e) => Err(WriteError::Rejected(e)),
        Ok(_) => {
            let clock = clock_unix_timestamp();
            settle_write(&mut accounts.hello_state, authority, message, clock)
        },
    }
}

} // verus!
