//! The per-authority record and the single transition that writes it.

use vstd::prelude::*;
use vstd::utf8::encode_utf8;
use crate::identity::Identity;
use crate::identity::zero_key;

verus! {

/// Largest message a record can hold, counted in UTF-8 bytes (not characters).
pub const MAX_MESSAGE_BYTES: usize = 64;

/// Why a write was rejected. A rejected write changes nothing.
#[derive(Clone, Copy, Debug, PartialEq, Eq, Structural)]
pub enum HelloError {
    /// The record is already owned by an identity other than the caller.
    Unauthorized,
    /// The message is longer than `MAX_MESSAGE_BYTES` bytes.
    MessageTooLong,
}

/// The mathematical content of a record, and of the event that reports a
/// write: owner key, message text, and time of the write.
pub struct Record {
    pub authority: Seq<u8>,
    pub message: Seq<char>,
    pub updated_at: int,
}

/// The persisted state of one authority.
///
/// Before its first write a record holds the default owner, an empty message
/// and a zero timestamp. The owner field doubles as the initialisation flag:
/// a record counts as claimed once its owner is not the default identity.
#[derive(Clone, Debug, PartialEq, Eq)]
pub struct HelloState {
    /// Who may overwrite this record.
    pub authority: Identity,
    /// The stored text.
    pub message: String,
    /// Seconds since the epoch at the last successful write.
    pub updated_at: i64,
}

/// The notification produced by each successful write.
#[derive(Clone, Debug, PartialEq, Eq)]
pub struct HelloEvent {
    /// The authority that performed the write.
    pub authority: Identity,
    /// The message that was written.
    pub message: String,
    /// The timestamp of the write.
    pub updated_at: i64,
}

/// Length of a text in UTF-8 bytes.
pub open spec fn byte_length(message: Seq<char>) -> nat {
    encode_utf8(message).len()
}

/// Whether a record with this owner key has been claimed.
pub open spec fn is_claimed(record: Record) -> bool {
    record.authority != zero_key()
}

/// The guard of a write, in validation order: the size bound comes first and
/// is independent of the record; ownership is checked only on a claimed record.
pub open spec fn write_guard(record: Record, caller: Seq<u8>, message: Seq<char>) -> Result<
    (),
    HelloError,
> {
    if byte_length(message) > MAX_MESSAGE_BYTES {
        Err(HelloError::MessageTooLong)
    } else if is_claimed(record) && record.authority != caller {
        Err(HelloError::Unauthorized)
    } else {
        Ok(())
    }
}

/// What a record holds after `caller` wrote `message` at time `now`.
pub open spec fn written(caller: Seq<u8>, message: Seq<char>, now: int) -> Record {
    Record { authority: caller, message: message, updated_at: now }
}

/// The whole transition: the record after the call, or the reason it is
/// left as it was.
pub open spec fn write_result(record: Record, caller: Seq<u8>, message: Seq<char>, now: int)
    -> Result<Record, HelloError> {
    match write_guard(record, caller, message) {
        Ok(_) => Ok(written(caller, message, now)),
        Err(e) => Err(e),
    }
}

/// The record as it stands after the call, whatever its outcome: replaced on
/// success, untouched on failure.
pub open spec fn record_after(record: Record, caller: Seq<u8>, message: Seq<char>, now: int)
    -> Record {
    match write_result(record, caller, message, now) {
        Ok(next) => next,
        Err(_) => record,
    }
}

impl HelloError {
    /// The name under which the error is reported to the caller.
    pub fn message(&self) -> (text: String)
        ensures
            text@ == match *self {
                HelloError::Unauthorized => "Unauthorized"@,
                HelloError::MessageTooLong => "MessageTooLong"@,
            },
    {
        match self {
            HelloError::Unauthorized => "Unauthorized".to_owned(),
            HelloError::MessageTooLong => "MessageTooLong".to_owned(),
        }
    }
}

impl View for HelloState {
    type V = Record;

    open spec fn view(&self) -> Record {
        Record {
            authority: self.authority@,
            message: self.message@,
            updated_at: self.updated_at as int,
        }
    }
}

impl View for HelloEvent {
    type V = Record;

    open spec fn view(&self) -> Record {
        Record {
            authority: self.authority@,
            message: self.message@,
            updated_at: self.updated_at as int,
        }
    }
}

impl HelloState {
    /// Bytes reserved for a stored record: an 8-byte type tag, the 32-byte
    /// owner key, a 4-byte length prefix with room for the longest message,
    /// and the 8-byte timestamp.
    pub const SPACE: usize = 8 + 32 + 4 + MAX_MESSAGE_BYTES + 8;

    /// Whether the stored message respects the size bound.
    pub open spec fn fits(&self) -> bool {
        byte_length(self.message@) <= MAX_MESSAGE_BYTES
    }

    /// Whether the record has been claimed by an authority.
    pub open spec fn spec_is_initialized(&self) -> bool {
        is_claimed(self@)
    }

    /// A record as it is before its first write.
    pub fn new() -> (state: HelloState)
        ensures
            state@ == written(zero_key(), Seq::<char>::empty(), 0),
            !state.spec_is_initialized(),
            state.fits(),
    {
        let state = HelloState {
            authority: Identity::default(),
            message: String::new(),
            updated_at: 0,
        };
        proof {
            assert(encode_utf8(Seq::<char>::empty()).len() == 0) by {
                reveal_with_fuel(encode_utf8, 1);
            }
        }
        state
    }

    /// Whether the record has been claimed by an authority.
    #[verifier::when_used_as_spec(spec_is_initialized)]
    pub fn is_initialized(&self) -> (claimed: bool)
        ensures
            claimed == self.spec_is_initialized(),
    {
        !self.authority.is_default()
    }

    /// Decides, without changing anything, whether `authority` may write
    /// `message` into this record.
    pub fn check_write(&self, authority: &Identity, message: &str) -> (verdict: Result<
        (),
        HelloError,
    >)
        ensures
            verdict == write_guard(self@, authority@, message@),
    {
        if message.as_bytes().len() > MAX_MESSAGE_BYTES {
            return Err(HelloError::MessageTooLong);
        }
        if !self.authority.is_default() && !self.authority.same_as(authority) {
            return Err(HelloError::Unauthorized);
        }
        Ok(())
    }

    /// Writes `message` on behalf of `authority` with the timestamp
    /// `updated_at`, or rejects the write and leaves the record untouched.
    ///
    /// On success all three fields are replaced together and the returned
    /// event carries the same three values.
    pub fn write_at(&mut self, authority: Identity, message: String, updated_at: i64) -> (outcome:
        Result<HelloEvent, HelloError>)
        ensures
            final(self)@ == record_after(old(self)@, authority@, message@, updated_at as int),
            match write_result(old(self)@, authority@, message@, updated_at as int) {
                Ok(next) => {
                    &&& outcome is Ok
                    &&& final(self)@ == next
                    &&& outcome->Ok_0@ == next
                },
                Err(e) => {
                    &&& outcome == Err::<HelloEvent, HelloError>(e)
                    &&& *final(self) == *old(self)
                },
            },
    {
        match self.check_write(&authority, message.as_str()) {
            Err(e) => Err(e),
            Ok(_) => {
                let event = HelloEvent { authority, message: message.clone(), updated_at };
                self.authority = authority;
                self.message = message;
                self.updated_at = updated_at;
                Ok(event)
            },
        }
    }
}

impl Default for HelloState {
    /// A record as it is before its first write.
    fn default() -> (state: HelloState)
        ensures
            state@ == written(zero_key(), Seq::<char>::empty(), 0),
    {
        HelloState::new()
    }
}

} // verus!
