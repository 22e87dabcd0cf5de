//! What holds of every record and every sequence of writes.

use vstd::prelude::*;
use crate::address::hello_address_of;
use crate::identity::zero_key;
use crate::layout::stored_size;
use crate::record::byte_length;
use crate::record::is_claimed;
use crate::record::record_after;
use crate::record::write_result;
use crate::record::written;
use crate::record::HelloError;
use crate::record::HelloState;
use crate::record::Record;
use crate::record::MAX_MESSAGE_BYTES;

verus! {

/// A first write with a message of at most 64 bytes succeeds: on an unclaimed
/// record any caller is admitted, and the record then holds the caller as
/// owner, the message, and the time of the call.
pub proof fn lemma_first_write_succeeds(
    record: Record,
    caller: Seq<u8>,
    message: Seq<char>,
    now: int,
)
    requires
        !is_claimed(record),
        byte_length(message) <= MAX_MESSAGE_BYTES,
    ensures
        write_result(record, caller, message, now) == Ok::<Record, HelloError>(
            Record { authority: caller, message: message, updated_at: now },
        ),
        record_after(record, caller, message, now) == written(caller, message, now),
{
}

/// A message of more than 64 bytes is refused as too long whatever the
/// record and whoever the caller, and the record stays as it was: an
/// unclaimed record stays unclaimed.
pub proof fn lemma_long_message_rejected(
    record: Record,
    caller: Seq<u8>,
    message: Seq<char>,
    now: int,
)
    requires
        byte_length(message) > MAX_MESSAGE_BYTES,
    ensures
        write_result(record, caller, message, now) == Err::<Record, HelloError>(
            HelloError::MessageTooLong,
        ),
        record_after(record, caller, message, now) == record,
{
}

/// After a successful write the same caller can write again: the second
/// write succeeds, replaces message and timestamp, and the owner stays.
pub proof fn lemma_owner_overwrites(
    record: Record,
    caller: Seq<u8>,
    first: Seq<char>,
    first_time: int,
    second: Seq<char>,
    second_time: int,
)
    requires
        write_result(record, caller, first, first_time) is Ok,
        byte_length(second) <= MAX_MESSAGE_BYTES,
    ensures
        ({
            let claimed = record_after(record, caller, first, first_time);
            &&& write_result(claimed, caller, second, second_time) == Ok::<Record, HelloError>(
                written(caller, second, second_time),
            )
            &&& record_after(claimed, caller, second, second_time).authority == caller
            &&& record_after(claimed, caller, second, second_time).message == second
            &&& record_after(claimed, caller, second, second_time).updated_at == second_time
        }),
{
}

/// After a successful write by an owner with a non-default key, a write by
/// any other identity to the same record is refused as unauthorized and the
/// record keeps what the owner wrote.
pub proof fn lemma_stranger_rejected(
    record: Record,
    owner: Seq<u8>,
    first: Seq<char>,
    first_time: int,
    stranger: Seq<u8>,
    second: Seq<char>,
    second_time: int,
)
    requires
        write_result(record, owner, first, first_time) is Ok,
        owner != zero_key(),
        stranger != owner,
        byte_length(second) <= MAX_MESSAGE_BYTES,
    ensures
        ({
            let claimed = record_after(record, owner, first, first_time);
            &&& write_result(claimed, stranger, second, second_time) == Err::<Record, HelloError>(
                HelloError::Unauthorized,
            )
            &&& record_after(claimed, stranger, second, second_time) == claimed
            &&& claimed == written(owner, first, first_time)
        }),
{
}

/// Nobody but its owner ever changes a claimed record: a call by another
/// identity fails whatever its message, and leaves the record as it was.
pub proof fn lemma_claimed_record_is_isolated(
    record: Record,
    caller: Seq<u8>,
    message: Seq<char>,
    now: int,
)
    requires
        is_claimed(record),
        caller != record.authority,
    ensures
        write_result(record, caller, message, now) is Err,
        record_after(record, caller, message, now) == record,
{
}

/// The owner of a claimed record never changes, whatever is attempted.
pub proof fn lemma_owner_is_permanent(
    record: Record,
    caller: Seq<u8>,
    message: Seq<char>,
    now: int,
)
    requires
        is_claimed(record),
    ensures
        record_after(record, caller, message, now).authority == record.authority,
        is_claimed(record_after(record, caller, message, now)),
{
}

/// A failed call changes nothing; a successful one replaces all three fields
/// together.
pub proof fn lemma_write_is_atomic(record: Record, caller: Seq<u8>, message: Seq<char>, now: int)
    ensures
        record_after(record, caller, message, now) == record || record_after(
            record,
            caller,
            message,
            now,
        ) == written(caller, message, now),
        write_result(record, caller, message, now) is Err ==> record_after(
            record,
            caller,
            message,
            now,
        ) == record,
{
}

/// The size bound on the stored message survives every call, so a stored
/// record never outgrows the space reserved for it.
pub proof fn lemma_record_keeps_fitting(
    record: Record,
    caller: Seq<u8>,
    message: Seq<char>,
    now: int,
)
    requires
        byte_length(record.message) <= MAX_MESSAGE_BYTES,
    ensures
        byte_length(record_after(record, caller, message, now).message) <= MAX_MESSAGE_BYTES,
        stored_size(record_after(record, caller, message, now)) <= HelloState::SPACE,
{
}

/// The reserved space is exactly the size of a record with a message of the
/// greatest admitted length.
pub proof fn lemma_space_is_worst_case(record: Record)
    requires
        byte_length(record.message) == MAX_MESSAGE_BYTES,
    ensures
        stored_size(record) == HelloState::SPACE,
        HelloState::SPACE == 116,
{
}

/// With a clock that does not run backwards the timestamp of a record never
/// decreases.
pub proof fn lemma_timestamp_is_monotonic(
    record: Record,
    caller: Seq<u8>,
    message: Seq<char>,
    now: int,
)
    requires
        record.updated_at <= now,
    ensures
        record.updated_at <= record_after(record, caller, message, now).updated_at,
{
}

/// The record address of an identity depends on the identity's bytes alone:
/// equal keys have equal addresses, at every call.
pub proof fn lemma_address_is_stable(first: Seq<u8>, second: Seq<u8>)
    requires
        first == second,
    ensures
        hello_address_of(first) == hello_address_of(second),
{
}

} // verus!
