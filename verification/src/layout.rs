//! The bytes of a stored record.

use vstd::prelude::*;
use vstd::utf8::encode_utf8;
use crate::record::byte_length;
use crate::record::HelloState;
use crate::record::Record;

verus! {

/// The type tag that opens every stored record: the first eight bytes of the
/// SHA-256 digest of `account:HelloState`.
pub const ACCOUNT_TAG: [u8; 8] = [232, 42, 134, 76, 92, 238, 90, 241];

/// The `width` low-order base-256 digits of `value`, least significant first.
pub open spec fn le_bytes(value: nat, width: nat) -> Seq<u8>
    decreases width,
{
    if width == 0 {
        Seq::empty()
    } else {
        seq![(value % 256) as u8] + le_bytes(value / 256, (width - 1) as nat)
    }
}

/// The unsigned 64-bit number with the same bits as a signed 64-bit number.
pub open spec fn twos_complement(value: int) -> nat {
    if value >= 0 {
        value as nat
    } else {
        (value + 0x1_0000_0000_0000_0000) as nat
    }
}

/// Bytes that a record occupies when stored: type tag, owner key, length
/// prefix, message bytes, timestamp.
pub open spec fn stored_size(record: Record) -> nat {
    8 + 32 + 4 + byte_length(record.message) + 8
}

/// A stored record, byte for byte: the type tag, the owner key, the message
/// length as four little-endian bytes, the message in UTF-8, and the
/// timestamp as eight little-endian bytes.
pub open spec fn stored_bytes(record: Record) -> Seq<u8> {
    ACCOUNT_TAG@ + record.authority + le_bytes(byte_length(record.message), 4) + encode_utf8(
        record.message,
    ) + le_bytes(twos_complement(record.updated_at), 8)
}

/// `le_bytes` yields exactly `width` bytes.
pub proof fn lemma_le_bytes_len(value: nat, width: nat)
    ensures
        le_bytes(value, width).len() == width,
    decreases width,
{
    if width > 0 {
        lemma_le_bytes_len(value / 256, (width - 1) as nat);
    }
}

/// The bytes of a record with a 32-byte owner key number exactly its stored
/// size.
pub proof fn lemma_stored_bytes_len(record: Record)
    requires
        record.authority.len() == 32,
    ensures
        stored_bytes(record).len() == stored_size(record),
{
    lemma_le_bytes_len(byte_length(record.message), 4);
    lemma_le_bytes_len(twos_complement(record.updated_at), 8);
}

/// Appends the `width` low-order bytes of `value`, least significant first.
fn push_le_bytes(out: &mut Vec<u8>, value: u64, width: usize)
    ensures
        final(out)@ == old(out)@ + le_bytes(value as nat, width as nat),
{
    let ghost start = out@;
    let mut rest: u64 = value;
    let mut done: usize = 0;
    while done < width
        invariant
            done <= width,
            out@ + le_bytes(rest as nat, (width - done) as nat) == start + le_bytes(
                value as nat,
                width as nat,
            ),
        decreases width - done,
    {
        let ghost before = out@;
        let digit: u8 = (rest % 256) as u8;
        out.push(digit);
        proof {
            let tail = le_bytes((rest / 256) as nat, (width - done - 1) as nat);
            assert(le_bytes(rest as nat, (width - done) as nat) == seq![digit] + tail);
            assert(before.push(digit) + tail =~= before + (seq![digit] + tail));
        }
        rest = rest / 256;
        done += 1;
    }
    proof {
        assert(out@ + le_bytes(rest as nat, 0) =~= out@);
    }
}

/// The unsigned number with the same bits as `value`.
fn to_unsigned(value: i64) -> (bits: u64)
    ensures
        bits == twos_complement(value as int),
{
    if value >= 0 {
        value as u64
    } else {
        let below: u64 = (-(value + 1)) as u64;
        u64::MAX - below
    }
}

impl HelloState {
    /// Bytes that this record occupies when stored. A record whose message
    /// respects the bound never needs more than `SPACE`.
    pub fn stored_len(&self) -> (len: usize)
        requires
            self.fits(),
        ensures
            len == stored_size(self@),
            len <= HelloState::SPACE,
    {
        8 + 32 + 4 + self.message.as_str().as_bytes().len() + 8
    }

    /// The bytes under which this record is stored. They fill the reserved
    /// space from its start and never exceed it.
    pub fn to_account_data(&self) -> (data: Vec<u8>)
        requires
            self.fits(),
        ensures
            data@ == stored_bytes(self@),
            data@.len() == stored_size(self@),
            data@.len() <= HelloState::SPACE,
    {
        let tag = ACCOUNT_TAG;
        let text = self.message.as_str().as_bytes();
        let mut data: Vec<u8> = Vec::new();
        data.extend_from_slice(tag.as_slice());
        data.extend_from_slice(self.authority.bytes.as_slice());
        push_le_bytes(&mut data, text.len() as u64, 4);
        data.extend_from_slice(text);
        push_le_bytes(&mut data, to_unsigned(self.updated_at), 8);
        proof {
            assert(data@ =~= stored_bytes(self@));
            lemma_stored_bytes_len(self@);
        }
        data
    }
}

} // verus!
