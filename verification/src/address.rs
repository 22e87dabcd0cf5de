//! Where a record lives: the address derived from the fixed seed prefix and
//! the owner's identity.

use vstd::prelude::*;
use anchor_lang::prelude::Pubkey;
use crate::identity::Identity;

verus! {

/// The fixed seed prefix of every record address: the ASCII bytes of `hello`.
pub const HELLO_SEED: [u8; 5] = [104, 101, 108, 108, 111];

/// The key of the program that owns the records,
/// `8p7ZHdKM6psXb1wZkMyZdbxBa8yV5DXd5pSdh9WnSFyY` in base 58.
pub const PROGRAM_ID: [u8; 32] = [
    116, 19, 133, 41, 9, 240, 124, 15, 47, 61, 54, 205, 61, 28, 60, 245,
    175, 220, 236, 138, 170, 121, 175, 6, 150, 79, 14, 235, 188, 136, 209, 159,
];

/// The program-derived address and bump seed that the platform assigns to a
/// list of seeds under a program key, or `None` where it assigns none.
///
/// The derivation is a hash of the seeds, the bump and the program key,
/// retried over bump seeds until the digest is no point of the signature
/// curve. It depends on nothing but its arguments; it is named here, not
/// written out.
pub uninterp spec fn program_address(seeds: Seq<Seq<u8>>, program_id: Seq<u8>) -> Option<
    (Seq<u8>, u8),
>;

/// Derives an address with `Pubkey::try_find_program_address` from the two
/// seeds `prefix` and `key` under `program_id`.
///
/// The contract only says that the answer is the platform's derivation for
/// exactly these seeds and this program key.
#[verifier::external_body]
pub(crate) fn try_find_program_address(prefix: &[u8], key: &Identity, program_id: &Identity) -> (found:
    Option<(Identity, u8)>)
    ensures
        match found {
            Some((address, bump)) => program_address(seq![prefix@, key@], program_id@) == Some(
                (address@, bump),
            ),
            None => program_address(seq![prefix@, key@], program_id@) is None,
        },
{
    let program = Pubkey::new_from_array(program_id.bytes);
    match Pubkey::try_find_program_address(&[prefix, &key.bytes], &program) {
        Some((address, bump)) => Some((Identity { bytes: address.to_bytes() }, bump)),
        None => None,
    }
}

/// The derived record address of an authority with its bump seed: a function
/// of the authority's key alone.
pub open spec fn hello_address_of(authority: Seq<u8>) -> Option<(Seq<u8>, u8)> {
    program_address(seq![HELLO_SEED@, authority], PROGRAM_ID@)
}

/// Whether `candidate` is the address part of a derivation result.
pub open spec fn names_address(found: Option<(Seq<u8>, u8)>, candidate: Seq<u8>) -> bool {
    found matches Some((address, _)) && address == candidate
}

/// Computes the record address of `authority`, with the bump seed that
/// completes its derivation. No lookup is involved: the same key always
/// yields the same answer.
pub fn find_hello_address(authority: &Identity) -> (found: Option<(Identity, u8)>)
    ensures
        match found {
            Some((address, bump)) => hello_address_of(authority@) == Some((address@, bump)),
            None => hello_address_of(authority@) is None,
        },
{
    let program_id = Identity::new(PROGRAM_ID);
    let seed = HELLO_SEED;
    try_find_program_address(seed.as_slice(), authority, &program_id)
}

/// Whether a derivation produced an address and `candidate` is that address.
pub fn matches_address(found: &Option<(Identity, u8)>, candidate: &Identity) -> (same: bool)
    ensures
        same == (found matches Some((address, _)) && address@ == candidate@),
{
    match found {
        Some((address, _)) => address.same_as(candidate),
        None => false,
    }
}

/// Whether `candidate` is the record address of `authority`.
pub fn is_hello_address(authority: &Identity, candidate: &Identity) -> (same: bool)
    ensures
        same == names_address(hello_address_of(authority@), candidate@),
{
    let found = find_hello_address(authority);
    matches_address(&found, candidate)
}

} // verus!
