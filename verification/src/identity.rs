//! The 32-byte key that names an authority or a record address.

use vstd::prelude::*;

verus! {

/// A 32-byte identifying key.
///
/// Its view is the sequence of its bytes; two identities are the same exactly
/// when their views are equal.
#[derive(Clone, Copy, Debug, PartialEq, Eq, Hash)]
pub struct Identity {
    pub bytes: [u8; 32],
}

impl View for Identity {
    type V = Seq<u8>;

    open spec fn view(&self) -> Seq<u8> {
        self.bytes@
    }
}

/// The view of the default identity: thirty-two zero bytes.
pub open spec fn zero_key() -> Seq<u8> {
    Seq::new(32, |i: int| 0u8)
}

/// An identity is nothing but its bytes: equal views mean equal identities.
pub proof fn lemma_same_bytes_same_identity(first: Identity, second: Identity)
    requires
        first@ == second@,
    ensures
        first == second,
{
    assert(first.bytes@ =~= second.bytes@);
    assert(first.bytes == second.bytes);
}

impl Identity {
    /// Wraps thirty-two bytes as an identity.
    pub fn new(bytes: [u8; 32]) -> (id: Identity)
        ensures
            id.bytes == bytes,
            id@ == bytes@,
    {
        Identity { bytes }
    }

    /// The bytes of this identity.
    pub fn to_bytes(&self) -> (bytes: [u8; 32])
        ensures
            bytes == self.bytes,
            bytes@ == self@,
    {
        self.bytes
    }

    /// Whether this is the default (all-zero) identity, the value a record's
    /// owner field holds before its first write.
    pub open spec fn spec_is_default(&self) -> bool {
        self@ == zero_key()
    }

    /// Whether two identities hold the same bytes.
    pub fn same_as(&self, other: &Identity) -> (same: bool)
        ensures
            same == (self@ == other@),
            same == (*self == *other),
    {
        let mut i: usize = 0;
        while i < 32
            invariant
                0 <= i <= 32,
                forall|j: int| 0 <= j < i ==> self.bytes@[j] == other.bytes@[j],
            decreases 32 - i,
        {
            if self.bytes[i] != other.bytes[i] {
                return false;
            }
            i += 1;
        }
        proof {
            assert(self@ =~= other@);
            lemma_same_bytes_same_identity(*self, *other);
        }
        true
    }

    /// Whether this is the default (all-zero) identity.
    #[verifier::when_used_as_spec(spec_is_default)]
    pub fn is_default(&self) -> (zero: bool)
        ensures
            zero == self.spec_is_default(),
    {
        let mut i: usize = 0;
        while i < 32
            invariant
                0 <= i <= 32,
                forall|j: int| 0 <= j < i ==> self.bytes@[j] == 0u8,
            decreases 32 - i,
        {
            if self.bytes[i] != 0 {
                assert(zero_key()[i as int] == 0u8);
                return false;
            }
            i += 1;
        }
        proof {
            assert(self.bytes@ =~= zero_key());
        }
        true
    }
}

impl Default for Identity {
    /// The all-zero identity.
    fn default() -> (id: Identity)
        ensures
            id@ == zero_key(),
    {
        let id = Identity { bytes: [0u8; 32] };
        proof {
            assert(id.bytes@ =~= zero_key());
        }
        id
    }
}

} // verus!
