//! Thirty-two byte identities of bidders, records and programs.

use vstd::prelude::*;

verus! {

/// A 32-byte identity. Two identities are the same exactly when their bytes
/// are.
#[derive(Clone, Copy, Debug, PartialEq, Eq, Hash)]
pub struct Identity {
    pub bytes: [u8; 32],
}

impl View for Identity {
    type V = Seq<u8>;

    open spec fn view(&self) -> Seq<u8> {
        self.bytes@
    }
}

/// The bytes of the identity that stands for "nobody": thirty-two zeroes.
pub open spec fn zero_bytes() -> Seq<u8> {
    Seq::new(32, |i: int| 0u8)
}

impl Identity {
    /// The identity made of the given bytes.
    pub fn new(bytes: [u8; 32]) -> (r: Identity)
        ensures
            r@ == bytes@,
            r.bytes == bytes,
    {
        Identity { bytes }
    }

    /// The all-zero identity, which marks an unset winner or bidder.
    pub fn zero() -> (r: Identity)
        ensures
            r@ == zero_bytes(),
    {
        let r = Identity { bytes: [0u8; 32] };
        assert(r@ =~= zero_bytes());
        r
    }

    /// The bytes of this identity.
    pub fn to_bytes(&self) -> (r: [u8; 32])
        ensures
            r == self.bytes,
    {
        self.bytes
    }

    /// Whether the two identities hold the same bytes.
    pub fn same(&self, other: &Identity) -> (r: bool)
        ensures
            r == (self@ == other@),
            r == (*self == *other),
    {
        let mut i: usize = 0;
        while i < 32
            invariant
                i <= 32,
                forall|j: int| 0 <= j < i ==> self.bytes@[j] == other.bytes@[j],
            decreases 32 - i,
        {
            if self.bytes[i] != other.bytes[i] {
                return false;
            }
            i += 1;
        }
        assert(self.bytes@ =~= other.bytes@);
        assert(self.bytes == other.bytes);
        true
    }

    /// Whether this is the all-zero identity.
    pub fn is_zero(&self) -> (r: bool)
        ensures
            r == (self@ == zero_bytes()),
    {
        let z = Identity::zero();
        self.same(&z)
    }
}

/// Identities with the same bytes are the same identity.
pub proof fn lemma_identity_by_bytes(a: Identity, b: Identity)
    ensures
        (a@ == b@) == (a == b),
{
    if a@ == b@ {
        assert(a.bytes@ =~= b.bytes@);
        assert(a.bytes == b.bytes);
    }
}

} // verus!
