//! Actor and asset identities: 32-byte public keys.

use vstd::prelude::*;

verus! {

/// A 32-byte identity of an actor or an asset, as authenticated by the ledger.
#[derive(Clone, Copy, Debug, PartialEq, Eq, Hash)]
pub struct Identity {
    pub bytes: [u8; 32],
}

impl Identity {
    /// The identity made of 32 zero bytes, which no authenticated actor has.
    pub open spec fn is_unset(self) -> bool {
        forall|i: int| 0 <= i < 32 ==> self.bytes@[i] == 0
    }

    /// Wraps the 32 bytes of a public key.
    pub fn new(bytes: [u8; 32]) -> (id: Identity)
        ensures
            id.bytes == bytes,
    {
        Identity { bytes }
    }

    /// The all-zero identity.
    pub fn unset() -> (id: Identity)
        ensures
            id.is_unset(),
    {
        Identity { bytes: [0u8; 32] }
    }

    /// Whether two identities hold the same 32 bytes.
    pub fn same(&self, other: &Identity) -> (r: bool)
        ensures
            r == (*self == *other),
    {
        let mut i: usize = 0;
        while i < 32
            invariant
                0 <= i <= 32,
                forall|j: int| 0 <= j < i ==> self.bytes@[j] == other.bytes@[j],
            decreases 32 - i,
        {
            if self.bytes[i] != other.bytes[i] {
                return false;
            }
            i += 1;
        }
        assert(self.bytes@ =~= other.bytes@);
        assert(self.bytes == other.bytes);
        true
    }

    /// Whether this is the all-zero identity.
    pub fn is_default(&self) -> (r: bool)
        ensures
            r == self.is_unset(),
    {
        let mut i: usize = 0;
        while i < 32
            invariant
                0 <= i <= 32,
                forall|j: int| 0 <= j < i ==> self.bytes@[j] == 0,
            decreases 32 - i,
        {
            if self.bytes[i] != 0 {
                return false;
            }
            i += 1;
        }
        true
    }
}

impl Default for Identity {
    /// The all-zero identity.
    fn default() -> (id: Identity)
        ensures
            id.is_unset(),
    {
        Identity::unset()
    }
}

} // verus!
