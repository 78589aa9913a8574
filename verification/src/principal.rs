//! Identities of callers and records.

use vstd::prelude::*;

verus! {

/// An opaque identity: a user, a hotel's owner, the administrator, or a
/// record's own key. Two principals are the same when their bytes are.
#[derive(Clone, Copy, Debug, PartialEq, Eq, Hash)]
pub struct Principal {
    pub bytes: [u8; 32],
}

impl Principal {
    /// The principal with the given bytes.
    pub fn new(bytes: [u8; 32]) -> (p: Principal)
        ensures
            p.bytes == bytes,
    {
        Principal { bytes }
    }

    /// Whether `self` and `other` are the same principal.
    pub fn same_as(&self, other: &Principal) -> (same: bool)
        ensures
            same == (*self == *other),
    {
        let mut i: usize = 0;
        while i < 32
            invariant
                i <= 32,
                forall|j: int| 0 <= j < i ==> self.bytes[j] == other.bytes[j],
            decreases 32 - i,
        {
            if self.bytes[i] != other.bytes[i] {
                return false;
            }
            i += 1;
        }
        assert(self.bytes =~= other.bytes);
        true
    }
}

} // verus!
