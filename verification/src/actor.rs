//! Player identities.
//!
//! An identity is an opaque 32-byte value supplied, already authenticated,
//! by the host environment.  The game logic never looks inside one; it only
//! compares identities for equality.

use vstd::prelude::*;

verus! {

broadcast use vstd::array::group_array_axioms;

/// An opaque reference to a player, compared only for equality.
#[derive(Debug, Clone, Copy)]
pub struct ActorId {
    pub bytes: [u8; 32],
}

impl ActorId {
    /// Wraps a raw 32-byte identity handed in by the host boundary.
    pub fn new(bytes: [u8; 32]) -> (r: ActorId)
        ensures
            r == (ActorId { bytes }),
    {
        ActorId { bytes }
    }
}

impl PartialEq for ActorId {
    fn eq(&self, other: &ActorId) -> (r: bool) {
        let mut i: usize = 0;
        while i < 32
            invariant
                i <= 32,
                forall|j: int| 0 <= j < i ==> self.bytes[j] == other.bytes[j],
            decreases 32 - i,
        {
            if self.bytes[i] != other.bytes[i] {
                return false;
            }
            i = i + 1;
        }
        proof {
            assert(self.bytes =~= other.bytes);
        }
        true
    }
}

impl Eq for ActorId {}

impl vstd::std_specs::cmp::PartialEqSpecImpl for ActorId {
    open spec fn obeys_eq_spec() -> bool {
        true
    }

    open spec fn eq_spec(&self, other: &ActorId) -> bool {
        *self == *other
    }
}

} // verus!
