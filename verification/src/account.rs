//! Account identities: opaque 32-byte values compared for exact equality.

use vstd::prelude::*;

verus! {

broadcast use vstd::array::group_array_axioms;

/// The identity of an account: an opaque 32-byte value. Two identities are
/// the same account exactly when their bytes are equal.
#[verifier::ext_equal]
#[derive(Clone, Copy, Debug)]
pub struct AccountId {
    pub bytes: [u8; 32],
}

impl PartialEq for AccountId {
    /// Byte-wise comparison; `a == b` on identities means equality of the
    /// underlying 32 bytes, and hence of the values themselves.
    fn eq(&self, other: &AccountId) -> (r: bool) {
        let mut i: usize = 0;
        while i < 32
            invariant
                i <= 32,
                forall|j: int| 0 <= j < i ==> self.bytes@[j] == other.bytes@[j],
            decreases 32 - i,
        {
            if self.bytes[i] != other.bytes[i] {
                proof {
                    assert(self.bytes@[i as int] != other.bytes@[i as int]);
                }
                return false;
            }
            i = i + 1;
        }
        proof {
            assert(self.bytes =~= other.bytes);
            assert(*self =~= *other);
        }
        true
    }
}

impl Eq for AccountId {}

impl vstd::std_specs::cmp::PartialEqSpecImpl for AccountId {
    open spec fn obeys_eq_spec() -> bool {
        true
    }

    open spec fn eq_spec(&self, other: &AccountId) -> bool {
        *self == *other
    }
}

} // verus!
