//! Account addresses.

use vstd::prelude::*;

verus! {

/// A 32-byte account address. The pool's rules only ever compare addresses.
#[derive(Clone, Copy, Debug, PartialEq, Eq, Hash)]
pub struct Address {
    pub bytes: [u8; 32],
}

impl Address {
    /// The address made of the given bytes.
    pub fn new(bytes: [u8; 32]) -> (r: Address)
        ensures
            r.bytes == bytes,
    {
        Address { bytes }
    }

    /// The all-zero address.
    pub open spec fn spec_unset() -> Address {
        Address { bytes: vstd::array::spec_array_fill_for_copy_type::<u8, 32>(0u8) }
    }

    /// The all-zero address, which marks a slot that has not been bound yet.
    #[verifier::when_used_as_spec(spec_unset)]
    pub fn unset() -> (r: Address)
        ensures
            r == Address::spec_unset(),
            forall|i: int| 0 <= i < 32 ==> r.bytes[i] == 0u8,
    {
        Address { bytes: [0u8; 32] }
    }

    /// Whether two addresses are the same address.
    pub fn same(&self, other: &Address) -> (r: bool)
        ensures
            r == (*self == *other),
    {
        let mut i: usize = 0;
        while i < 32
            invariant
                i <= 32,
                forall|j: int| 0 <= j < i ==> self.bytes[j] == other.bytes[j],
            decreases 32 - i,
        {
            if self.bytes[i] != other.bytes[i] {
                return false;
            }
            i += 1;
        }
        assert(self.bytes =~= other.bytes);
        true
    }
}

} // verus!
