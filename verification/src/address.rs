//! Identifiers: fixed-width byte strings and the principals built on them.

use vstd::prelude::*;
use vstd::std_specs::cmp::PartialEqSpecImpl;

verus! {

/// A byte string of exactly `N` bytes, used for escrow ids and memos.
#[derive(Clone, Copy, Debug)]
pub struct BytesN<const N: usize> {
    pub bytes: [u8; N],
}

impl<const N: usize> View for BytesN<N> {
    type V = Seq<u8>;

    open spec fn view(&self) -> Seq<u8> {
        self.bytes@
    }
}

impl<const N: usize> BytesN<N> {
    /// Wraps an array of bytes.
    pub fn from_array(bytes: [u8; N]) -> (r: Self)
        ensures
            r.bytes == bytes,
            r@ == bytes@,
    {
        BytesN { bytes }
    }

    /// The bytes as an array.
    pub fn to_array(&self) -> (r: [u8; N])
        ensures
            r == self.bytes,
    {
        self.bytes
    }

    /// Two byte strings with the same bytes are the same value.
    pub proof fn lemma_view_injective(a: Self, b: Self)
        requires
            a@ == b@,
        ensures
            a == b,
    {
        assert(a.bytes =~= b.bytes);
    }
}

impl<const N: usize> PartialEq for BytesN<N> {
    fn eq(&self, other: &BytesN<N>) -> (r: bool) {
        let mut i: usize = 0;
        while i < N
            invariant
                i <= N,
                forall|j: int| 0 <= j < i ==> self.bytes@[j] == other.bytes@[j],
            decreases N - i,
        {
            if self.bytes[i] != other.bytes[i] {
                return false;
            }
            i += 1;
        }
        proof {
            assert(self.bytes =~= other.bytes);
        }
        true
    }
}

impl<const N: usize> PartialEqSpecImpl for BytesN<N> {
    open spec fn obeys_eq_spec() -> bool {
        true
    }

    open spec fn eq_spec(&self, other: &BytesN<N>) -> bool {
        *self == *other
    }
}

impl<const N: usize> Eq for BytesN<N> {
}

/// A principal: an identity that can be proven to have authorized an action.
/// Assets, vaults and routers are named by addresses too.
#[derive(Clone, Copy, Debug)]
pub struct Address {
    pub id: BytesN<32>,
}

impl Address {
    /// The address with the given 32-byte identifier.
    pub fn from_array(bytes: [u8; 32]) -> (r: Self)
        ensures
            r.id.bytes == bytes,
    {
        Address { id: BytesN { bytes } }
    }
}

impl PartialEq for Address {
    fn eq(&self, other: &Address) -> (r: bool) {
        self.id == other.id
    }
}

impl PartialEqSpecImpl for Address {
    open spec fn obeys_eq_spec() -> bool {
        true
    }

    open spec fn eq_spec(&self, other: &Address) -> bool {
        *self == *other
    }
}

impl Eq for Address {
}

} // verus!
