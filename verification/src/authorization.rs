//! Proof of authorization: which principals stand behind the current call.

use vstd::prelude::*;
use crate::address::Address;

verus! {

/// The principals that have been proven to authorize the call in progress.
///
/// The host verifies the signatures; the engine only asks whether a given
/// principal is among those that signed.
pub struct Authorization {
    signers: Vec<Address>,
}

impl View for Authorization {
    type V = Set<Address>;

    closed spec fn view(&self) -> Set<Address> {
        self.signers@.to_set()
    }
}

impl Authorization {
    /// A call that nobody has authorized.
    pub fn none() -> (r: Self)
        ensures
            r@ == Set::<Address>::empty(),
    {
        Authorization { signers: Vec::new() }
    }

    /// A call authorized by `signer` alone.
    pub fn signed_by(signer: Address) -> (r: Self)
        ensures
            r@ == Set::<Address>::empty().insert(signer),
    {
        Authorization::none().and(signer)
    }

    /// The same call with `signer` added to those who authorized it.
    pub fn and(self, signer: Address) -> (r: Self)
        ensures
            r@ == self@.insert(signer),
    {
        let mut signers = self.signers;
        let ghost before = signers@;
        signers.push(signer);
        let r = Authorization { signers };
        proof {
            assert forall|a: Address| #[trigger] r@.contains(a) == before.to_set().insert(
                signer,
            ).contains(a) by {
                if before.to_set().contains(a) {
                    let i = choose|i: int| 0 <= i < before.len() && before[i] == a;
                    assert(r.signers@[i] == a);
                }
                if a == signer {
                    assert(r.signers@[before.len() as int] == a);
                }
            }
        }
        r
    }

    /// Whether `who` has authorized the call.
    pub fn allows(&self, who: &Address) -> (r: bool)
        ensures
            r == self@.contains(*who),
    {
        let mut i: usize = 0;
        while i < self.signers.len()
            invariant
                i <= self.signers@.len(),
                forall|j: int| 0 <= j < i ==> self.signers@[j] != *who,
            decreases self.signers@.len() - i,
        {
            if self.signers[i] == *who {
                return true;
            }
            i += 1;
        }
        false
    }
}

} // verus!
