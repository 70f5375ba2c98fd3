//! The one decision made while mirroring the registry data files:
//! whether a freshly fetched checksum obliges a new download.

use vstd::prelude::*;

verus! {

/// A data file must be fetched again iff the fetched checksum is empty
/// or differs from the stored one.
pub fn should_refresh(old_digest: &Vec<u8>, new_digest: &Vec<u8>) -> (r: bool)
    ensures
        r == (new_digest@.len() == 0 || old_digest@ != new_digest@),
{
    if new_digest.len() == 0 {
        return true;
    }
    if old_digest.len() != new_digest.len() {
        return true;
    }
    let mut i: usize = 0;
    while i < new_digest.len()
        invariant
            i <= new_digest@.len(),
            old_digest@.len() == new_digest@.len(),
            forall|j: int| 0 <= j < i ==> old_digest@[j] == new_digest@[j],
        decreases new_digest@.len() - i,
    {
        if old_digest[i] != new_digest[i] {
            return true;
        }
        i = i + 1;
    }
    proof {
        assert(old_digest@ =~= new_digest@);
    }
    false
}

} // verus!
