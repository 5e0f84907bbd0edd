//! Who a participant is, as far as a plan can tell.

use vstd::prelude::*;

verus! {

/// The verified identity of a caller or an asset: 32 bytes, compared byte by
/// byte. Whoever hands one in has authenticated it.
pub type Identity = [u8; 32];

/// Whether two identities are the same.
pub fn same_identity(left: &Identity, right: &Identity) -> (same: bool)
    ensures
        same == (*left == *right),
{
    let mut index: usize = 0;
    while index < 32
        invariant
            index <= 32,
            forall|i: int| 0 <= i < index ==> left[i] == right[i],
        decreases 32 - index,
    {
        if left[index] != right[index] {
            return false;
        }
        index = index + 1;
    }
    assert(*left =~= *right);
    true
}

} // verus!
