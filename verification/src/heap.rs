use vstd::arithmetic::power2::pow2;
use vstd::bits::{lemma_u64_pow2_no_overflow, lemma_u64_shl_is_mul};
use vstd::prelude::*;

verus! {

/// No heap slab exists below this size-class exponent: slab 0 stores items
/// of the smallest bucket, whose exponent is exactly this floor.
pub const MIN_TRAILING_ZEROS: u8 = 6;

/// Coordinates of a slot in the size-classed heap store: which slab, and
/// which slot within it.  The slab index is a size-class exponent shifted
/// down by [`MIN_TRAILING_ZEROS`].
#[derive(Clone, Copy, Debug, PartialEq, Eq, Structural)]
pub struct HeapId {
    pub slab: u8,
    pub index: u32,
}

impl HeapId {
    /// The byte size of the items this slab stores:
    /// two to the slab's size-class exponent.
    pub fn slab_size(&self) -> (r: u64)
        requires
            self.slab + MIN_TRAILING_ZEROS < 64,
        ensures
            r == pow2((self.slab + MIN_TRAILING_ZEROS) as nat),
    {
        let exp: u8 = self.slab + MIN_TRAILING_ZEROS;
        proof {
            lemma_u64_pow2_no_overflow(exp as nat);
            lemma_u64_shl_is_mul(1, exp as u64);
        }
        1u64 << exp
    }
}

} // verus!
