use vstd::prelude::*;

verus! {

/// A byte offset into the write-ahead log.
pub type LogOffset = u64;

/// A log sequence number: a monotonically increasing write identifier.
pub type Lsn = u64;

/// Offsets stored inside a pointer payload are narrowed to 48 bits.
pub const OFFSET_LIMIT: u64 = 0x1_0000_0000_0000;

/// A log offset narrowed to the 48 bits that fit in a pointer payload.
///
/// The address range is traded away for packing density: every value of this
/// type is strictly below `OFFSET_LIMIT` (2^48).
#[derive(Clone, Copy, Debug, PartialEq, Eq, Structural)]
pub struct TruncatedLogOffset {
    off: u64,
}

impl View for TruncatedLogOffset {
    type V = u64;

    closed spec fn view(&self) -> u64 {
        self.off
    }
}

impl TruncatedLogOffset {
    /// Every truncated offset fits in 48 bits.
    #[verifier::type_invariant]
    pub closed spec fn inv(self) -> bool {
        self.off < OFFSET_LIMIT
    }

    /// Widen the stored 48-bit offset back to a full log offset.
    pub fn to_lid(&self) -> (r: LogOffset)
        ensures
            r == self@,
            r < OFFSET_LIMIT,
    {
        proof {
            use_type_invariant(self);
        }
        self.off
    }

    /// Narrow a log offset to 48 bits; offsets of 2^48 or more do not fit
    /// and are rejected up front.
    pub fn from_u64(from: u64) -> (r: TruncatedLogOffset)
        requires
            from < OFFSET_LIMIT,
        ensures
            r@ == from,
    {
        TruncatedLogOffset { off: from }
    }
}

/// A truncated offset is nothing but its 48-bit value: two values that widen
/// to the same log offset are the same value.
pub proof fn lemma_truncated_offset_injective(a: TruncatedLogOffset, b: TruncatedLogOffset)
    requires
        a@ == b@,
    ensures
        a == b,
{
}

} // verus!
