use vstd::arithmetic::power2::{
    lemma2_to64, lemma2_to64_rest, lemma_pow2_pos, lemma_pow2_strictly_increases,
    lemma_pow2_unfold, pow2,
};
use vstd::prelude::*;

verus! {

/// A byte length compressed into a power-of-two bucket: only the exponent is
/// stored, so an upper bound on the original length is all that survives.
#[derive(Clone, Copy, Debug, PartialEq, Eq, Structural)]
pub struct SizeClass {
    exp: u8,
}

/// The exponent of the smallest power of two that is at least `n`
/// (0 for lengths of at most 1).
pub open spec fn class_exp(n: int) -> nat
    decreases n,
{
    if n <= 1 {
        0
    } else {
        class_exp((n + 1) / 2) + 1
    }
}

/// `class_exp(n)` is the least exponent whose power of two reaches `n`:
/// `2^class_exp(n)` is at least `n`, and the next smaller power of two
/// (when there is one) is strictly below `n`.
pub proof fn lemma_class_exp_bounds(n: int)
    requires
        n >= 0,
    ensures
        pow2(class_exp(n)) >= n,
        class_exp(n) > 0 ==> pow2((class_exp(n) - 1) as nat) < n,
    decreases n,
{
    lemma2_to64();
    if n > 1 {
        let m = (n + 1) / 2;
        lemma_class_exp_bounds(m);
        let e = class_exp(m);
        lemma_pow2_unfold(e + 1);
        if e > 0 {
            assert(pow2((e - 1) as nat) <= m - 1);
            lemma_pow2_unfold(e);
        }
    }
}

/// Any exponent that satisfies the "least power of two at or above `n`"
/// characterization is `class_exp(n)`.
pub proof fn lemma_class_exp_unique(n: int, e: nat)
    requires
        n >= 0,
        pow2(e) >= n,
        e > 0 ==> pow2((e - 1) as nat) < n,
        n <= 1 ==> e == 0,
    ensures
        e == class_exp(n),
{
    lemma_class_exp_bounds(n);
    let c = class_exp(n);
    if e < c {
        // then c > 0 and pow2(e) <= pow2(c - 1) < n, contradicting pow2(e) >= n
        if e < c - 1 {
            lemma_pow2_strictly_increases(e, (c - 1) as nat);
        }
    } else if c < e {
        // then e > 0 and pow2(c) <= pow2(e - 1) < n, contradicting pow2(c) >= n
        if c < e - 1 {
            lemma_pow2_strictly_increases(c, (e - 1) as nat);
        }
    }
}

/// A longer length never lands in a smaller bucket.
pub proof fn lemma_class_exp_monotonic(n1: int, n2: int)
    requires
        0 <= n1 <= n2,
    ensures
        class_exp(n1) <= class_exp(n2),
        pow2(class_exp(n1)) <= pow2(class_exp(n2)),
{
    lemma_class_exp_bounds(n1);
    lemma_class_exp_bounds(n2);
    let e1 = class_exp(n1);
    let e2 = class_exp(n2);
    if e2 < e1 {
        // pow2(e2) <= pow2(e1 - 1) < n1 <= n2, contradicting pow2(e2) >= n2
        if e2 < e1 - 1 {
            lemma_pow2_strictly_increases(e2, (e1 - 1) as nat);
        }
    }
    if e1 < e2 {
        lemma_pow2_strictly_increases(e1, e2);
    }
}

/// The bucket bound is tight: the chosen power of two is at least `n` and,
/// for positive `n`, below `2 * n`; a length of 0 still occupies the
/// one-byte bucket.
pub proof fn lemma_size_class_tight(n: int)
    requires
        n >= 0,
    ensures
        pow2(class_exp(n)) >= n,
        n > 0 ==> pow2(class_exp(n)) < 2 * n,
        n == 0 ==> pow2(class_exp(n)) == 1,
{
    lemma2_to64();
    lemma_class_exp_bounds(n);
    let e = class_exp(n);
    if n > 0 && e > 0 {
        lemma_pow2_unfold(e);
    }
}

impl SizeClass {
    /// The stored exponent.
    pub closed spec fn exp_spec(self) -> u8 {
        self.exp
    }

    /// The stored exponent, for packing into a pointer's size byte.
    pub fn exp(&self) -> (r: u8)
        ensures
            r == self.exp_spec(),
    {
        self.exp
    }

    /// Build a size class from an exponent already in hand (used when
    /// decoding the size byte of a pointer).
    pub(crate) fn from_exp(exp: u8) -> (r: SizeClass)
        ensures
            r.exp_spec() == exp,
    {
        SizeClass { exp }
    }

    /// Round a byte length up to the next power of two and keep only that
    /// power's exponent.
    pub fn from(item: u64) -> (r: SizeClass)
        requires
            item <= 0x8000_0000_0000_0000,
        ensures
            r.exp_spec() == class_exp(item as int),
            r.exp_spec() <= 63,
    {
        let mut e: u8 = 0;
        let mut sz: u64 = 1;
        proof {
            lemma2_to64();
        }
        while sz < item
            invariant
                item <= 0x8000_0000_0000_0000,
                e <= 63,
                sz == pow2(e as nat),
                e > 0 ==> pow2((e - 1) as nat) < item,
            decreases (if sz < item { item - sz } else { 0int }),
        {
            proof {
                // sz < item <= 2^63, and sz is a power of two, so sz <= 2^62
                // and the doubling below stays in range.
                lemma2_to64_rest();
                lemma_pow2_pos(e as nat);
                lemma_pow2_unfold((e + 1) as nat);
                if e + 1 > 63 {
                    lemma_pow2_strictly_increases(63, (e + 1) as nat);
                }
            }
            sz = sz * 2;
            e = e + 1;
        }
        proof {
            if e > 0 {
                lemma_pow2_pos((e - 1) as nat);
            }
            lemma_class_exp_unique(item as int, e as nat);
        }
        SizeClass { exp: e }
    }

    /// The effective size of the bucket: two to the stored exponent.
    pub fn size(&self) -> (r: usize)
        requires
            self.exp_spec() < usize::BITS,
        ensures
            r == pow2(self.exp_spec() as nat),
    {
        proof {
            vstd::bits::lemma_usize_pow2_no_overflow(self.exp as nat);
            vstd::bits::lemma_usize_shl_is_mul(1, self.exp as usize);
        }
        1usize << self.exp
    }
}

} // verus!
