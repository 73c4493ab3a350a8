//! The bitcrusher's integer settings: its bit depth, the number of
//! quantisation levels that depth gives, and the sample-and-hold clock
//! that lowers the sample rate.
use vstd::prelude::*;

verus! {

/// Lowest bit depth.
pub const MIN_BITS: u8 = 1;

/// Highest bit depth.
pub const MAX_BITS: u8 = 16;

/// Lowest sample-rate reduction factor (no reduction).
pub const MIN_DOWNSAMPLE: u8 = 1;

/// Highest sample-rate reduction factor.
pub const MAX_DOWNSAMPLE: u8 = 50;

/// `x` clamped into `lo..=hi`.
pub open spec fn clamped(x: int, lo: int, hi: int) -> int {
    if x < lo {
        lo
    } else if x > hi {
        hi
    } else {
        x
    }
}

/// The bit depth that a requested depth becomes (1 - 16).
pub fn clamp_bits(bits: u8) -> (r: u8)
    ensures
        r == clamped(bits as int, MIN_BITS as int, MAX_BITS as int),
{
    if bits < MIN_BITS {
        MIN_BITS
    } else if bits > MAX_BITS {
        MAX_BITS
    } else {
        bits
    }
}

/// The number of quantisation levels of a bit depth: 2 to the depth.
pub fn quantize_levels(bits: u8) -> (r: u32)
    requires
        bits <= MAX_BITS,
    ensures
        r == vstd::arithmetic::power2::pow2(bits as nat),
{
    let mut levels: u32 = 1;
    let mut i: u8 = 0;
    proof {
        vstd::arithmetic::power2::lemma2_to64();
    }
    while i < bits
        invariant
            i <= bits <= MAX_BITS,
            levels == vstd::arithmetic::power2::pow2(i as nat),
        decreases bits - i,
    {
        proof {
            vstd::arithmetic::power2::lemma_pow2_unfold((i + 1) as nat);
            vstd::arithmetic::power2::lemma_pow2_strictly_increases(i as nat, 16);
            vstd::arithmetic::power2::lemma2_to64();
        }
        levels = levels * 2;
        i = i + 1;
    }
    levels
}

/// Whether the clock at count `c`, reducing by `n`, takes a new sample on
/// its next frame.
pub open spec fn fires(c: int, n: int) -> bool {
    c + 1 >= n
}

/// The count after the next frame.
pub open spec fn next_count(c: int, n: int) -> int {
    if fires(c, n) {
        0
    } else {
        c + 1
    }
}

/// The count after `k` frames from count `c`.
pub open spec fn count_after(c: int, n: int, k: nat) -> int
    decreases k,
{
    if k == 0 {
        c
    } else {
        next_count(count_after(c, n, (k - 1) as nat), n)
    }
}

/// The sample-and-hold clock of the bitcrusher: the held sample is
/// replaced on every `downsample`-th frame.
pub struct HoldClock {
    downsample: u8,
    counter: u8,
}

impl HoldClock {
    #[verifier::type_invariant]
    spec fn in_range(self) -> bool {
        &&& MIN_DOWNSAMPLE <= self.downsample <= MAX_DOWNSAMPLE
        &&& self.counter < MAX_DOWNSAMPLE
    }

    /// The reduction factor.
    pub closed spec fn factor(self) -> int {
        self.downsample as int
    }

    /// Frames counted since the last new sample.
    pub closed spec fn count(self) -> int {
        self.counter as int
    }

    /// A clock reducing by 4, at the start of its count.
    pub fn new() -> (r: Self)
        ensures
            r.factor() == 4,
            r.count() == 0,
    {
        HoldClock { downsample: 4, counter: 0 }
    }

    /// The reduction factor (1 - 50).
    pub fn downsample(&self) -> (r: u8)
        ensures
            r == self.factor(),
            MIN_DOWNSAMPLE <= r <= MAX_DOWNSAMPLE,
    {
        proof {
            use_type_invariant(self);
        }
        self.downsample
    }

    /// Set the reduction factor, clamped into 1 - 50. The count goes on.
    pub fn set_downsample(&mut self, factor: u8)
        ensures
            final(self).factor() == clamped(factor as int, MIN_DOWNSAMPLE as int, MAX_DOWNSAMPLE as int),
            final(self).count() == old(self).count(),
    {
        proof {
            use_type_invariant(&*self);
        }
        let f = if factor < MIN_DOWNSAMPLE {
            MIN_DOWNSAMPLE
        } else if factor > MAX_DOWNSAMPLE {
            MAX_DOWNSAMPLE
        } else {
            factor
        };
        self.downsample = f;
    }

    /// Count one frame; returns whether a new sample is taken on it.
    pub fn tick(&mut self) -> (r: bool)
        ensures
            r == fires(old(self).count(), old(self).factor()),
            final(self).count() == next_count(old(self).count(), old(self).factor()),
            final(self).factor() == old(self).factor(),
    {
        proof {
            use_type_invariant(&*self);
        }
        let c = self.counter + 1;
        if c >= self.downsample {
            self.counter = 0;
            true
        } else {
            self.counter = c;
            false
        }
    }

    /// Start the count over.
    pub fn reset(&mut self)
        ensures
            final(self).count() == 0,
            final(self).factor() == old(self).factor(),
    {
        proof {
            use_type_invariant(&*self);
        }
        self.counter = 0;
    }
}

/// From the start of its count, the clock takes a new sample exactly on
/// every `n`-th frame: after `k` frames its count is `k mod n`.
pub proof fn lemma_hold_every_nth(n: int, k: nat)
    requires
        n >= 1,
    ensures
        count_after(0, n, k) == (k as int) % n,
        k >= 1 ==> (fires(count_after(0, n, (k - 1) as nat), n) <==> (k as int) % n == 0),
    decreases k,
{
    if k > 0 {
        lemma_hold_every_nth(n, (k - 1) as nat);
        let p = (k - 1) as int;
        assert(count_after(0, n, (k - 1) as nat) == p % n);
        vstd::arithmetic::div_mod::lemma_fundamental_div_mod(p, n);
        let q = p / n;
        let r = p % n;
        assert(0 <= r < n);
        if r + 1 >= n {
            assert(k == (q + 1) * n + 0) by (nonlinear_arith)
                requires
                    p == n * q + r,
                    r == n - 1,
                    k == p + 1,
            ;
            vstd::arithmetic::div_mod::lemma_fundamental_div_mod_converse(k as int, n, q + 1, 0);
        } else {
            assert(k == q * n + (r + 1)) by (nonlinear_arith)
                requires
                    p == n * q + r,
                    k == p + 1,
            ;
            vstd::arithmetic::div_mod::lemma_fundamental_div_mod_converse(k as int, n, q, r + 1);
        }
    } else {
        vstd::arithmetic::div_mod::lemma_small_mod(0, n as nat);
    }
}

} // verus!
