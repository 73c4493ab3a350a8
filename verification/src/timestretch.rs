//! Time-stretching settings and the index table of the in-place FFT.
use vstd::prelude::*;

verus! {

/// Phase locking modes for different quality/CPU trade-offs
#[derive(Debug, Clone, Copy, PartialEq, Eq, Structural)]
pub enum PhaseLockMode {
    /// No phase locking (fastest, most phasiness)
    Off,
    /// Identity phase locking (good quality, low CPU)
    Identity,
    /// Peak-locked phase locking (best quality, higher CPU)
    PeakLocked,
}

impl Default for PhaseLockMode {
    fn default() -> (r: Self)
        ensures
            r == PhaseLockMode::PeakLocked,
    {
        PhaseLockMode::PeakLocked
    }
}

/// FFT size options optimized for audio time-stretching
#[derive(Debug, Clone, Copy, PartialEq, Eq, Structural)]
pub enum FftSize {
    /// 1024 samples - lower latency, less frequency resolution
    Small,
    /// 2048 samples - balanced (recommended)
    Medium,
    /// 4096 samples - higher quality, more latency
    Large,
}

impl Default for FftSize {
    fn default() -> (r: Self)
        ensures
            r == FftSize::Medium,
    {
        FftSize::Medium
    }
}

/// `2^k`.
pub open spec fn exp2(k: nat) -> nat
    decreases k,
{
    if k == 0 {
        1
    } else {
        2 * exp2((k - 1) as nat)
    }
}

/// The base-2 logarithm of each FFT size.
pub open spec fn fft_log2(s: FftSize) -> nat {
    match s {
        FftSize::Small => 10,
        FftSize::Medium => 11,
        FftSize::Large => 12,
    }
}

/// The number of samples in a frame of each FFT size.
pub open spec fn fft_len(s: FftSize) -> nat {
    exp2(fft_log2(s))
}

proof fn lemma_fft_len_values()
    ensures
        fft_len(FftSize::Small) == 1024,
        fft_len(FftSize::Medium) == 2048,
        fft_len(FftSize::Large) == 4096,
{
    reveal_with_fuel(exp2, 13);
}

impl FftSize {
    /// Frame length in samples
    pub fn as_usize(self) -> (r: usize)
        ensures
            r == fft_len(self),
    {
        proof {
            lemma_fft_len_values();
        }
        match self {
            FftSize::Small => 1024,
            FftSize::Medium => 2048,
            FftSize::Large => 4096,
        }
    }

    /// Hop between frames: a quarter frame, for 75% overlap
    pub fn hop_size(self) -> (r: usize)
        ensures
            r == fft_len(self) / 4,
            r * 4 == fft_len(self),
    {
        proof {
            lemma_fft_len_values();
        }
        // 75% overlap for high quality
        self.as_usize() / 4
    }

    /// Base-2 logarithm of the frame length
    pub fn log2(self) -> (r: u32)
        ensures
            r == fft_log2(self),
            exp2(r as nat) == fft_len(self),
    {
        match self {
            FftSize::Small => 10,
            FftSize::Medium => 11,
            FftSize::Large => 12,
        }
    }
}

/// Reading the low `k` bits of `n` from the bottom up, appended to `acc`.
pub open spec fn reverse_acc(n: nat, k: nat, acc: nat) -> nat
    decreases k,
{
    if k == 0 {
        acc
    } else {
        reverse_acc(n / 2, (k - 1) as nat, acc * 2 + n % 2)
    }
}

/// The low `k` bits of `n` in reverse order.
pub open spec fn reverse_bits(n: nat, k: nat) -> nat {
    reverse_acc(n, k, 0)
}

proof fn lemma_exp2_monotone(j: nat, k: nat)
    requires
        j <= k,
    ensures
        exp2(j) <= exp2(k),
    decreases k - j,
{
    if j < k {
        lemma_exp2_monotone(j, (k - 1) as nat);
    }
}

/// Appending `k` more bits to `acc` multiplies it by `2^k` and adds at most
/// `2^k - 1`.
proof fn lemma_reverse_acc_bound(n: nat, k: nat, acc: nat)
    ensures
        reverse_acc(n, k, acc) < (acc + 1) * exp2(k),
    decreases k,
{
    if k > 0 {
        let e = exp2((k - 1) as nat);
        let b = n % 2;
        lemma_reverse_acc_bound(n / 2, (k - 1) as nat, acc * 2 + b);
        assert(reverse_acc(n, k, acc) == reverse_acc(n / 2, (k - 1) as nat, acc * 2 + b));
        assert((acc * 2 + b + 1) * e <= (acc + 1) * (2 * e)) by (nonlinear_arith)
            requires
                b <= 1,
        ;
        assert(exp2(k) == 2 * e);
    } else {
        assert(exp2(0) == 1);
        assert((acc + 1) * 1 == acc + 1);
    }
}

/// Every entry of a bit-reversal table indexes the frame.
pub proof fn lemma_reverse_bits_in_frame(n: nat, k: nat)
    ensures
        reverse_bits(n, k) < exp2(k),
{
    lemma_reverse_acc_bound(n, k, 0);
    let e = exp2(k);
    assert((0 + 1) * e == e) by (nonlinear_arith);
}

/// Bits already read stay ahead of the ones still to read.
proof fn lemma_reverse_acc_split(n: nat, k: nat, acc: nat)
    ensures
        reverse_acc(n, k, acc) == acc * exp2(k) + reverse_bits(n, k),
    decreases k,
{
    if k == 0 {
        assert(acc * 1 == acc) by (nonlinear_arith);
    } else {
        let b = n % 2;
        let e = exp2((k - 1) as nat);
        lemma_reverse_acc_split(n / 2, (k - 1) as nat, acc * 2 + b);
        lemma_reverse_acc_split(n / 2, (k - 1) as nat, b);
        assert(reverse_bits(n, k) == reverse_acc(n / 2, (k - 1) as nat, b));
        assert((acc * 2 + b) * e == acc * (2 * e) + b * e) by (nonlinear_arith);
    }
}

/// The lowest bit of `n` becomes the highest of its reversal.
proof fn lemma_reverse_low_bit(n: nat, k: nat)
    requires
        k > 0,
    ensures
        reverse_bits(n, k) == (n % 2) * exp2((k - 1) as nat) + reverse_bits(n / 2, (k - 1) as nat),
{
    lemma_reverse_acc_split(n / 2, (k - 1) as nat, n % 2);
}

/// The highest bit of a `k`-bit number becomes the lowest of its reversal.
proof fn lemma_reverse_high_bit(n: nat, k: nat)
    requires
        k > 0,
        n < exp2(k),
    ensures
        reverse_bits(n, k) == 2 * reverse_bits(n % exp2((k - 1) as nat), (k - 1) as nat) + n / exp2(
            (k - 1) as nat,
        ),
    decreases k,
{
    let e = exp2((k - 1) as nat);
    lemma_reverse_low_bit(n, k);
    if k == 1 {
        assert(e == 1);
        assert(n % 1 == 0 && n / 1 == n);
        assert(reverse_bits(n / 2, 0) == 0);
        assert(reverse_bits(0, 0) == 0);
        assert(n / 2 == 0);
    } else {
        let f = exp2((k - 2) as nat);
        assert(e == 2 * f);
        let q = n / 2;
        let l = n % e;
        assert(q < e) by {
            assert(n < 2 * e);
        }
        lemma_reverse_high_bit(q, (k - 1) as nat);
        lemma_reverse_low_bit(l, (k - 1) as nat);
        vstd::arithmetic::div_mod::lemma_mod_breakdown(n as int, 2, f as int);
        vstd::arithmetic::div_mod::lemma_div_denominator(n as int, 2, f as int);
        assert(l == 2 * (q % f) + n % 2);
        assert(l % 2 == n % 2 && l / 2 == q % f);
        assert(n / e == q / f);
        assert(2 * ((n % 2) * f) == (n % 2) * e) by (nonlinear_arith)
            requires
                e == 2 * f,
        ;
    }
}

/// Reversing the bits of a `k`-bit number twice gives the number back: the
/// bit-reversal table is its own inverse, so it is a permutation of the
/// frame indices.
pub proof fn lemma_reverse_bits_involution(n: nat, k: nat)
    requires
        n < exp2(k),
    ensures
        reverse_bits(reverse_bits(n, k), k) == n,
    decreases k,
{
    if k == 0 {
        assert(n == 0);
    } else {
        let e = exp2((k - 1) as nat);
        let b = n % 2;
        let q = n / 2;
        let rq = reverse_bits(q, (k - 1) as nat);
        lemma_reverse_low_bit(n, k);
        lemma_reverse_bits_in_frame(q, (k - 1) as nat);
        let r = reverse_bits(n, k);
        assert(r == b * e + rq);
        assert(r < exp2(k)) by {
            lemma_reverse_bits_in_frame(n, k);
        }
        assert(r % e == rq && r / e == b) by {
            vstd::arithmetic::div_mod::lemma_fundamental_div_mod_converse(r as int, e as int, b as int, rq as int);
        }
        lemma_reverse_high_bit(r, k);
        assert(q < e);
        lemma_reverse_bits_involution(q, (k - 1) as nat);
    }
}

/// Bit-reversal permutation table for the in-place FFT: entry `i` is `i`
/// with the bits of the frame index reversed.
pub fn compute_bit_reversal(fft_size: FftSize) -> (r: Vec<usize>)
    ensures
        r@.len() == fft_len(fft_size),
        forall|i: int| 0 <= i < r@.len() ==> r@[i] == reverse_bits(i as nat, fft_log2(fft_size)),
{
    let size = fft_size.as_usize();
    let log2_size = fft_size.log2();
    proof {
        lemma_fft_len_values();
    }
    let mut table: Vec<usize> = Vec::new();
    let mut i: usize = 0;
    while i < size
        invariant
            size == fft_len(fft_size) <= 4096,
            log2_size == fft_log2(fft_size),
            i <= size,
            table@.len() == i,
            forall|m: int| 0 <= m < i ==> table@[m] == reverse_bits(m as nat, log2_size as nat),
        decreases size - i,
    {
        let mut rev: usize = 0;
        let mut n: usize = i;
        let mut j: u32 = 0;
        while j < log2_size
            invariant
                size == fft_len(fft_size) <= 4096,
                log2_size == fft_log2(fft_size),
                j <= log2_size,
                n <= i < size,
                reverse_acc(n as nat, (log2_size - j) as nat, rev as nat) == reverse_bits(
                    i as nat,
                    log2_size as nat,
                ),
                rev < exp2(j as nat),
            decreases log2_size - j,
        {
            proof {
                lemma_exp2_monotone((j + 1) as nat, log2_size as nat);
            }
            rev = rev * 2 + n % 2;
            n = n / 2;
            j = j + 1;
        }
        table.push(rev);
        i = i + 1;
    }
    table
}

} // verus!
