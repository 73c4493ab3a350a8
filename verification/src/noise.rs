//! The integer state steps of the noise sources: the bitcrusher's Galois
//! LFSR and the xorshift generators of the vinyl crackle and the
//! wow/flutter drift. The conversion of a state to a sample level is the
//! caller's.
use vstd::prelude::*;

verus! {

/// Feedback taps of the bitcrusher's LFSR (bits 31, 21, 1, 0 of the
/// shifted state).
pub const LFSR_TAPS: u32 = 0xB400_0000;

/// Seed of the bitcrusher's LFSR.
pub const LFSR_SEED: u32 = 0x1234_5678;

/// Seed of the vinyl crackle generator.
pub const CRACKLE_SEED: u64 = 0xDEAD_BEEF_CAFE_BABE;

/// Seed of the wow/flutter drift generator.
pub const DRIFT_SEED: u32 = 0xDEAD_BEEF;

/// One step of the Galois LFSR: shift right, and fold the taps in when the
/// bit shifted out was set.
pub open spec fn lfsr_next(s: u32) -> u32 {
    if s & 1 == 1 {
        (s >> 1) ^ LFSR_TAPS
    } else {
        s >> 1
    }
}

/// One step of the 64-bit xorshift generator, shifts 13, 7, 17.
pub open spec fn xorshift64_next(s: u64) -> u64 {
    let a = s ^ ((s << 13u64) as u64);
    let b = a ^ (a >> 7u64);
    b ^ ((b << 17u64) as u64)
}

/// One step of the 32-bit xorshift generator, shifts 13, 17, 5.
pub open spec fn xorshift32_next(s: u32) -> u32 {
    let a = s ^ ((s << 13u32) as u32);
    let b = a ^ (a >> 17u32);
    b ^ ((b << 5u32) as u32)
}

/// Advances the bitcrusher's noise state by one step.
pub fn lfsr_step(state: u32) -> (r: u32)
    ensures
        r == lfsr_next(state),
        state != 0 ==> r != 0,
{
    let lsb = state & 1;
    let mut s = state >> 1;
    if lsb == 1 {
        s = s ^ LFSR_TAPS;
    }
    proof {
        assert(state != 0 ==> lfsr_next(state) != 0) by (bit_vector);
    }
    s
}

/// Advances a 64-bit xorshift state by one step.
pub fn xorshift64_step(state: u64) -> (r: u64)
    ensures
        r == xorshift64_next(state),
        state != 0 ==> r != 0,
{
    let mut s = state;
    s = s ^ (s << 13u64);
    s = s ^ (s >> 7u64);
    s = s ^ (s << 17u64);
    proof {
        lemma_xorshift64_nonzero(state);
    }
    s
}

/// Advances a 32-bit xorshift state by one step.
pub fn xorshift32_step(state: u32) -> (r: u32)
    ensures
        r == xorshift32_next(state),
        state != 0 ==> r != 0,
{
    let mut s = state;
    s = s ^ (s << 13u32);
    s = s ^ (s >> 17u32);
    s = s ^ (s << 5u32);
    proof {
        lemma_xorshift32_nonzero(state);
    }
    s
}

/// A xorshift step loses no information, so a nonzero state never
/// reaches zero.
pub proof fn lemma_xorshift64_nonzero(s: u64)
    ensures
        s != 0 ==> xorshift64_next(s) != 0,
{
    let a = s ^ ((s << 13u64) as u64);
    let b = a ^ (a >> 7u64);
    assert(s != 0 ==> s ^ ((s << 13u64) as u64) != 0) by (bit_vector);
    assert(a != 0 ==> a ^ (a >> 7u64) != 0) by (bit_vector);
    assert(b != 0 ==> b ^ ((b << 17u64) as u64) != 0) by (bit_vector);
}

/// The 32-bit xorshift step keeps a nonzero state nonzero.
pub proof fn lemma_xorshift32_nonzero(s: u32)
    ensures
        s != 0 ==> xorshift32_next(s) != 0,
{
    let a = s ^ ((s << 13u32) as u32);
    let b = a ^ (a >> 17u32);
    assert(s != 0 ==> s ^ ((s << 13u32) as u32) != 0) by (bit_vector);
    assert(a != 0 ==> a ^ (a >> 17u32) != 0) by (bit_vector);
    assert(b != 0 ==> b ^ ((b << 5u32) as u32) != 0) by (bit_vector);
}

/// The state reached from `s` after `n` LFSR steps.
pub open spec fn lfsr_after(s: u32, n: nat) -> u32
    decreases n,
{
    if n == 0 {
        s
    } else {
        lfsr_next(lfsr_after(s, (n - 1) as nat))
    }
}

/// From a nonzero seed the LFSR never reaches the all-zero state, from
/// which it could not leave.
pub proof fn lemma_lfsr_never_stalls(s: u32, n: nat)
    requires
        s != 0,
    ensures
        lfsr_after(s, n) != 0,
        lfsr_next(0) == 0,
    decreases n,
{
    assert(lfsr_next(0) == 0) by (bit_vector);
    if n > 0 {
        lemma_lfsr_never_stalls(s, (n - 1) as nat);
        let p = lfsr_after(s, (n - 1) as nat);
        assert(p != 0 ==> lfsr_next(p) != 0) by (bit_vector);
    }
}

} // verus!
