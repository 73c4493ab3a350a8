use ole::noise::{
    lfsr_step, xorshift32_step, xorshift64_step, CRACKLE_SEED, DRIFT_SEED, LFSR_SEED, LFSR_TAPS,
};

#[test]
fn lfsr_shifts_and_folds_the_taps() {
    assert_eq!(LFSR_SEED, 0x1234_5678);
    // Even state: a plain shift.
    assert_eq!(lfsr_step(LFSR_SEED), 0x091A_2B3C);
    assert_eq!(lfsr_step(0x091A_2B3C), 0x048D_159E);
    // Odd state: the taps are folded in.
    assert_eq!(lfsr_step(1), LFSR_TAPS);
    assert_eq!(lfsr_step(0xFFFF_FFFF), 0x7FFF_FFFF ^ 0xB400_0000);
}

#[test]
fn lfsr_stays_at_zero_and_never_reaches_it() {
    assert_eq!(lfsr_step(0), 0);
    let mut s = LFSR_SEED;
    for _ in 0..100_000 {
        s = lfsr_step(s);
        assert_ne!(s, 0);
    }
}

#[test]
fn xorshift_steps_match_their_shifts() {
    assert_eq!(xorshift32_step(DRIFT_SEED), 0x477D_20B7);
    assert_eq!(xorshift64_step(CRACKLE_SEED), 0x27DC_5C1B_2D04_284B);
    assert_eq!(xorshift32_step(0), 0);
    assert_eq!(xorshift64_step(0), 0);
}

#[test]
fn xorshift_never_reaches_zero() {
    let mut a = DRIFT_SEED;
    let mut b = CRACKLE_SEED;
    for _ in 0..100_000 {
        a = xorshift32_step(a);
        b = xorshift64_step(b);
        assert_ne!(a, 0);
        assert_ne!(b, 0);
    }
}
