use ole::bitcrush::{clamp_bits, quantize_levels, HoldClock};

#[test]
fn bit_depth_is_clamped() {
    assert_eq!(clamp_bits(0), 1);
    assert_eq!(clamp_bits(1), 1);
    assert_eq!(clamp_bits(8), 8);
    assert_eq!(clamp_bits(16), 16);
    assert_eq!(clamp_bits(32), 16);
    assert_eq!(clamp_bits(255), 16);
}

#[test]
fn levels_are_powers_of_two() {
    assert_eq!(quantize_levels(0), 1);
    assert_eq!(quantize_levels(1), 2);
    assert_eq!(quantize_levels(4), 16);
    assert_eq!(quantize_levels(8), 256);
    assert_eq!(quantize_levels(16), 65536);
}

#[test]
fn downsample_factor_is_clamped() {
    let mut clock = HoldClock::new();
    assert_eq!(clock.downsample(), 4);
    clock.set_downsample(100);
    assert_eq!(clock.downsample(), 50);
    clock.set_downsample(0);
    assert_eq!(clock.downsample(), 1);
    clock.set_downsample(7);
    assert_eq!(clock.downsample(), 7);
}

#[test]
fn hold_clock_fires_every_nth_frame() {
    let mut clock = HoldClock::new();
    let fired: Vec<bool> = (0..12).map(|_| clock.tick()).collect();
    assert_eq!(
        fired,
        vec![false, false, false, true, false, false, false, true, false, false, false, true]
    );
}

#[test]
fn factor_one_fires_on_every_frame() {
    let mut clock = HoldClock::new();
    clock.set_downsample(1);
    for _ in 0..5 {
        assert!(clock.tick());
    }
}

#[test]
fn lowering_the_factor_fires_on_the_next_frame() {
    let mut clock = HoldClock::new();
    clock.set_downsample(10);
    for _ in 0..6 {
        assert!(!clock.tick());
    }
    clock.set_downsample(2);
    assert!(clock.tick());
    assert!(!clock.tick());
    assert!(clock.tick());
    clock.tick();
    clock.reset();
    assert!(!clock.tick());
    assert!(clock.tick());
}
