use ole::limiter::PeakHoldBuffer;

fn level(x: f32) -> u32 {
    x.to_bits()
}

#[test]
fn test_peak_hold_buffer() {
    let mut buffer = PeakHoldBuffer::new(3);

    // Push increasing values
    assert_eq!(buffer.push(level(0.5)), level(0.5));
    assert_eq!(buffer.push(level(0.7)), level(0.7));
    assert_eq!(buffer.push(level(0.6)), level(0.7)); // Still 0.7 (held)

    // After hold time, should see decrease
    assert_eq!(buffer.push(level(0.4)), level(0.7)); // 0.7 not expired yet
    assert_eq!(buffer.push(level(0.3)), level(0.6)); // 0.7 expired, next is 0.6
    assert_eq!(buffer.push(level(0.2)), level(0.4)); // Continue decay
}

#[test]
fn peak_hold_of_one_sample_follows_the_input() {
    let mut buffer = PeakHoldBuffer::new(1);
    assert_eq!(buffer.push(9), 9);
    assert_eq!(buffer.push(2), 2);
    assert_eq!(buffer.push(5), 5);
}

#[test]
fn peak_hold_of_zero_samples_is_the_current_level() {
    let mut buffer = PeakHoldBuffer::new(0);
    assert_eq!(buffer.push(7), 7);
    assert_eq!(buffer.push(3), 3);
}

#[test]
fn peak_hold_keeps_equal_levels() {
    let mut buffer = PeakHoldBuffer::new(2);
    assert_eq!(buffer.push(4), 4);
    assert_eq!(buffer.push(4), 4);
    assert_eq!(buffer.push(1), 4);
    assert_eq!(buffer.push(1), 1);
}

#[test]
fn peak_hold_reset_forgets_the_window() {
    let mut buffer = PeakHoldBuffer::new(4);
    assert_eq!(buffer.push(100), 100);
    buffer.reset();
    assert_eq!(buffer.push(1), 1);
}

#[test]
fn peak_bits_order_as_the_peaks() {
    let xs = [0.0f32, 0.001, 0.25, 0.5, 0.99, 1.0, 1.5, 12.0];
    for w in xs.windows(2) {
        assert!(level(w[0]) < level(w[1]));
    }
}
