use ole::beat_repeat::{RepeatCursor, BUFFER_FRAMES, BUFFER_LEN};
use ole::recording::{RecordingState, MAX_RECORDING_SAMPLES};
use ole::timestretch::{compute_bit_reversal, FftSize};

#[test]
fn recording_captures_only_while_on() {
    let mut rec: RecordingState<f32> = RecordingState::new(48000);
    rec.add_samples(&[0.1, 0.2]);
    assert_eq!(rec.len(), 0);
    rec.start();
    rec.add_samples(&[0.1, 0.2]);
    rec.add_samples(&[0.3]);
    rec.stop();
    rec.add_samples(&[0.4]);
    let (buf, rate) = rec.take_buffer();
    assert_eq!(buf, vec![0.1, 0.2, 0.3]);
    assert_eq!(rate, 48000);
    assert_eq!(rec.len(), 0);
}

#[test]
fn recording_stops_at_the_limit() {
    let mut rec: RecordingState<()> = RecordingState::new(44100);
    rec.start();
    rec.add_samples(&[(); 3]);
    let too_many = vec![(); MAX_RECORDING_SAMPLES - 2];
    rec.add_samples(&too_many);
    assert!(!rec.is_recording);
    assert_eq!(rec.len(), 3);
}

#[test]
fn fft_sizes() {
    assert_eq!(FftSize::default(), FftSize::Medium);
    assert_eq!(FftSize::Small.as_usize(), 1024);
    assert_eq!(FftSize::Large.hop_size(), 1024);
    assert_eq!(FftSize::Medium.log2(), 11);
}

#[test]
fn bit_reversal_table_is_a_self_inverse_permutation() {
    for size in [FftSize::Small, FftSize::Medium, FftSize::Large] {
        let table = compute_bit_reversal(size);
        assert_eq!(table.len(), size.as_usize());
        for i in 0..table.len() {
            assert!(table[i] < table.len());
            assert_eq!(table[table[i]], i);
        }
    }
    let small = compute_bit_reversal(FftSize::Small);
    assert_eq!(small[1], 512);
    assert_eq!(small[3], 768);
    assert_eq!(small[1023], 1023);
}

#[test]
fn beat_repeat_segment_behind_the_write_position() {
    let mut c = RepeatCursor::new(8, 1000);
    for _ in 0..10 {
        c.capture_frame();
    }
    c.trigger(8);
    assert!(c.is_triggered());
    assert_eq!(c.read_pos(), 12);
    let mut wraps = 0;
    for _ in 0..12 {
        if c.advance_read_pos() {
            wraps += 1;
        }
        assert!((12..20).contains(&c.read_pos()));
    }
    assert_eq!(wraps, 3);
    assert_eq!(c.repeat_count(), 3);
    c.trigger(8);
    assert!(!c.is_triggered());
}

#[test]
fn beat_repeat_segment_wrapping_the_buffer() {
    let mut c = RepeatCursor::new(6, 1000);
    c.capture_frame();
    c.trigger(6);
    assert_eq!(c.read_pos(), BUFFER_LEN - 4);
    assert!(!c.advance_read_pos());
    assert_eq!(c.read_pos(), BUFFER_LEN - 2);
    assert!(!c.advance_read_pos());
    assert_eq!(c.read_pos(), 0);
    assert!(c.advance_read_pos());
    assert_eq!(c.read_pos(), BUFFER_LEN - 4);
}

#[test]
fn beat_repeat_auto_release_and_write_wrap() {
    let mut c = RepeatCursor::new(4, 6);
    c.trigger(4);
    assert!(!c.count_auto_release());
    assert!(!c.count_auto_release());
    assert!(c.count_auto_release());
    assert!(!c.is_triggered());
    let mut last = 0;
    for _ in 0..BUFFER_FRAMES {
        last = c.capture_frame();
    }
    assert_eq!(last, BUFFER_LEN - 2);
    assert_eq!(c.capture_frame(), 0);
}
