use ole::cues::{CueBank, LoopState, SlipState};

#[test]
fn cue_points_read_back_what_was_set() {
    let mut cues: CueBank<f64> = CueBank::new();
    for n in 0..=9u8 {
        assert_eq!(cues.get(n), None);
    }
    cues.set(1, 480.0);
    cues.set(8, 96000.5);
    cues.set(0, 1.0); // ignored
    cues.set(9, 2.0); // ignored
    assert_eq!(cues.get(1), Some(480.0));
    assert_eq!(cues.get(8), Some(96000.5));
    assert_eq!(cues.get(2), None);
    assert_eq!(cues.get(0), None);
    assert_eq!(cues.get(9), None);
    cues.set(1, 10.0);
    assert_eq!(cues.get(1), Some(10.0));
    assert_eq!(cues.get(8), Some(96000.5));
}

#[test]
fn loop_engages_once_both_markers_are_set() {
    let mut l: LoopState<u64> = LoopState::new();
    assert!(!l.is_active());
    l.set_loop_out(900);
    assert!(!l.is_active());
    assert_eq!(l.bounds(), None);
    l.set_loop_in(100);
    assert!(!l.is_active());
    l.set_loop_out(500);
    assert!(l.is_active());
    assert_eq!(l.bounds(), Some((100, 500)));
}

#[test]
fn loop_toggle_needs_both_markers() {
    let mut l: LoopState<u64> = LoopState::new();
    l.toggle();
    assert!(!l.is_active());
    l.set_loop_in(10);
    l.toggle();
    assert!(!l.is_active());
    l.engage(10, 20);
    assert!(l.is_active());
    l.toggle();
    assert!(!l.is_active());
    assert_eq!(l.bounds(), None);
    l.toggle();
    assert_eq!(l.bounds(), Some((10, 20)));
    l.clear();
    assert!(!l.is_active());
    assert_eq!(l.loop_in(), None);
    assert_eq!(l.loop_out(), None);
    l.toggle();
    assert!(!l.is_active());
}

#[test]
fn loop_resize_only_moves_a_set_end() {
    let mut l: LoopState<u64> = LoopState::new();
    l.resize(50);
    assert_eq!(l.loop_out(), None);
    l.engage(0, 100);
    l.resize(50);
    assert_eq!(l.loop_out(), Some(50));
    assert_eq!(l.loop_in(), Some(0));
    assert!(l.is_active());
}

#[test]
fn loop_roll_returns_once() {
    let mut l: LoopState<f64> = LoopState::new();
    assert_eq!(l.end_roll(), None);
    l.start_roll(1234.0);
    l.engage(1000.0, 2000.0);
    assert_eq!(l.end_roll(), Some(1234.0));
    assert!(!l.is_active());
    assert_eq!(l.loop_in(), Some(1000.0));
    assert_eq!(l.end_roll(), None);
}

#[test]
fn slip_shadow_only_while_on() {
    let mut s: SlipState<f64> = SlipState::new();
    s.remember(5.0);
    assert_eq!(s.position(), None);
    assert_eq!(s.set(true), None);
    s.remember(5.0);
    s.remember(7.0); // a running shadow is kept
    assert_eq!(s.position(), Some(5.0));
    s.advance_to(9.0);
    assert_eq!(s.position(), Some(9.0));
    assert_eq!(s.set(false), Some(9.0));
    assert!(!s.is_enabled());
    assert_eq!(s.position(), None);
    s.advance_to(11.0);
    assert_eq!(s.position(), None);
}

#[test]
fn slip_forget_keeps_the_mode() {
    let mut s: SlipState<u32> = SlipState::new();
    s.set(true);
    s.remember(3);
    s.forget();
    assert!(s.is_enabled());
    assert_eq!(s.position(), None);
    assert_eq!(s.set(false), None);
}
