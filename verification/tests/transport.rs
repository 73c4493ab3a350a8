use ole::deck::{
    FadeStep, PlaybackState, QuantizeResolution, ScopeRing, Transport, FADE_IN_SAMPLES,
    FADE_OUT_SAMPLES,
};

#[test]
fn play_needs_a_track() {
    let mut t = Transport::new();
    t.play(false);
    assert_eq!(t.state(), PlaybackState::Stopped);
    assert!(!t.is_audible());
    t.play(true);
    assert_eq!(t.state(), PlaybackState::Playing);
    assert_eq!(t.next_frame(), FadeStep::FadeIn { remaining: FADE_IN_SAMPLES });
}

#[test]
fn fade_in_runs_down_to_unity() {
    let mut t = Transport::new();
    t.play(true);
    for k in (1..=FADE_IN_SAMPLES).rev() {
        assert_eq!(t.next_frame(), FadeStep::FadeIn { remaining: k });
    }
    assert_eq!(t.next_frame(), FadeStep::Unity);
}

#[test]
fn pause_waits_for_the_fade_out() {
    let mut t = Transport::new();
    t.play(true);
    t.pause();
    for k in (2..=FADE_OUT_SAMPLES).rev() {
        assert_eq!(t.next_frame(), FadeStep::FadeOut { remaining: k, reset_position: false });
        assert_eq!(t.state(), PlaybackState::Playing);
        assert!(t.is_audible());
    }
    assert_eq!(t.next_frame(), FadeStep::FadeOut { remaining: 1, reset_position: false });
    assert_eq!(t.state(), PlaybackState::Paused);
    assert!(!t.is_audible());
}

#[test]
fn stop_after_fade_rewinds() {
    let mut t = Transport::new();
    t.play(true);
    assert!(!t.stop());
    let mut last = FadeStep::Unity;
    for _ in 0..FADE_OUT_SAMPLES {
        last = t.next_frame();
    }
    assert_eq!(last, FadeStep::FadeOut { remaining: 1, reset_position: true });
    assert_eq!(t.state(), PlaybackState::Stopped);
}

#[test]
fn stop_when_idle_is_immediate() {
    let mut t = Transport::new();
    assert!(t.stop());
    assert_eq!(t.state(), PlaybackState::Stopped);
    t.pause();
    assert_eq!(t.state(), PlaybackState::Paused);
    assert!(t.stop());
    assert_eq!(t.state(), PlaybackState::Stopped);
}

#[test]
fn stop_during_pause_fade_keeps_the_fade() {
    let mut t = Transport::new();
    t.play(true);
    t.pause();
    for _ in 0..10 {
        t.next_frame();
    }
    assert!(!t.stop());
    assert_eq!(
        t.next_frame(),
        FadeStep::FadeOut { remaining: FADE_OUT_SAMPLES - 10, reset_position: false }
    );
}

#[test]
fn toggle_and_end_of_track() {
    let mut t = Transport::new();
    t.toggle(true);
    assert_eq!(t.state(), PlaybackState::Playing);
    t.reach_end();
    for _ in 0..FADE_OUT_SAMPLES {
        t.next_frame();
    }
    assert_eq!(t.state(), PlaybackState::Stopped);
    t.toggle(true);
    t.toggle(true);
    assert_eq!(t.state(), PlaybackState::Playing);
    assert!(t.is_audible());
}

#[test]
fn jump_restarts_the_fade_in() {
    let mut t = Transport::new();
    t.play(true);
    for _ in 0..FADE_IN_SAMPLES {
        t.next_frame();
    }
    t.restart_fade_in();
    assert_eq!(t.next_frame(), FadeStep::FadeIn { remaining: FADE_IN_SAMPLES });
}

#[test]
fn quantize_resolution_cycle_and_labels() {
    let q = QuantizeResolution::default();
    assert_eq!(q, QuantizeResolution::OneBeat);
    assert_eq!(q.label(), "1");
    assert_eq!(q.next().label(), "1/2");
    assert_eq!(q.next().next().label(), "1/4");
    assert_eq!(q.next().next().next(), q);
}

#[test]
fn scope_ring_keeps_the_latest_samples() {
    let mut ring = ScopeRing::new(4, 0.0f32);
    assert_eq!(ring.len(), 4);
    for x in [1.0, 2.0, 3.0, 4.0, 5.0, 6.0] {
        ring.push(x);
    }
    assert_eq!(ring.snapshot(), vec![3.0, 4.0, 5.0, 6.0]);
    ring.push(7.0);
    assert_eq!(ring.snapshot(), vec![4.0, 5.0, 6.0, 7.0]);
}
