use ole::sampler::{SlotBank, SlotStatus, NUM_SLOTS};

fn st(loaded: bool, playing: bool, loop_enabled: bool) -> SlotStatus {
    SlotStatus { loaded, playing, loop_enabled }
}

#[test]
fn empty_slots_do_not_start() {
    let mut bank = SlotBank::new();
    for i in 0..NUM_SLOTS {
        assert_eq!(bank.status(i), Some(st(false, false, false)));
        assert!(!bank.trigger(i));
    }
    assert_eq!(bank.status(NUM_SLOTS), None);
}

#[test]
fn loaded_slot_plays_until_stopped() {
    let mut bank = SlotBank::new();
    assert!(bank.load(3, true));
    assert!(bank.trigger(3));
    assert_eq!(bank.status(3), Some(st(true, true, false)));
    assert!(bank.stop(3));
    assert_eq!(bank.status(3), Some(st(true, false, false)));
    assert!(bank.trigger(3));
    // Loading new audio stops the slot.
    assert!(bank.load(3, true));
    assert_eq!(bank.status(3), Some(st(true, false, false)));
}

#[test]
fn clearing_a_slot_stops_it_and_keeps_its_loop_setting() {
    let mut bank = SlotBank::new();
    assert!(bank.set_loop(0, true));
    assert!(bank.load(0, true));
    assert!(bank.trigger(0));
    assert!(bank.clear(0));
    assert_eq!(bank.status(0), Some(st(false, false, true)));
    assert!(!bank.trigger(0));
}

#[test]
fn empty_audio_leaves_a_slot_unloaded() {
    let mut bank = SlotBank::new();
    assert!(bank.load(7, false));
    assert!(!bank.trigger(7));
    assert_eq!(bank.status(7), Some(st(false, false, false)));
}

#[test]
fn invalid_slot_is_ignored() {
    let mut bank = SlotBank::new();
    assert!(!bank.load(8, true));
    assert!(!bank.trigger(8));
    assert!(!bank.stop(200));
    assert!(!bank.set_loop(9, true));
    assert!(!bank.clear(255));
    for i in 0..NUM_SLOTS {
        assert_eq!(bank.status(i), Some(st(false, false, false)));
    }
}
