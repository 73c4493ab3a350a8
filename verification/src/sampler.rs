//! The sampler's eight slots: which hold audio, which play, which loop.
//!
//! The audio itself, its playback position and the slot gains belong to
//! the caller, which mixes the playing slots.
use vstd::prelude::*;

verus! {

/// Number of sampler slots.
pub const NUM_SLOTS: u8 = 8;

/// What a slot is doing.
#[derive(Debug, Clone, Copy, PartialEq, Eq, Structural)]
pub struct SlotStatus {
    /// The slot holds audio.
    pub loaded: bool,
    /// The slot is playing.
    pub playing: bool,
    /// The slot starts over when it reaches its end.
    pub loop_enabled: bool,
}

/// A slot index names a slot when it is below 8.
pub open spec fn slot_valid(idx: u8) -> bool {
    idx < NUM_SLOTS
}

/// An empty slot that does not loop.
pub open spec fn empty_status() -> SlotStatus {
    SlotStatus { loaded: false, playing: false, loop_enabled: false }
}

/// The slots after `idx` takes `s`; an invalid index changes nothing.
pub open spec fn with_slot(slots: Seq<SlotStatus>, idx: u8, s: SlotStatus) -> Seq<SlotStatus> {
    if slot_valid(idx) {
        slots.update(idx as int, s)
    } else {
        slots
    }
}

/// Only a slot that holds audio plays.
pub open spec fn only_loaded_play(slots: Seq<SlotStatus>) -> bool {
    forall|i: int| 0 <= i < slots.len() ==> #[trigger] slots[i].playing ==> slots[i].loaded
}

/// Every slot but `idx` is left as it was: a slot is loaded, started,
/// stopped and looped on its own, and the others keep playing.
pub proof fn lemma_other_slots_untouched(slots: Seq<SlotStatus>, idx: u8, s: SlotStatus, j: int)
    requires
        slots.len() == NUM_SLOTS,
        0 <= j < slots.len(),
        j != idx as int,
    ensures
        with_slot(slots, idx, s)[j] == slots[j],
        with_slot(slots, idx, s).len() == slots.len(),
{
}

/// The eight slots. Only a slot that holds audio plays.
pub struct SlotBank {
    slots: [SlotStatus; 8],
}

impl SlotBank {
    #[verifier::type_invariant]
    spec fn plays_only_loaded(self) -> bool {
        only_loaded_play(self.slots@)
    }

    /// The slots, slot 0 first.
    pub closed spec fn view(self) -> Seq<SlotStatus> {
        self.slots@
    }

    /// Eight empty slots.
    pub fn new() -> (r: Self)
        ensures
            r@ == Seq::new(8, |i: int| empty_status()),
            only_loaded_play(r@),
    {
        let e = SlotStatus { loaded: false, playing: false, loop_enabled: false };
        let r = SlotBank { slots: [e, e, e, e, e, e, e, e] };
        assert(r@ =~= Seq::new(8, |i: int| empty_status()));
        r
    }

    /// The state of slot `idx`, if `idx` names a slot.
    pub fn status(&self, idx: u8) -> (r: Option<SlotStatus>)
        ensures
            slot_valid(idx) ==> r == Some(self@[idx as int]),
            !slot_valid(idx) ==> r is None,
            r matches Some(st) ==> (st.playing ==> st.loaded),
    {
        proof {
            use_type_invariant(self);
        }
        if idx < NUM_SLOTS {
            Some(self.slots[idx as usize])
        } else {
            None
        }
    }

    /// Put new audio in slot `idx` (`has_audio` when it is not empty); the
    /// slot stops. Returns whether `idx` names a slot.
    pub fn load(&mut self, idx: u8, has_audio: bool) -> (r: bool)
        ensures
            r == slot_valid(idx),
            r ==> final(self)@ == with_slot(
                old(self)@,
                idx,
                SlotStatus { loaded: has_audio, playing: false, loop_enabled: old(self)@[idx as int].loop_enabled },
            ),
            !r ==> final(self)@ == old(self)@,
            only_loaded_play(final(self)@),
            forall|j: int| 0 <= j < 8 && j != idx as int ==> #[trigger] final(self)@[j] == old(self)@[j],
    {
        proof {
            use_type_invariant(&*self);
        }
        if idx < NUM_SLOTS {
            let i = idx as usize;
            let keep = self.slots[i].loop_enabled;
            let ghost before = self.slots@;
            self.slots[i] = SlotStatus { loaded: has_audio, playing: false, loop_enabled: keep };
            assert(forall|j: int| 0 <= j < 8 && j != i ==> self.slots@[j] == before[j]);
            true
        } else {
            false
        }
    }

    /// Empty slot `idx`; it stops. Returns whether `idx` names a slot.
    pub fn clear(&mut self, idx: u8) -> (r: bool)
        ensures
            r == slot_valid(idx),
            r ==> final(self)@ == with_slot(
                old(self)@,
                idx,
                SlotStatus { loaded: false, playing: false, loop_enabled: old(self)@[idx as int].loop_enabled },
            ),
            !r ==> final(self)@ == old(self)@,
            only_loaded_play(final(self)@),
            forall|j: int| 0 <= j < 8 && j != idx as int ==> #[trigger] final(self)@[j] == old(self)@[j],
    {
        self.load(idx, false)
    }

    /// Start slot `idx` from its beginning, if it holds audio. Returns
    /// whether it started.
    pub fn trigger(&mut self, idx: u8) -> (r: bool)
        ensures
            r == (slot_valid(idx) && old(self)@[idx as int].loaded),
            r ==> final(self)@ == with_slot(
                old(self)@,
                idx,
                SlotStatus { playing: true, ..old(self)@[idx as int] },
            ),
            !r ==> final(self)@ == old(self)@,
            only_loaded_play(final(self)@),
            forall|j: int| 0 <= j < 8 && j != idx as int ==> #[trigger] final(self)@[j] == old(self)@[j],
    {
        proof {
            use_type_invariant(&*self);
        }
        if idx < NUM_SLOTS {
            let i = idx as usize;
            let s = self.slots[i];
            if s.loaded {
                let ghost before = self.slots@;
                self.slots[i] = SlotStatus { playing: true, ..s };
                assert(forall|j: int| 0 <= j < 8 && j != i ==> self.slots@[j] == before[j]);
                return true;
            }
        }
        false
    }

    /// Stop slot `idx` (also when it ran out of audio and does not loop).
    /// Returns whether `idx` names a slot.
    pub fn stop(&mut self, idx: u8) -> (r: bool)
        ensures
            r == slot_valid(idx),
            r ==> final(self)@ == with_slot(
                old(self)@,
                idx,
                SlotStatus { playing: false, ..old(self)@[idx as int] },
            ),
            !r ==> final(self)@ == old(self)@,
            only_loaded_play(final(self)@),
            forall|j: int| 0 <= j < 8 && j != idx as int ==> #[trigger] final(self)@[j] == old(self)@[j],
    {
        proof {
            use_type_invariant(&*self);
        }
        if idx < NUM_SLOTS {
            let i = idx as usize;
            let s = self.slots[i];
            let ghost before = self.slots@;
            self.slots[i] = SlotStatus { playing: false, ..s };
            assert(forall|j: int| 0 <= j < 8 && j != i ==> self.slots@[j] == before[j]);
            true
        } else {
            false
        }
    }

    /// Turn looping of slot `idx` on or off. Returns whether `idx` names a
    /// slot.
    pub fn set_loop(&mut self, idx: u8, enabled: bool) -> (r: bool)
        ensures
            r == slot_valid(idx),
            r ==> final(self)@ == with_slot(
                old(self)@,
                idx,
                SlotStatus { loop_enabled: enabled, ..old(self)@[idx as int] },
            ),
            !r ==> final(self)@ == old(self)@,
            only_loaded_play(final(self)@),
            forall|j: int| 0 <= j < 8 && j != idx as int ==> #[trigger] final(self)@[j] == old(self)@[j],
    {
        proof {
            use_type_invariant(&*self);
        }
        if idx < NUM_SLOTS {
            let i = idx as usize;
            let s = self.slots[i];
            let ghost before = self.slots@;
            self.slots[i] = SlotStatus { loop_enabled: enabled, ..s };
            assert(forall|j: int| 0 <= j < 8 && j != i ==> self.slots@[j] == before[j]);
            true
        } else {
            false
        }
    }
}

} // verus!
