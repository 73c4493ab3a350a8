//! The deck's position markers: eight numbered cue points, the loop with
//! its loop roll, and the slip-mode shadow position.
//!
//! The markers are generic over the position type: the deck stores sample
//! positions, and only the deck computes with them.
use vstd::prelude::*;

verus! {

/// The number of cue points of a deck.
pub const CUE_COUNT: u8 = 8;

/// A cue number names a point when it lies in 1..=8.
pub open spec fn cue_valid(cue_num: u8) -> bool {
    1 <= cue_num <= CUE_COUNT
}

/// The point stored under `cue_num`, if any.
pub open spec fn cue_at<T>(slots: Seq<Option<T>>, cue_num: u8) -> Option<T> {
    if cue_valid(cue_num) {
        slots[cue_num - 1]
    } else {
        None
    }
}

/// The slots after storing `pos` under `cue_num`; an invalid number
/// changes nothing.
pub open spec fn cue_stored<T>(slots: Seq<Option<T>>, cue_num: u8, pos: T) -> Seq<Option<T>> {
    if cue_valid(cue_num) {
        slots.update(cue_num - 1, Some(pos))
    } else {
        slots
    }
}

/// Eight cue points, numbered 1 to 8.
pub struct CueBank<T> {
    slots: [Option<T>; 8],
}

impl<T> CueBank<T> {
    /// The eight slots, cue 1 first.
    pub closed spec fn view(self) -> Seq<Option<T>> {
        self.slots@
    }

    /// A bank with no point set.
    pub fn new() -> (r: Self)
        ensures
            r@ == Seq::new(8, |i: int| None::<T>),
    {
        let r = CueBank { slots: [None, None, None, None, None, None, None, None] };
        assert(r@ =~= Seq::new(8, |i: int| None::<T>));
        r
    }
}

impl<T: Copy> CueBank<T> {
    /// Store `pos` under `cue_num` (1-8); another number is ignored.
    pub fn set(&mut self, cue_num: u8, pos: T)
        ensures
            final(self)@ == cue_stored(old(self)@, cue_num, pos),
    {
        if 1 <= cue_num && cue_num <= CUE_COUNT {
            let i = (cue_num - 1) as usize;
            self.slots[i] = Some(pos);
        }
    }

    /// The point stored under `cue_num` (1-8), if any.
    pub fn get(&self, cue_num: u8) -> (r: Option<T>)
        ensures
            r == cue_at(self@, cue_num),
    {
        if 1 <= cue_num && cue_num <= CUE_COUNT {
            let i = (cue_num - 1) as usize;
            self.slots[i]
        } else {
            None
        }
    }
}

/// A read gives back the last write under the same number, and a write
/// leaves the other points alone.
pub proof fn lemma_cue_read_after_write<T>(slots: Seq<Option<T>>, n: u8, m: u8, pos: T)
    requires
        slots.len() == 8,
    ensures
        cue_at(cue_stored(slots, n, pos), m) == if m == n && cue_valid(n) {
            Some(pos)
        } else {
            cue_at(slots, m)
        },
        !cue_valid(m) ==> cue_at(slots, m) is None,
{
}

/// The loop of a deck: its two markers, whether it is engaged, and the
/// position a loop roll returns to.
///
/// A loop is only ever engaged with both markers set.
pub struct LoopState<T> {
    loop_in: Option<T>,
    loop_out: Option<T>,
    active: bool,
    roll_return_position: Option<T>,
}

impl<T> LoopState<T> {
    #[verifier::type_invariant]
    spec fn engaged_with_markers(self) -> bool {
        self.active ==> self.loop_in is Some && self.loop_out is Some
    }

    /// The loop start.
    pub closed spec fn start(self) -> Option<T> {
        self.loop_in
    }

    /// The loop end.
    pub closed spec fn end(self) -> Option<T> {
        self.loop_out
    }

    /// Whether playback wraps at the loop end: the loop is on, between
    /// its two markers.
    pub closed spec fn engaged(self) -> bool {
        self.active && self.loop_in is Some && self.loop_out is Some
    }

    /// Where a running loop roll returns to.
    pub closed spec fn roll_return(self) -> Option<T> {
        self.roll_return_position
    }

    /// No markers, not engaged, no roll.
    pub fn new() -> (r: Self)
        ensures
            r.start() is None,
            r.end() is None,
            !r.engaged(),
            r.roll_return() is None,
    {
        LoopState { loop_in: None, loop_out: None, active: false, roll_return_position: None }
    }

    /// Whether the loop is engaged.
    pub fn is_active(&self) -> (r: bool)
        ensures
            r == self.engaged(),
    {
        proof {
            use_type_invariant(self);
        }
        self.active
    }

    /// Set the loop start.
    pub fn set_loop_in(&mut self, pos: T)
        ensures
            final(self).start() == Some(pos),
            final(self).end() == old(self).end(),
            final(self).engaged() == old(self).engaged(),
            final(self).roll_return() == old(self).roll_return(),
    {
        proof {
            use_type_invariant(&*self);
        }
        self.loop_in = Some(pos);
    }

    /// Set the loop end; the loop engages if its start is set.
    pub fn set_loop_out(&mut self, pos: T)
        ensures
            final(self).start() == old(self).start(),
            final(self).end() == Some(pos),
            final(self).engaged() == (old(self).engaged() || old(self).start() is Some),
            final(self).roll_return() == old(self).roll_return(),
    {
        proof {
            use_type_invariant(&*self);
        }
        self.loop_out = Some(pos);
        if self.loop_in.is_some() {
            self.active = true;
        }
    }

    /// Engage or release the loop, when both markers are set.
    pub fn toggle(&mut self)
        ensures
            final(self).start() == old(self).start(),
            final(self).end() == old(self).end(),
            final(self).engaged() == if old(self).start() is Some && old(self).end() is Some {
                !old(self).engaged()
            } else {
                old(self).engaged()
            },
            final(self).roll_return() == old(self).roll_return(),
    {
        proof {
            use_type_invariant(&*self);
        }
        if self.loop_in.is_some() && self.loop_out.is_some() {
            self.active = !self.active;
        }
    }

    /// Release the loop and drop both markers.
    pub fn clear(&mut self)
        ensures
            final(self).start() is None,
            final(self).end() is None,
            !final(self).engaged(),
            final(self).roll_return() == old(self).roll_return(),
    {
        proof {
            use_type_invariant(&*self);
        }
        self.active = false;
        self.loop_in = None;
        self.loop_out = None;
    }

    /// Set both markers and engage the loop (an auto-loop).
    pub fn engage(&mut self, start: T, end: T)
        ensures
            final(self).start() == Some(start),
            final(self).end() == Some(end),
            final(self).engaged(),
            final(self).roll_return() == old(self).roll_return(),
    {
        proof {
            use_type_invariant(&*self);
        }
        self.loop_in = Some(start);
        self.loop_out = Some(end);
        self.active = true;
    }

    /// Move the loop end of a loop whose markers are both set (halving or
    /// doubling it); otherwise nothing changes.
    pub fn resize(&mut self, end: T)
        ensures
            final(self).start() == old(self).start(),
            final(self).end() == if old(self).start() is Some && old(self).end() is Some {
                Some(end)
            } else {
                old(self).end()
            },
            final(self).engaged() == old(self).engaged(),
            final(self).roll_return() == old(self).roll_return(),
    {
        proof {
            use_type_invariant(&*self);
        }
        if self.loop_in.is_some() && self.loop_out.is_some() {
            self.loop_out = Some(end);
        }
    }

    /// Remember where a loop roll returns to.
    pub fn start_roll(&mut self, return_pos: T)
        ensures
            final(self).start() == old(self).start(),
            final(self).end() == old(self).end(),
            final(self).engaged() == old(self).engaged(),
            final(self).roll_return() == Some(return_pos),
    {
        proof {
            use_type_invariant(&*self);
        }
        self.roll_return_position = Some(return_pos);
    }
}

impl<T: Copy> LoopState<T> {
    /// End a loop roll: release the loop and hand back the position to
    /// return to, if a roll was running.
    pub fn end_roll(&mut self) -> (r: Option<T>)
        ensures
            r == old(self).roll_return(),
            final(self).start() == old(self).start(),
            final(self).end() == old(self).end(),
            !final(self).engaged(),
            final(self).roll_return() is None,
    {
        proof {
            use_type_invariant(&*self);
        }
        let r = self.roll_return_position;
        self.active = false;
        self.roll_return_position = None;
        r
    }

    /// The loop start.
    pub fn loop_in(&self) -> (r: Option<T>)
        ensures
            r == self.start(),
    {
        proof {
            use_type_invariant(self);
        }
        self.loop_in
    }

    /// The loop end.
    pub fn loop_out(&self) -> (r: Option<T>)
        ensures
            r == self.end(),
    {
        proof {
            use_type_invariant(self);
        }
        self.loop_out
    }

    /// The markers of the engaged loop, start first; `None` when the loop
    /// is not engaged.
    pub fn bounds(&self) -> (r: Option<(T, T)>)
        ensures
            self.engaged() ==> r == Some((self.start()->0, self.end()->0)),
            !self.engaged() ==> r is None,
    {
        proof {
            use_type_invariant(self);
        }
        if self.active {
            match (self.loop_in, self.loop_out) {
                (Some(a), Some(b)) => Some((a, b)),
                _ => None,
            }
        } else {
            None
        }
    }
}

/// An engaged loop has both of its markers.
pub proof fn lemma_engaged_loop_has_markers<T>(l: LoopState<T>)
    requires
        l.engaged(),
    ensures
        l.start() is Some,
        l.end() is Some,
{
}

/// Slip mode: while it is on, the deck keeps a shadow position that
/// advances as if no jump or loop had happened, and turning it off jumps
/// there.
///
/// A shadow position only exists while slip mode is on.
pub struct SlipState<T> {
    enabled: bool,
    shadow: Option<T>,
}

impl<T> SlipState<T> {
    #[verifier::type_invariant]
    spec fn shadow_only_when_on(self) -> bool {
        self.shadow is Some ==> self.enabled
    }

    /// Whether slip mode is on.
    pub closed spec fn on(self) -> bool {
        self.enabled
    }

    /// The shadow position, which slip mode keeps while it is on.
    pub closed spec fn shadow_position(self) -> Option<T> {
        if self.enabled {
            self.shadow
        } else {
            None
        }
    }

    /// Slip mode off, no shadow.
    pub fn new() -> (r: Self)
        ensures
            !r.on(),
            r.shadow_position() is None,
    {
        SlipState { enabled: false, shadow: None }
    }

    /// Whether slip mode is on.
    pub fn is_enabled(&self) -> (r: bool)
        ensures
            r == self.on(),
    {
        proof {
            use_type_invariant(self);
        }
        self.enabled
    }

    /// Before a jump: start shadowing from `pos`, if slip mode is on and
    /// no shadow runs yet.
    pub fn remember(&mut self, pos: T)
        ensures
            final(self).on() == old(self).on(),
            final(self).shadow_position() == if old(self).on() && old(self).shadow_position() is None {
                Some(pos)
            } else {
                old(self).shadow_position()
            },
    {
        proof {
            use_type_invariant(&*self);
        }
        if self.enabled && self.shadow.is_none() {
            self.shadow = Some(pos);
        }
    }

    /// Move a running shadow to `pos` (as playback advances); without a
    /// shadow nothing changes.
    pub fn advance_to(&mut self, pos: T)
        ensures
            final(self).on() == old(self).on(),
            final(self).shadow_position() == if old(self).shadow_position() is Some {
                Some(pos)
            } else {
                None
            },
    {
        proof {
            use_type_invariant(&*self);
        }
        if self.shadow.is_some() {
            self.shadow = Some(pos);
        }
    }

    /// Drop the shadow (a new track was loaded).
    pub fn forget(&mut self)
        ensures
            final(self).on() == old(self).on(),
            final(self).shadow_position() is None,
    {
        proof {
            use_type_invariant(&*self);
        }
        self.shadow = None;
    }
}

impl<T: Copy> SlipState<T> {
    /// Turn slip mode on or off. Turning it off hands back the shadow
    /// position, which the deck jumps to.
    pub fn set(&mut self, enabled: bool) -> (r: Option<T>)
        ensures
            final(self).on() == enabled,
            enabled ==> r is None && final(self).shadow_position() == old(self).shadow_position(),
            !enabled ==> r == old(self).shadow_position() && final(self).shadow_position() is None,
    {
        proof {
            use_type_invariant(&*self);
        }
        if enabled {
            self.enabled = true;
            None
        } else {
            let r = self.shadow;
            self.shadow = None;
            self.enabled = false;
            r
        }
    }

    /// The shadow position.
    pub fn position(&self) -> (r: Option<T>)
        ensures
            r == self.shadow_position(),
    {
        proof {
            use_type_invariant(self);
        }
        self.shadow
    }
}

/// A shadow position exists only while slip mode is on.
pub proof fn lemma_shadow_only_in_slip<T>(s: SlipState<T>)
    requires
        s.shadow_position() is Some,
    ensures
        s.on(),
{
}

} // verus!
