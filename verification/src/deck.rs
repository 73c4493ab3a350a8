//! The deck's transport: playback state with click-free fades, quantize
//! settings, cue points and the oscilloscope ring buffer.
use vstd::prelude::*;

verus! {

/// Playback state for a deck
#[derive(Debug, Clone, Copy, PartialEq, Eq, Structural)]
pub enum PlaybackState {
    Stopped,
    Playing,
    Paused,
}

impl Default for PlaybackState {
    fn default() -> (r: Self)
        ensures
            r == PlaybackState::Stopped,
    {
        PlaybackState::Stopped
    }
}

/// Quantize resolution
#[derive(Debug, Clone, Copy, PartialEq, Eq, Structural)]
pub enum QuantizeResolution {
    OneBeat,
    HalfBeat,
    QuarterBeat,
}

impl Default for QuantizeResolution {
    fn default() -> (r: Self)
        ensures
            r == QuantizeResolution::OneBeat,
    {
        QuantizeResolution::OneBeat
    }
}

/// The label shown for each quantize resolution.
pub open spec fn resolution_label(q: QuantizeResolution) -> Seq<char> {
    match q {
        QuantizeResolution::OneBeat => seq!['1'],
        QuantizeResolution::HalfBeat => seq!['1', '/', '2'],
        QuantizeResolution::QuarterBeat => seq!['1', '/', '4'],
    }
}

/// The resolution after `q` in the cycle 1, 1/2, 1/4, 1, ...
pub open spec fn resolution_after(q: QuantizeResolution) -> QuantizeResolution {
    match q {
        QuantizeResolution::OneBeat => QuantizeResolution::HalfBeat,
        QuantizeResolution::HalfBeat => QuantizeResolution::QuarterBeat,
        QuantizeResolution::QuarterBeat => QuantizeResolution::OneBeat,
    }
}

impl QuantizeResolution {
    pub fn label(self) -> (r: &'static str)
        ensures
            r@ == resolution_label(self),
    {
        proof {
            reveal_strlit("1");
            reveal_strlit("1/2");
            reveal_strlit("1/4");
        }
        match self {
            QuantizeResolution::OneBeat => "1",
            QuantizeResolution::HalfBeat => "1/2",
            QuantizeResolution::QuarterBeat => "1/4",
        }
    }

    pub fn next(self) -> (r: Self)
        ensures
            r == resolution_after(self),
    {
        match self {
            QuantizeResolution::OneBeat => QuantizeResolution::HalfBeat,
            QuantizeResolution::HalfBeat => QuantizeResolution::QuarterBeat,
            QuantizeResolution::QuarterBeat => QuantizeResolution::OneBeat,
        }
    }
}

/// Cycling the quantize resolution comes back after three steps.
pub proof fn lemma_resolution_cycle(q: QuantizeResolution)
    ensures
        resolution_after(resolution_after(resolution_after(q))) == q,
        resolution_after(q) != q,
{
}

/// Fade-in length in frames (~20ms at 48kHz), after a start or a jump, so
/// that playback does not click.
pub const FADE_IN_SAMPLES: u32 = 960;

/// Fade-out length in frames (~20ms at 48kHz) before a pause or a stop
/// takes effect.
pub const FADE_OUT_SAMPLES: u32 = 960;

/// The gain envelope of one output frame, as the transport decides it.
#[derive(Debug, Clone, Copy, PartialEq, Eq, Structural)]
pub enum FadeStep {
    /// Fading out, `remaining` frames (this one included) before silence;
    /// `reset_position` when the fade ended in a stop that rewinds the track.
    FadeOut { remaining: u32, reset_position: bool },
    /// Fading in, `remaining` frames (this one included) before full gain.
    FadeIn { remaining: u32 },
    /// Full gain.
    Unity,
}

/// Playback state of a deck with its click-free fades: a pause or a stop
/// while playing only takes effect once a fade-out has run its course.
pub struct Transport {
    state: PlaybackState,
    fade_in_samples: u32,
    fade_out_samples: u32,
    pending_state: Option<PlaybackState>,
}

impl Transport {
    /// The playback state.
    pub closed spec fn playback(self) -> PlaybackState {
        self.state
    }

    /// Frames of fade-in left.
    pub closed spec fn fade_in(self) -> nat {
        self.fade_in_samples as nat
    }

    /// Frames of fade-out left.
    pub closed spec fn fade_out(self) -> nat {
        self.fade_out_samples as nat
    }

    /// The state that takes over when the fade-out ends.
    pub closed spec fn pending(self) -> Option<PlaybackState> {
        self.pending_state
    }

    /// A transport state the operations keep: fades within their lengths,
    /// and a fade-out exactly while a state change waits (which is never to
    /// `Playing`).
    pub open spec fn wf(self) -> bool {
        &&& self.fade_in() <= FADE_IN_SAMPLES
        &&& self.fade_out() <= FADE_OUT_SAMPLES
        &&& (self.fade_out() > 0) == (self.pending() is Some)
        &&& self.pending() != Some(PlaybackState::Playing)
    }

    #[verifier::type_invariant]
    spec fn inv(self) -> bool {
        self.wf()
    }

    /// The transport with these parts.
    pub closed spec fn with(
        state: PlaybackState,
        fade_in: nat,
        fade_out: nat,
        pending: Option<PlaybackState>,
    ) -> Transport {
        Transport {
            state,
            fade_in_samples: fade_in as u32,
            fade_out_samples: fade_out as u32,
            pending_state: pending,
        }
    }

    /// Whether the deck produces sound: playing, or still fading out.
    pub open spec fn audible(self) -> bool {
        self.playback() == PlaybackState::Playing || self.fade_out() > 0
    }

    /// The transport after one output frame.
    pub open spec fn after_frame(self) -> Transport {
        if self.fade_out() > 0 {
            if self.fade_out() == 1 && self.pending() is Some {
                Transport::with(self.pending()->0, self.fade_in(), 0, None)
            } else {
                Transport::with(self.playback(), self.fade_in(), (self.fade_out() - 1) as nat, self.pending())
            }
        } else if self.fade_in() > 0 {
            Transport::with(self.playback(), (self.fade_in() - 1) as nat, 0, self.pending())
        } else {
            self
        }
    }

    /// The envelope of the next output frame.
    pub open spec fn frame_step(self) -> FadeStep {
        if self.fade_out() > 0 {
            FadeStep::FadeOut {
                remaining: self.fade_out() as u32,
                reset_position: self.fade_out() == 1 && self.pending() == Some(PlaybackState::Stopped),
            }
        } else if self.fade_in() > 0 {
            FadeStep::FadeIn { remaining: self.fade_in() as u32 }
        } else {
            FadeStep::Unity
        }
    }

    /// The transport after `n` output frames.
    pub open spec fn after_frames(self, n: nat) -> Transport
        decreases n,
    {
        if n == 0 {
            self
        } else {
            self.after_frame().after_frames((n - 1) as nat)
        }
    }

    pub proof fn lemma_with(
        state: PlaybackState,
        fade_in: nat,
        fade_out: nat,
        pending: Option<PlaybackState>,
    )
        requires
            fade_in <= u32::MAX,
            fade_out <= u32::MAX,
        ensures
            ({
                let t = Transport::with(state, fade_in, fade_out, pending);
                &&& t.playback() == state
                &&& t.fade_in() == fade_in
                &&& t.fade_out() == fade_out
                &&& t.pending() == pending
            }),
    {
    }

    /// A stopped deck with no fade under way.
    pub fn new() -> (t: Transport)
        ensures
            t.playback() == PlaybackState::Stopped,
            t.fade_in() == 0,
            t.fade_out() == 0,
            t.pending() is None,
    {
        Transport {
            state: PlaybackState::Stopped,
            fade_in_samples: 0,
            fade_out_samples: 0,
            pending_state: None,
        }
    }

    /// The playback state.
    pub fn state(&self) -> (r: PlaybackState)
        ensures
            r == self.playback(),
    {
        self.state
    }

    /// Whether the deck produces sound: playing, or still fading out.
    pub fn is_audible(&self) -> (r: bool)
        ensures
            r == self.audible(),
    {
        self.state == PlaybackState::Playing || self.fade_out_samples > 0
    }

    /// Start playback when a track is loaded: any fade-out is cancelled
    /// and a fade-in starts.
    pub fn play(&mut self, loaded: bool)
        ensures
            loaded ==> {
                &&& final(self).playback() == PlaybackState::Playing
                &&& final(self).fade_in() == FADE_IN_SAMPLES
                &&& final(self).fade_out() == 0
                &&& final(self).pending() is None
            },
            !loaded ==> *final(self) == *old(self),
    {
        if loaded {
            *self = Transport {
                state: PlaybackState::Playing,
                fade_in_samples: FADE_IN_SAMPLES,
                fade_out_samples: 0,
                pending_state: None,
            };
        }
    }

    /// Pause playback: while playing, a fade-out starts and the pause takes
    /// effect when it ends; otherwise the deck is paused at once.
    pub fn pause(&mut self)
        ensures
            old(self).playback() == PlaybackState::Playing ==> {
                &&& final(self).playback() == PlaybackState::Playing
                &&& final(self).fade_in() == old(self).fade_in()
                &&& final(self).fade_out() == FADE_OUT_SAMPLES
                &&& final(self).pending() == Some(PlaybackState::Paused)
            },
            old(self).playback() != PlaybackState::Playing ==> {
                &&& final(self).playback() == PlaybackState::Paused
                &&& final(self).fade_in() == old(self).fade_in()
                &&& final(self).fade_out() == old(self).fade_out()
                &&& final(self).pending() == old(self).pending()
            },
    {
        proof {
            use_type_invariant(&*self);
        }
        if self.state == PlaybackState::Playing {
            *self = Transport {
                state: self.state,
                fade_in_samples: self.fade_in_samples,
                fade_out_samples: FADE_OUT_SAMPLES,
                pending_state: Some(PlaybackState::Paused),
            };
        } else {
            *self = Transport {
                state: PlaybackState::Paused,
                fade_in_samples: self.fade_in_samples,
                fade_out_samples: self.fade_out_samples,
                pending_state: self.pending_state,
            };
        }
    }

    /// Stop playback: while playing or fading out, the stop waits for a
    /// fade-out (one already running keeps its length); otherwise the deck
    /// stops at once and the result asks for the position to return to the
    /// start.
    pub fn stop(&mut self) -> (reset_position: bool)
        ensures
            old(self).audible() ==> {
                &&& !reset_position
                &&& final(self).playback() == old(self).playback()
                &&& final(self).fade_in() == old(self).fade_in()
                &&& final(self).fade_out() == (if old(self).fade_out() == 0 {
                    FADE_OUT_SAMPLES as nat
                } else {
                    old(self).fade_out()
                })
                &&& final(self).pending() == Some(PlaybackState::Stopped)
            },
            !old(self).audible() ==> {
                &&& reset_position
                &&& final(self).playback() == PlaybackState::Stopped
                &&& final(self).fade_in() == old(self).fade_in()
                &&& final(self).fade_out() == 0
                &&& final(self).pending() is None
            },
    {
        proof {
            use_type_invariant(&*self);
        }
        if self.state == PlaybackState::Playing || self.fade_out_samples > 0 {
            // Start or continue fade-out, but change destination to Stopped
            let fade_out = if self.fade_out_samples == 0 {
                FADE_OUT_SAMPLES
            } else {
                self.fade_out_samples
            };
            *self = Transport {
                state: self.state,
                fade_in_samples: self.fade_in_samples,
                fade_out_samples: fade_out,
                pending_state: Some(PlaybackState::Stopped),
            };
            false
        } else {
            *self = Transport {
                state: PlaybackState::Stopped,
                fade_in_samples: self.fade_in_samples,
                fade_out_samples: self.fade_out_samples,
                pending_state: self.pending_state,
            };
            true
        }
    }

    /// Toggle play/pause.
    pub fn toggle(&mut self, loaded: bool)
        ensures
            old(self).playback() == PlaybackState::Playing ==> {
                &&& final(self).playback() == PlaybackState::Playing
                &&& final(self).fade_in() == old(self).fade_in()
                &&& final(self).fade_out() == FADE_OUT_SAMPLES
                &&& final(self).pending() == Some(PlaybackState::Paused)
            },
            old(self).playback() != PlaybackState::Playing && loaded ==> {
                &&& final(self).playback() == PlaybackState::Playing
                &&& final(self).fade_in() == FADE_IN_SAMPLES
                &&& final(self).fade_out() == 0
                &&& final(self).pending() is None
            },
            old(self).playback() != PlaybackState::Playing && !loaded ==> *final(self) == *old(self),
    {
        if self.state == PlaybackState::Playing {
            self.pause();
        } else {
            self.play(loaded);
        }
    }

    /// Mark the deck stopped (a new track was loaded); fades carry on.
    pub fn set_stopped(&mut self)
        ensures
            final(self).playback() == PlaybackState::Stopped,
            final(self).fade_in() == old(self).fade_in(),
            final(self).fade_out() == old(self).fade_out(),
            final(self).pending() == old(self).pending(),
    {
        proof {
            use_type_invariant(&*self);
        }
        *self = Transport {
            state: PlaybackState::Stopped,
            fade_in_samples: self.fade_in_samples,
            fade_out_samples: self.fade_out_samples,
            pending_state: self.pending_state,
        };
    }

    /// Start a fade-in, after the position jumped (seek, nudge, cue, loop).
    pub fn restart_fade_in(&mut self)
        ensures
            final(self).playback() == old(self).playback(),
            final(self).fade_in() == FADE_IN_SAMPLES,
            final(self).fade_out() == old(self).fade_out(),
            final(self).pending() == old(self).pending(),
    {
        proof {
            use_type_invariant(&*self);
        }
        *self = Transport {
            state: self.state,
            fade_in_samples: FADE_IN_SAMPLES,
            fade_out_samples: self.fade_out_samples,
            pending_state: self.pending_state,
        };
    }

    /// The end of the track was reached: unless a fade-out is already under
    /// way, fade out and then stop.
    pub fn reach_end(&mut self)
        ensures
            old(self).fade_out() == 0 ==> {
                &&& final(self).playback() == old(self).playback()
                &&& final(self).fade_in() == old(self).fade_in()
                &&& final(self).fade_out() == FADE_OUT_SAMPLES
                &&& final(self).pending() == Some(PlaybackState::Stopped)
            },
            old(self).fade_out() > 0 ==> *final(self) == *old(self),
    {
        proof {
            use_type_invariant(&*self);
        }
        if self.fade_out_samples == 0 && self.pending_state.is_none() {
            *self = Transport {
                state: self.state,
                fade_in_samples: self.fade_in_samples,
                fade_out_samples: FADE_OUT_SAMPLES,
                pending_state: Some(PlaybackState::Stopped),
            };
        }
    }

    /// Advance one output frame: a fade-out counts down first (and, when it
    /// ends, the waiting state takes over), otherwise a fade-in counts down.
    pub fn next_frame(&mut self) -> (step: FadeStep)
        ensures
            step == old(self).frame_step(),
            *final(self) == old(self).after_frame(),
            old(self).fade_out() == 1 && old(self).pending() == Some(PlaybackState::Stopped) ==> step
                == (FadeStep::FadeOut { remaining: 1, reset_position: true }),
    {
        proof {
            use_type_invariant(&*self);
        }
        if self.fade_out_samples > 0 {
            let remaining = self.fade_out_samples;
            if remaining == 1 {
                match self.pending_state {
                    Some(pending) => {
                        *self = Transport {
                            state: pending,
                            fade_in_samples: self.fade_in_samples,
                            fade_out_samples: 0,
                            pending_state: None,
                        };
                        FadeStep::FadeOut {
                            remaining,
                            reset_position: pending == PlaybackState::Stopped,
                        }
                    },
                    None => {
                        *self = Transport {
                            state: self.state,
                            fade_in_samples: self.fade_in_samples,
                            fade_out_samples: 0,
                            pending_state: None,
                        };
                        FadeStep::FadeOut { remaining, reset_position: false }
                    },
                }
            } else {
                *self = Transport {
                    state: self.state,
                    fade_in_samples: self.fade_in_samples,
                    fade_out_samples: remaining - 1,
                    pending_state: self.pending_state,
                };
                FadeStep::FadeOut { remaining, reset_position: false }
            }
        } else if self.fade_in_samples > 0 {
            let remaining = self.fade_in_samples;
            *self = Transport {
                state: self.state,
                fade_in_samples: remaining - 1,
                fade_out_samples: 0,
                pending_state: self.pending_state,
            };
            FadeStep::FadeIn { remaining }
        } else {
            FadeStep::Unity
        }
    }
}

/// A stop rewinds the track: when the fade-out in front of a stop runs
/// out, its last frame asks for the position to go back to the start, and
/// the deck is stopped, whatever fade-in was still left. A fade-out in front
/// of a pause never rewinds.
pub proof fn lemma_stop_rewinds(t: Transport)
    requires
        t.wf(),
        t.fade_out() == 1,
    ensures
        t.pending() == Some(PlaybackState::Stopped) ==> t.frame_step() == (FadeStep::FadeOut {
            remaining: 1,
            reset_position: true,
        }),
        t.pending() == Some(PlaybackState::Stopped) ==> t.after_frame().playback()
            == PlaybackState::Stopped,
        t.pending() == Some(PlaybackState::Paused) ==> t.frame_step() == (FadeStep::FadeOut {
            remaining: 1,
            reset_position: false,
        }),
{
    Transport::lemma_with(t.pending()->0, t.fade_in(), 0, None);
}

/// Stopping a deck that plays, after any number of frames of its fade-in,
/// rewinds it exactly on the last frame of the stop's fade-out.
pub proof fn lemma_stop_while_playing_rewinds(t: Transport, n: nat)
    requires
        t.wf(),
        t.playback() == PlaybackState::Playing,
        t.fade_out() == FADE_OUT_SAMPLES,
        t.pending() == Some(PlaybackState::Stopped),
        n < FADE_OUT_SAMPLES,
    ensures
        t.after_frames(n).fade_out() == FADE_OUT_SAMPLES - n,
        t.after_frames(n).pending() == Some(PlaybackState::Stopped),
        n + 1 == FADE_OUT_SAMPLES ==> t.after_frames(n).frame_step() == (FadeStep::FadeOut {
            remaining: 1,
            reset_position: true,
        }),
        n + 1 < FADE_OUT_SAMPLES ==> t.after_frames(n).frame_step() == (FadeStep::FadeOut {
            remaining: (FADE_OUT_SAMPLES - n) as u32,
            reset_position: false,
        }),
    decreases n,
{
    if n > 0 {
        lemma_frame_keeps_wf(t);
        Transport::lemma_with(t.playback(), t.fade_in(), (t.fade_out() - 1) as nat, t.pending());
        let t1 = t.after_frame();
        lemma_stop_while_playing_rewinds_from(t1, (n - 1) as nat, (FADE_OUT_SAMPLES - 1) as nat);
    }
}

proof fn lemma_stop_while_playing_rewinds_from(t: Transport, n: nat, f: nat)
    requires
        t.wf(),
        t.fade_out() == f,
        t.pending() == Some(PlaybackState::Stopped),
        n < f,
    ensures
        t.after_frames(n).fade_out() == f - n,
        t.after_frames(n).pending() == Some(PlaybackState::Stopped),
        n + 1 == f ==> t.after_frames(n).frame_step() == (FadeStep::FadeOut {
            remaining: 1,
            reset_position: true,
        }),
        n + 1 < f ==> t.after_frames(n).frame_step() == (FadeStep::FadeOut {
            remaining: (f - n) as u32,
            reset_position: false,
        }),
    decreases n,
{
    if n > 0 {
        lemma_frame_keeps_wf(t);
        Transport::lemma_with(t.playback(), t.fade_in(), (t.fade_out() - 1) as nat, t.pending());
        lemma_stop_while_playing_rewinds_from(t.after_frame(), (n - 1) as nat, (f - 1) as nat);
    } else if f == 1 {
        lemma_stop_rewinds(t);
    }
}

/// One output frame keeps the transport well formed.
pub proof fn lemma_frame_keeps_wf(t: Transport)
    requires
        t.wf(),
    ensures
        t.after_frame().wf(),
{
    Transport::lemma_with(t.playback(), t.fade_in(), 0, None);
    if t.fade_out() > 0 {
        Transport::lemma_with(t.playback(), t.fade_in(), (t.fade_out() - 1) as nat, t.pending());
        if t.pending() is Some {
            Transport::lemma_with(t.pending()->0, t.fade_in(), 0, None);
        }
    } else if t.fade_in() > 0 {
        Transport::lemma_with(t.playback(), (t.fade_in() - 1) as nat, 0, t.pending());
    }
}

/// A pause or a stop asked for while playing takes effect exactly when its
/// fade-out has run: the playback state stays as it is (and the deck keeps
/// sounding) for the frames left in the fade, then the waiting state takes
/// over with no fade-out left. A pause from playing thus takes effect after
/// `FADE_OUT_SAMPLES` frames.
pub proof fn lemma_fade_out_completes(t: Transport, n: nat)
    requires
        t.wf(),
        t.fade_out() > 0,
    ensures
        n < t.fade_out() ==> {
            &&& t.after_frames(n).playback() == t.playback()
            &&& t.after_frames(n).audible()
            &&& t.after_frames(n).pending() == t.pending()
        },
        n == t.fade_out() ==> {
            &&& t.after_frames(n).playback() == t.pending()->0
            &&& t.after_frames(n).fade_out() == 0
            &&& t.after_frames(n).pending() is None
        },
    decreases n,
{
    if n > 0 && n <= t.fade_out() {
        lemma_frame_keeps_wf(t);
        let t1 = t.after_frame();
        if t.fade_out() == 1 {
            Transport::lemma_with(t.pending()->0, t.fade_in(), 0, None);
            assert(t1.after_frames(0) == t1);
        } else {
            Transport::lemma_with(t.playback(), t.fade_in(), (t.fade_out() - 1) as nat, t.pending());
            lemma_fade_out_completes(t1, (n - 1) as nat);
        }
    }
}

/// Without a fade-out, a fade-in lasts as many frames as it has left and
/// changes nothing else; then the gain is full.
pub proof fn lemma_fade_in_completes(t: Transport, n: nat)
    requires
        t.wf(),
        t.fade_out() == 0,
        n <= t.fade_in(),
    ensures
        t.after_frames(n).playback() == t.playback(),
        t.after_frames(n).fade_in() == t.fade_in() - n,
        t.after_frames(n).fade_out() == 0,
        t.after_frames(n).pending() == t.pending(),
        n < t.fade_in() ==> t.after_frames(n).frame_step() == (FadeStep::FadeIn {
            remaining: (t.fade_in() - n) as u32,
        }),
        n == t.fade_in() ==> t.after_frames(n).frame_step() == FadeStep::Unity,
    decreases n,
{
    if n > 0 {
        lemma_frame_keeps_wf(t);
        Transport::lemma_with(t.playback(), (t.fade_in() - 1) as nat, 0, t.pending());
        lemma_fade_in_completes(t.after_frame(), (n - 1) as nat);
    }
}

/// Size of scope buffer for oscilloscope display
pub const SCOPE_SAMPLES_SIZE: usize = 512;

/// A fixed-size ring holding the most recent samples pushed into it, for
/// the oscilloscope display.
pub struct ScopeRing<T> {
    buffer: Vec<T>,
    write_pos: usize,
}

impl<T> ScopeRing<T> {
    /// The write position lies inside the buffer.
    pub closed spec fn wf(self) -> bool {
        self.write_pos < self.buffer@.len()
    }

    /// The samples held, oldest first.
    pub closed spec fn view(self) -> Seq<T> {
        self.buffer@.subrange(self.write_pos as int, self.buffer@.len() as int) + self.buffer@.subrange(
            0,
            self.write_pos as int,
        )
    }
}

impl<T: Copy> ScopeRing<T> {
    /// A ring of `size` samples, all `fill`.
    pub fn new(size: usize, fill: T) -> (r: Self)
        requires
            size > 0,
        ensures
            r.wf(),
            r@ == Seq::new(size as nat, |i: int| fill),
    {
        let mut buffer: Vec<T> = Vec::new();
        let mut i: usize = 0;
        while i < size
            invariant
                i <= size,
                buffer@ == Seq::new(i as nat, |k: int| fill),
            decreases size - i,
        {
            buffer.push(fill);
            i = i + 1;
        }
        let r = ScopeRing { buffer, write_pos: 0 };
        assert(r@ =~= Seq::new(size as nat, |i: int| fill));
        r
    }

    /// The number of samples held.
    pub fn len(&self) -> (n: usize)
        requires
            self.wf(),
        ensures
            n == self@.len(),
            n > 0,
    {
        self.buffer.len()
    }

    /// Push a sample; the oldest one leaves.
    pub fn push(&mut self, sample: T)
        requires
            old(self).wf(),
        ensures
            final(self).wf(),
            final(self)@ == old(self)@.drop_first().push(sample),
    {
        let len = self.buffer.len();
        let pos = self.write_pos;
        self.buffer.set(pos, sample);
        let next = if pos + 1 == len {
            0
        } else {
            pos + 1
        };
        let ghost old_buf = old(self).buffer@;
        self.write_pos = next;
        assert(self@ =~= old(self)@.drop_first().push(sample)) by {
            if next == 0 {
                assert(self.buffer@ == old_buf.update(pos as int, sample));
            }
        }
    }

    /// The samples held, oldest first.
    pub fn snapshot(&self) -> (r: Vec<T>)
        requires
            self.wf(),
        ensures
            r@ == self@,
    {
        let len = self.buffer.len();
        let mut out: Vec<T> = Vec::new();
        let mut i: usize = 0;
        while i < len
            invariant
                len == self.buffer@.len(),
                self.write_pos < len,
                i <= len,
                out@.len() == i,
                forall|k: int| 0 <= k < i ==> out@[k] == self@[k],
            decreases len - i,
        {
            let idx = if i < len - self.write_pos {
                self.write_pos + i
            } else {
                i - (len - self.write_pos)
            };
            out.push(self.buffer[idx]);
            i = i + 1;
        }
        assert(out@ =~= self@);
        out
    }
}

/// After pushing the samples `xs` one by one, the ring holds the last
/// samples of what it held followed by `xs`: it always shows the most
/// recent `len` samples, oldest first.
pub open spec fn after_pushes<T>(held: Seq<T>, xs: Seq<T>) -> Seq<T> {
    (held + xs).subrange(xs.len() as int, (held.len() + xs.len()) as int)
}

/// Pushing one more sample extends `after_pushes` by that sample.
pub proof fn lemma_after_pushes_step<T>(held: Seq<T>, xs: Seq<T>, x: T)
    requires
        held.len() > 0,
    ensures
        after_pushes(held, xs).drop_first().push(x) == after_pushes(held, xs.push(x)),
{
    assert(after_pushes(held, xs).drop_first().push(x) =~= after_pushes(held, xs.push(x)));
}

} // verus!
