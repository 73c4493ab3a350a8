//! The capture and loop positions of the beat-repeat effect: a circular
//! capture buffer is written continuously, and once triggered a frozen
//! segment of it is read over and over.
use vstd::prelude::*;

verus! {

/// Number of stereo frames in the capture buffer (2 seconds at 48kHz)
pub const BUFFER_FRAMES: usize = 96000;

/// Length of the capture buffer in samples (two per stereo frame).
pub const BUFFER_LEN: usize = 192000;

/// Positions of the beat-repeat effect in its capture buffer.
pub struct RepeatCursor {
    /// Write position in capture buffer (in stereo frames)
    write_pos: usize,
    /// Read position in capture buffer (in stereo samples)
    read_pos: usize,
    /// Length of frozen segment in stereo samples (frames * 2)
    segment_len: usize,
    /// Start of frozen segment in capture buffer (stereo sample index)
    segment_start: usize,
    /// Whether we're in repeat mode
    triggered: bool,
    /// How many repeats have completed (for decay)
    repeat_count: u32,
    /// Counts samples since trigger for auto-release
    auto_release_counter: usize,
    /// Auto-release threshold in stereo samples (8 beats)
    auto_release_threshold: usize,
}

/// Where a segment of `len` samples ending at the write position starts.
pub open spec fn segment_start_for(write_pos: nat, len: nat) -> nat {
    let w = write_pos * 2;
    if w >= len {
        (w - len) as nat
    } else {
        (BUFFER_LEN - (len - w)) as nat
    }
}

/// How far `pos` lies past `start`, going round the buffer.
pub open spec fn offset_from(start: nat, pos: nat) -> nat {
    if pos >= start {
        (pos - start) as nat
    } else {
        (pos + BUFFER_LEN - start) as nat
    }
}

/// Whether moving on from `pos` reaches the end of the segment of `len`
/// samples from `start`, as the read position's wrap check decides it.
pub open spec fn wraps_at(start: nat, len: nat, pos: nat) -> bool {
    let next = (pos + 2) % (BUFFER_LEN as nat);
    let end = (start + len) % (BUFFER_LEN as nat);
    if start <= end {
        next >= end
    } else {
        next >= end && next < start
    }
}

/// The read position after `pos`: one stereo pair on, or back to the start
/// of the segment at its end.
pub open spec fn read_after(start: nat, len: nat, pos: nat) -> nat {
    if wraps_at(start, len, pos) {
        start
    } else {
        (pos + 2) % (BUFFER_LEN as nat)
    }
}

impl RepeatCursor {
    pub closed spec fn write_frame(self) -> nat {
        self.write_pos as nat
    }

    pub closed spec fn read_position(self) -> nat {
        self.read_pos as nat
    }

    pub closed spec fn segment_length(self) -> nat {
        self.segment_len as nat
    }

    pub closed spec fn segment_begin(self) -> nat {
        self.segment_start as nat
    }

    pub closed spec fn is_repeating(self) -> bool {
        self.triggered
    }

    pub closed spec fn repeats(self) -> nat {
        self.repeat_count as nat
    }

    pub closed spec fn released_after(self) -> nat {
        self.auto_release_threshold as nat
    }

    pub closed spec fn since_trigger(self) -> nat {
        self.auto_release_counter as nat
    }

    /// All positions lie inside the capture buffer.
    pub closed spec fn wf(self) -> bool {
        &&& self.write_pos < BUFFER_FRAMES
        &&& self.read_pos < BUFFER_LEN
        &&& self.segment_start < BUFFER_LEN
        &&& self.segment_len <= BUFFER_LEN
    }

    /// A cursor at the start of the buffer, not repeating.
    pub fn new(segment_len: usize, auto_release_threshold: usize) -> (r: Self)
        requires
            segment_len <= BUFFER_LEN,
        ensures
            r.wf(),
            r.write_frame() == 0,
            r.read_position() == 0,
            r.segment_begin() == 0,
            r.segment_length() == segment_len,
            !r.is_repeating(),
            r.repeats() == 0,
            r.since_trigger() == 0,
            r.released_after() == auto_release_threshold,
    {
        RepeatCursor {
            write_pos: 0,
            read_pos: 0,
            segment_len,
            segment_start: 0,
            triggered: false,
            repeat_count: 0,
            auto_release_counter: 0,
            auto_release_threshold,
        }
    }

    /// Whether the effect is repeating.
    pub fn is_triggered(&self) -> (r: bool)
        ensures
            r == self.is_repeating(),
    {
        self.triggered
    }

    /// Read position (in samples) of the next captured frame to play.
    pub fn read_pos(&self) -> (r: usize)
        requires
            self.wf(),
        ensures
            r == self.read_position(),
            r < BUFFER_LEN,
    {
        self.read_pos
    }

    /// Repeats completed since the trigger.
    pub fn repeat_count(&self) -> (r: u32)
        ensures
            r == self.repeats(),
    {
        self.repeat_count
    }

    /// Samples played since the trigger, counted for the auto-release.
    pub fn samples_since_trigger(&self) -> (r: usize)
        ensures
            r == self.since_trigger(),
    {
        self.auto_release_counter
    }

    /// Change the segment length (the effect recomputes it from its tempo
    /// and division).
    pub fn set_segment_len(&mut self, segment_len: usize)
        requires
            old(self).wf(),
            segment_len <= BUFFER_LEN,
        ensures
            final(self).wf(),
            final(self).segment_length() == segment_len,
            final(self).write_frame() == old(self).write_frame(),
            final(self).read_position() == old(self).read_position(),
            final(self).segment_begin() == old(self).segment_begin(),
            final(self).is_repeating() == old(self).is_repeating(),
            final(self).repeats() == old(self).repeats(),
            final(self).since_trigger() == old(self).since_trigger(),
            final(self).released_after() == old(self).released_after(),
    {
        self.segment_len = segment_len;
    }

    /// Change the auto-release threshold.
    pub fn set_auto_release(&mut self, threshold: usize)
        ensures
            final(self).released_after() == threshold,
            final(self).wf() == old(self).wf(),
            final(self).segment_length() == old(self).segment_length(),
            final(self).write_frame() == old(self).write_frame(),
            final(self).read_position() == old(self).read_position(),
            final(self).segment_begin() == old(self).segment_begin(),
            final(self).is_repeating() == old(self).is_repeating(),
            final(self).repeats() == old(self).repeats(),
            final(self).since_trigger() == old(self).since_trigger(),
    {
        self.auto_release_threshold = threshold;
    }

    /// Trigger the repeat with a segment of `segment_len` samples ending at
    /// the write position. If already triggered, release instead.
    pub fn trigger(&mut self, segment_len: usize)
        requires
            old(self).wf(),
            segment_len <= BUFFER_LEN,
        ensures
            final(self).wf(),
            old(self).is_repeating() ==> {
                &&& !final(self).is_repeating()
                &&& final(self).segment_length() == old(self).segment_length()
                &&& final(self).read_position() == old(self).read_position()
                &&& final(self).segment_begin() == old(self).segment_begin()
                &&& final(self).repeats() == old(self).repeats()
                &&& final(self).since_trigger() == old(self).since_trigger()
            },
            !old(self).is_repeating() ==> {
                &&& final(self).is_repeating()
                &&& final(self).segment_length() == segment_len
                &&& final(self).segment_begin() == segment_start_for(old(self).write_frame(), segment_len as nat)
                &&& final(self).read_position() == final(self).segment_begin()
                &&& final(self).repeats() == 0
                &&& final(self).since_trigger() == 0
            },
            final(self).write_frame() == old(self).write_frame(),
            final(self).released_after() == old(self).released_after(),
    {
        if self.triggered {
            self.release();
            return;
        }
        self.segment_len = segment_len;
        // Set read_pos to write_pos - segment_len (wrap around circular buffer)
        let write_sample_pos = self.write_pos * 2;
        if write_sample_pos >= self.segment_len {
            self.segment_start = write_sample_pos - self.segment_len;
        } else {
            self.segment_start = BUFFER_LEN - (self.segment_len - write_sample_pos);
        }
        self.read_pos = self.segment_start;
        self.triggered = true;
        self.repeat_count = 0;
        self.auto_release_counter = 0;
    }

    /// Release the beat repeat (stop looping).
    pub fn release(&mut self)
        ensures
            !final(self).is_repeating(),
            final(self).wf() == old(self).wf(),
            final(self).segment_length() == old(self).segment_length(),
            final(self).write_frame() == old(self).write_frame(),
            final(self).read_position() == old(self).read_position(),
            final(self).segment_begin() == old(self).segment_begin(),
            final(self).repeats() == old(self).repeats(),
            final(self).since_trigger() == old(self).since_trigger(),
            final(self).released_after() == old(self).released_after(),
    {
        self.triggered = false;
    }

    /// The sample index where the incoming frame is captured; the write
    /// position then moves on one frame, round the buffer.
    pub fn capture_frame(&mut self) -> (idx: usize)
        requires
            old(self).wf(),
        ensures
            idx == old(self).write_frame() * 2,
            idx + 1 < BUFFER_LEN,
            final(self).wf(),
            final(self).write_frame() == (old(self).write_frame() + 1) % (BUFFER_FRAMES as nat),
            final(self).read_position() == old(self).read_position(),
            final(self).segment_length() == old(self).segment_length(),
            final(self).segment_begin() == old(self).segment_begin(),
            final(self).is_repeating() == old(self).is_repeating(),
            final(self).repeats() == old(self).repeats(),
            final(self).since_trigger() == old(self).since_trigger(),
            final(self).released_after() == old(self).released_after(),
    {
        let idx = self.write_pos * 2;
        self.write_pos = (self.write_pos + 1) % BUFFER_FRAMES;
        idx
    }

    /// Advance the read position by one stereo pair; at the end of the
    /// segment it goes back to the segment's start and one more repeat is
    /// counted. Returns whether it went back.
    pub fn advance_read_pos(&mut self) -> (wrapped: bool)
        requires
            old(self).wf(),
            old(self).repeats() < u32::MAX,
        ensures
            final(self).wf(),
            wrapped == wraps_at(
                old(self).segment_begin(),
                old(self).segment_length(),
                old(self).read_position(),
            ),
            final(self).read_position() == read_after(
                old(self).segment_begin(),
                old(self).segment_length(),
                old(self).read_position(),
            ),
            final(self).repeats() == old(self).repeats() + if wrapped { 1nat } else { 0nat },
            final(self).segment_length() == old(self).segment_length(),
            final(self).segment_begin() == old(self).segment_begin(),
            final(self).write_frame() == old(self).write_frame(),
            final(self).is_repeating() == old(self).is_repeating(),
            final(self).since_trigger() == old(self).since_trigger(),
            final(self).released_after() == old(self).released_after(),
    {
        self.read_pos = (self.read_pos + 2) % BUFFER_LEN;
        // Check if we've reached the end of the segment
        let segment_end = (self.segment_start + self.segment_len) % BUFFER_LEN;
        let wrapped = if self.segment_start <= segment_end {
            // Segment doesn't wrap around buffer (includes exact-length case)
            self.read_pos >= segment_end
        } else {
            // Segment wraps around buffer end
            self.read_pos >= segment_end && self.read_pos < self.segment_start
        };
        if wrapped {
            self.read_pos = self.segment_start;
            self.repeat_count = self.repeat_count + 1;
        }
        wrapped
    }

    /// Count one stereo frame played since the trigger; after the
    /// auto-release threshold the repeat is released. Returns whether it was.
    pub fn count_auto_release(&mut self) -> (released: bool)
        requires
            old(self).since_trigger() + 2 <= usize::MAX,
        ensures
            final(self).since_trigger() == old(self).since_trigger() + 2,
            released == (final(self).since_trigger() >= old(self).released_after()),
            final(self).is_repeating() == (old(self).is_repeating() && !released),
            final(self).wf() == old(self).wf(),
            final(self).segment_length() == old(self).segment_length(),
            final(self).write_frame() == old(self).write_frame(),
            final(self).read_position() == old(self).read_position(),
            final(self).segment_begin() == old(self).segment_begin(),
            final(self).repeats() == old(self).repeats(),
            final(self).released_after() == old(self).released_after(),
    {
        // stereo samples
        self.auto_release_counter = self.auto_release_counter + 2;
        if self.auto_release_counter >= self.auto_release_threshold {
            self.release();
            true
        } else {
            false
        }
    }

    /// Back to the start of the buffer, not repeating, with a new segment
    /// length.
    pub fn reset(&mut self, segment_len: usize)
        requires
            segment_len <= BUFFER_LEN,
        ensures
            final(self).wf(),
            final(self).write_frame() == 0,
            final(self).read_position() == 0,
            final(self).segment_begin() == 0,
            final(self).segment_length() == segment_len,
            !final(self).is_repeating(),
            final(self).repeats() == 0,
            final(self).since_trigger() == 0,
            final(self).released_after() == old(self).released_after(),
    {
        self.write_pos = 0;
        self.read_pos = 0;
        self.segment_start = 0;
        self.segment_len = segment_len;
        self.triggered = false;
        self.repeat_count = 0;
        self.auto_release_counter = 0;
    }
}

/// A triggered segment ends where the next frame will be captured: it
/// holds the `len` samples captured last.
pub proof fn lemma_segment_ends_at_write(write_frame: nat, len: nat)
    requires
        write_frame < BUFFER_FRAMES,
        len <= BUFFER_LEN,
    ensures
        segment_start_for(write_frame, len) < BUFFER_LEN,
        (segment_start_for(write_frame, len) + len) % (BUFFER_LEN as nat) == (write_frame * 2) % (
        BUFFER_LEN as nat),
{
}

/// While repeating a segment shorter than the buffer, the read position
/// never leaves the segment: it moves on one stereo pair at a time and goes
/// back to the segment's start exactly when it reaches the segment's end,
/// so each repeat lasts `len / 2` frames.
pub proof fn lemma_read_stays_in_segment(start: nat, len: nat, pos: nat)
    requires
        start < BUFFER_LEN,
        pos < BUFFER_LEN,
        2 <= len < BUFFER_LEN,
        len % 2 == 0,
        offset_from(start, pos) < len,
        offset_from(start, pos) % 2 == 0,
    ensures
        wraps_at(start, len, pos) == (offset_from(start, pos) + 2 == len),
        offset_from(start, read_after(start, len, pos)) == if wraps_at(start, len, pos) {
            0
        } else {
            offset_from(start, pos) + 2
        },
        read_after(start, len, pos) < BUFFER_LEN,
{
}

} // verus!
