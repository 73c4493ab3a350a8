//! Recording of the master output: a bounded capture buffer. The samples
//! are carried, never read, so the buffer holds any sample type.
use vstd::prelude::*;

verus! {

/// Maximum recording length in samples (~30 minutes at 48kHz stereo)
pub const MAX_RECORDING_SAMPLES: usize = 172_800_000;

/// Capture of the master output while recording is on.
pub struct RecordingState<T> {
    pub is_recording: bool,
    buffer: Vec<T>,
    sample_rate: u32,
}

impl<T> RecordingState<T> {
    /// The samples captured so far.
    pub closed spec fn samples(self) -> Seq<T> {
        self.buffer@
    }

    /// The sample rate of the capture.
    pub closed spec fn rate(self) -> u32 {
        self.sample_rate
    }

    /// Whether samples are being captured.
    pub closed spec fn recording(self) -> bool {
        self.is_recording
    }
}

impl<T: Copy> RecordingState<T> {
    /// An empty capture at the given sample rate, not recording.
    pub fn new(sample_rate: u32) -> (r: Self)
        ensures
            !r.recording(),
            r.samples() == Seq::<T>::empty(),
            r.rate() == sample_rate,
    {
        RecordingState { is_recording: false, buffer: Vec::new(), sample_rate }
    }

    /// Start a new recording: the buffer is emptied.
    pub fn start(&mut self)
        ensures
            final(self).recording(),
            final(self).samples() == Seq::<T>::empty(),
            final(self).rate() == old(self).rate(),
    {
        self.buffer.clear();
        // Pre-allocate full capacity to avoid allocations in audio callback
        self.buffer.reserve(MAX_RECORDING_SAMPLES);
        self.is_recording = true;
    }

    /// Stop recording; the captured samples stay.
    pub fn stop(&mut self)
        ensures
            !final(self).recording(),
            final(self).samples() == old(self).samples(),
            final(self).rate() == old(self).rate(),
    {
        self.is_recording = false;
    }

    /// Add samples from the master output while recording. Samples that
    /// would take the capture past `MAX_RECORDING_SAMPLES` are dropped and
    /// recording stops.
    pub fn add_samples(&mut self, samples: &[T])
        ensures
            final(self).rate() == old(self).rate(),
            !old(self).recording() ==> *final(self) == *old(self),
            old(self).recording() && old(self).samples().len() + samples@.len() > MAX_RECORDING_SAMPLES
                ==> {
                &&& !final(self).recording()
                &&& final(self).samples() == old(self).samples()
            },
            old(self).recording() && old(self).samples().len() + samples@.len() <= MAX_RECORDING_SAMPLES
                ==> {
                &&& final(self).recording()
                &&& final(self).samples() == old(self).samples() + samples@
            },
            // The capture never grows past the limit.
            old(self).samples().len() <= MAX_RECORDING_SAMPLES ==> final(self).samples().len()
                <= MAX_RECORDING_SAMPLES,
    {
        if !self.is_recording {
            return;
        }
        // Safety limit to prevent unbounded memory usage
        if samples.len() > MAX_RECORDING_SAMPLES || self.buffer.len() > MAX_RECORDING_SAMPLES
            - samples.len() {
            self.is_recording = false;
            return;
        }
        let ghost before = self.buffer@;
        let n = samples.len();
        let mut i: usize = 0;
        while i < n
            invariant
                n == samples@.len(),
                i <= n,
                self.buffer@ == before + samples@.take(i as int),
                self.is_recording == old(self).recording(),
                self.sample_rate == old(self).sample_rate,
            decreases n - i,
        {
            self.buffer.push(samples[i]);
            i = i + 1;
            assert(samples@.take(i as int) =~= samples@.take(i - 1).push(samples@[i - 1]));
        }
        assert(samples@.take(n as int) =~= samples@);
    }

    /// The samples captured so far.
    pub fn as_slice(&self) -> (r: &[T])
        ensures
            r@ == self.samples(),
    {
        self.buffer.as_slice()
    }

    /// The number of samples captured.
    pub fn len(&self) -> (n: usize)
        ensures
            n == self.samples().len(),
    {
        self.buffer.len()
    }

    /// The sample rate of the capture.
    pub fn sample_rate(&self) -> (r: u32)
        ensures
            r == self.rate(),
    {
        self.sample_rate
    }

    /// Take the buffer out (for saving on the main thread); the capture is
    /// left empty.
    pub fn take_buffer(&mut self) -> (r: (Vec<T>, u32))
        ensures
            r.0@ == old(self).samples(),
            r.1 == old(self).rate(),
            final(self).samples() == Seq::<T>::empty(),
            final(self).rate() == old(self).rate(),
            final(self).recording() == old(self).recording(),
    {
        let mut buf: Vec<T> = Vec::new();
        std::mem::swap(&mut buf, &mut self.buffer);
        (buf, self.sample_rate)
    }
}

} // verus!
