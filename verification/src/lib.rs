//! The logic of the OLE DJ engine that does not compute on audio samples:
//! Camelot-wheel harmony and pitch-class profiles, the deck transport and
//! its cue, loop and slip markers, the sampler's slots, sample buffers and
//! the limiter's peak-hold window, FFT index tables, the integer state of
//! the noise sources and the bitcrusher, and the settings and labels of the
//! effects.
use vstd::prelude::*;

pub mod beat_repeat;
pub mod bitcrush;
pub mod camelot;
pub mod chroma;
pub mod cues;
pub mod deck;
pub mod effects;
pub mod limiter;
pub mod mastering;
pub mod mixer;
pub mod noise;
pub mod phrase;
pub mod recording;
pub mod sampler;
pub mod text;
pub mod timestretch;
pub mod vinyl;
pub mod waveform;

verus! {

} // verus!
