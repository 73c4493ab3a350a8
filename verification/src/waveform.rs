//! Frequency bands of the enhanced waveform display.
use vstd::prelude::*;

verus! {

/// Dominant frequency band for a waveform point
#[derive(Debug, Clone, Copy, PartialEq, Eq, Structural)]
pub enum FrequencyBand {
    /// Bass frequencies (<250Hz) - kicks, bass
    Bass,
    /// Mid frequencies (250Hz-4kHz) - vocals, instruments
    Mid,
    /// High frequencies (>4kHz) - hi-hats, cymbals, air
    High,
}

impl Default for FrequencyBand {
    fn default() -> (r: Self)
        ensures
            r == FrequencyBand::Mid,
    {
        FrequencyBand::Mid
    }
}

} // verus!
