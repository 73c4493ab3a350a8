//! Turntable emulation settings.
use vstd::prelude::*;

verus! {

/// Vinyl emulation preset
#[derive(Debug, Clone, Copy, PartialEq, Eq, Structural)]
pub enum VinylPreset {
    /// Minimal character, almost clean
    Clean,
    /// Warm but not noisy
    Warm,
    /// Classic vintage vinyl
    Vintage,
    /// Old, worn record with more noise
    Worn,
    /// Maximum vinyl character
    Extreme,
}

impl Default for VinylPreset {
    fn default() -> (r: Self)
        ensures
            r == VinylPreset::Warm,
    {
        VinylPreset::Warm
    }
}

/// Saturation character of the analog warmth stage
#[derive(Debug, Clone, Copy, PartialEq, Eq, Structural)]
pub enum SaturationType {
    /// Tube-like (asymmetric, even harmonics)
    Tube,
    /// Tape-like (soft symmetric clipping)
    Tape,
    /// Transistor-like (harder clipping)
    Transistor,
}

impl Default for SaturationType {
    fn default() -> (r: Self)
        ensures
            r == SaturationType::Tube,
    {
        SaturationType::Tube
    }
}

} // verus!
