//! Crossfader curves of the mixer.
use vstd::prelude::*;

verus! {

/// Crossfader curve type
#[derive(Debug, Clone, Copy, PartialEq, Eq, Structural)]
pub enum CrossfaderCurve {
    /// Linear crossfade
    Linear,
    /// Constant power (equal loudness)
    ConstantPower,
    /// Sharp cut (DJ battle style)
    Cut,
}

impl Default for CrossfaderCurve {
    fn default() -> (r: Self)
        ensures
            r == CrossfaderCurve::Linear,
    {
        CrossfaderCurve::Linear
    }
}

} // verus!
