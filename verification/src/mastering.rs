//! Mastering chain presets, the stages each preset switches on, and
//! saturation modes.
use vstd::prelude::*;

verus! {

/// Genre presets for the mastering chain
#[derive(Debug, Clone, Copy, PartialEq, Eq, Structural)]
pub enum MasteringPreset {
    /// Bypass - no processing
    Off,
    /// Minimal processing - transparent
    Clean,
    /// Techno - subtle warmth, tight low end
    Techno,
    /// House - warm, wide, punchy
    House,
    /// Drum & Bass - crisp highs, controlled lows
    DnB,
}

impl Default for MasteringPreset {
    fn default() -> (r: Self)
        ensures
            r == MasteringPreset::Clean,
    {
        MasteringPreset::Clean
    }
}

/// The name shown for each mastering preset.
pub open spec fn preset_name(p: MasteringPreset) -> Seq<char> {
    match p {
        MasteringPreset::Off => seq!['O', 'F', 'F'],
        MasteringPreset::Clean => seq!['C', 'L', 'E', 'A', 'N'],
        MasteringPreset::Techno => seq!['T', 'E', 'C', 'H', 'N', 'O'],
        MasteringPreset::House => seq!['H', 'O', 'U', 'S', 'E'],
        MasteringPreset::DnB => seq!['D', '&', 'B'],
    }
}

/// The preset after `p` in the cycle Off, Clean, Techno, House, D&B, Off, ...
pub open spec fn preset_after(p: MasteringPreset) -> MasteringPreset {
    match p {
        MasteringPreset::Off => MasteringPreset::Clean,
        MasteringPreset::Clean => MasteringPreset::Techno,
        MasteringPreset::Techno => MasteringPreset::House,
        MasteringPreset::House => MasteringPreset::DnB,
        MasteringPreset::DnB => MasteringPreset::Off,
    }
}

impl MasteringPreset {
    /// Get display name for the preset
    pub fn display_name(&self) -> (r: &'static str)
        ensures
            r@ == preset_name(*self),
    {
        proof {
            reveal_strlit("OFF");
            reveal_strlit("CLEAN");
            reveal_strlit("TECHNO");
            reveal_strlit("HOUSE");
            reveal_strlit("D&B");
        }
        match self {
            MasteringPreset::Off => "OFF",
            MasteringPreset::Clean => "CLEAN",
            MasteringPreset::Techno => "TECHNO",
            MasteringPreset::House => "HOUSE",
            MasteringPreset::DnB => "D&B",
        }
    }

    /// Cycle to the next preset
    pub fn next(self) -> (r: Self)
        ensures
            r == preset_after(self),
    {
        match self {
            MasteringPreset::Off => MasteringPreset::Clean,
            MasteringPreset::Clean => MasteringPreset::Techno,
            MasteringPreset::Techno => MasteringPreset::House,
            MasteringPreset::House => MasteringPreset::DnB,
            MasteringPreset::DnB => MasteringPreset::Off,
        }
    }
}

/// The preset cycle visits all five presets and comes back after five steps.
pub proof fn lemma_preset_cycle(p: MasteringPreset)
    ensures
        preset_after(preset_after(preset_after(preset_after(preset_after(p))))) == p,
        preset_after(p) != p,
{
}

/// Which stages of the mastering chain are switched on.
#[derive(Debug, Clone, Copy, PartialEq, Eq, Structural)]
pub struct MasteringStages {
    pub eq: bool,
    pub compressor: bool,
    pub saturation: bool,
    pub stereo: bool,
}

/// The stages a preset switches on: none for `Off`; EQ, compressor and
/// stereo enhancer for `Clean`; all four for the genre presets.
pub open spec fn stages_of(p: MasteringPreset) -> MasteringStages {
    match p {
        MasteringPreset::Off => MasteringStages { eq: false, compressor: false, saturation: false, stereo: false },
        MasteringPreset::Clean => MasteringStages { eq: true, compressor: true, saturation: false, stereo: true },
        _ => MasteringStages { eq: true, compressor: true, saturation: true, stereo: true },
    }
}

/// The stages of the mastering chain that a preset switches on (the
/// stages' parameters come with the preset too).
pub fn preset_stages(preset: MasteringPreset) -> (r: MasteringStages)
    ensures
        r == stages_of(preset),
{
    match preset {
        MasteringPreset::Off => MasteringStages { eq: false, compressor: false, saturation: false, stereo: false },
        MasteringPreset::Clean => MasteringStages { eq: true, compressor: true, saturation: false, stereo: true },
        MasteringPreset::Techno | MasteringPreset::House | MasteringPreset::DnB => MasteringStages {
            eq: true,
            compressor: true,
            saturation: true,
            stereo: true,
        },
    }
}

/// `Off` bypasses every stage; every other preset runs the EQ, the
/// compressor and the stereo enhancer, and only `Clean` leaves saturation off.
pub proof fn lemma_preset_stages(p: MasteringPreset)
    ensures
        p == MasteringPreset::Off <==> !stages_of(p).eq,
        stages_of(p).eq == stages_of(p).compressor,
        stages_of(p).eq == stages_of(p).stereo,
        stages_of(p).saturation <==> (stages_of(p).eq && p != MasteringPreset::Clean),
{
}

/// Saturation mode
#[derive(Debug, Clone, Copy, PartialEq, Eq, Structural)]
pub enum SaturationMode {
    /// Tape-style: soft symmetric clipping (warm, musical)
    Tape,
    /// Tube-style: asymmetric, even harmonics (warm, rich)
    Tube,
    /// Transistor-style: harder clipping (edgy, aggressive)
    Transistor,
}

impl Default for SaturationMode {
    fn default() -> (r: Self)
        ensures
            r == SaturationMode::Tape,
    {
        SaturationMode::Tape
    }
}

/// The name shown for each saturation mode.
pub open spec fn saturation_name(m: SaturationMode) -> Seq<char> {
    match m {
        SaturationMode::Tape => seq!['T', 'A', 'P', 'E'],
        SaturationMode::Tube => seq!['T', 'U', 'B', 'E'],
        SaturationMode::Transistor => seq!['T', 'R', 'A', 'N', 'S'],
    }
}

impl SaturationMode {
    /// Get display name
    pub fn display_name(&self) -> (r: &'static str)
        ensures
            r@ == saturation_name(*self),
    {
        proof {
            reveal_strlit("TAPE");
            reveal_strlit("TUBE");
            reveal_strlit("TRANS");
        }
        match self {
            SaturationMode::Tape => "TAPE",
            SaturationMode::Tube => "TUBE",
            SaturationMode::Transistor => "TRANS",
        }
    }
}

} // verus!
