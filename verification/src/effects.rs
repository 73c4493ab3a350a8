//! Settings of the deck effects: filter and delay modes, gate rhythms,
//! ring-modulator waveforms, shimmer intervals and wash colours, and the
//! effect controls of a deck: which effect is on, the preset levels, and
//! where each effect command goes.
use vstd::prelude::*;

verus! {

/// Effect type identifier (for generic commands like mix adjustment)
#[derive(Debug, Clone, Copy, PartialEq, Eq, Structural)]
pub enum EffectType {
    Filter,
    Delay,
    Reverb,
    TapeStop,
    Flanger,
    Bitcrusher,
    Phaser,
    Gate,
    BeatRepeat,
    RingMod,
    Shimmer,
    WashOut,
}

/// Filter mode - selects which filter implementation to use
#[derive(Debug, Clone, Copy, PartialEq, Eq, Structural)]
pub enum FilterMode {
    /// Plain biquad filter (clean digital)
    Biquad,
    /// Moog-style 4-pole ladder (analog warmth)
    Ladder,
    /// State Variable Filter (clean, all outputs)
    SVF,
}

impl Default for FilterMode {
    fn default() -> (r: Self)
        ensures
            r == FilterMode::Biquad,
    {
        FilterMode::Biquad
    }
}

/// Biquad filter response
#[derive(Debug, Clone, Copy, PartialEq, Eq, Structural)]
pub enum FilterType {
    LowPass,
    HighPass,
    BandPass,
}

impl Default for FilterType {
    fn default() -> (r: Self)
        ensures
            r == FilterType::LowPass,
    {
        FilterType::LowPass
    }
}

/// Delay interpolation mode
#[derive(Debug, Clone, Copy, PartialEq, Eq, Hash, Structural)]
pub enum DelayInterpolation {
    /// No interpolation (integer samples only, lowest CPU)
    Off,
    /// Linear interpolation (good balance)
    Linear,
    /// 4-point Lagrange cubic interpolation (highest quality)
    Lagrange,
}

impl Default for DelayInterpolation {
    fn default() -> (r: Self)
        ensures
            r == DelayInterpolation::Lagrange,
    {
        DelayInterpolation::Lagrange
    }
}

/// Delay modulation mode for tape character
#[derive(Debug, Clone, Copy, PartialEq, Eq, Hash, Structural)]
pub enum DelayModulation {
    /// No modulation (clean digital delay)
    Off,
    /// Subtle tape wow (slow pitch variation)
    Subtle,
    /// Classic tape modulation
    Classic,
    /// Heavy warped tape effect
    Heavy,
}

impl Default for DelayModulation {
    fn default() -> (r: Self)
        ensures
            r == DelayModulation::Off,
    {
        DelayModulation::Off
    }
}

/// Note division for the rhythm of the gating effect
#[derive(Debug, Clone, Copy, PartialEq, Eq, Structural)]
pub enum GateDivision {
    Half,
    Quarter,
    Eighth,
    Sixteenth,
    ThirtySecond,
    Triplet8,
    Triplet16,
}

impl Default for GateDivision {
    fn default() -> (r: Self)
        ensures
            r == GateDivision::Eighth,
    {
        GateDivision::Eighth
    }
}

/// The division after `d` in the cycle Half, Quarter, Eighth, Sixteenth,
/// ThirtySecond, Triplet8, Triplet16, Half, ...
pub open spec fn division_after(d: GateDivision) -> GateDivision {
    match d {
        GateDivision::Half => GateDivision::Quarter,
        GateDivision::Quarter => GateDivision::Eighth,
        GateDivision::Eighth => GateDivision::Sixteenth,
        GateDivision::Sixteenth => GateDivision::ThirtySecond,
        GateDivision::ThirtySecond => GateDivision::Triplet8,
        GateDivision::Triplet8 => GateDivision::Triplet16,
        GateDivision::Triplet16 => GateDivision::Half,
    }
}

/// `division_after` applied `n` times.
pub open spec fn division_after_n(d: GateDivision, n: nat) -> GateDivision
    decreases n,
{
    if n == 0 {
        d
    } else {
        division_after_n(division_after(d), (n - 1) as nat)
    }
}

impl GateDivision {
    /// Cycle to the next division
    pub fn next(self) -> (r: Self)
        ensures
            r == division_after(self),
    {
        match self {
            GateDivision::Half => GateDivision::Quarter,
            GateDivision::Quarter => GateDivision::Eighth,
            GateDivision::Eighth => GateDivision::Sixteenth,
            GateDivision::Sixteenth => GateDivision::ThirtySecond,
            GateDivision::ThirtySecond => GateDivision::Triplet8,
            GateDivision::Triplet8 => GateDivision::Triplet16,
            GateDivision::Triplet16 => GateDivision::Half,
        }
    }
}

/// Cycling the gating division comes back to the start after the seven
/// divisions, and never sooner.
pub proof fn lemma_division_cycle(d: GateDivision)
    ensures
        division_after_n(d, 7) == d,
        forall|n: nat| 0 < n < 7 ==> division_after_n(d, n) != d,
{
    reveal_with_fuel(division_after_n, 8);
    assert forall|n: nat| 0 < n < 7 implies division_after_n(d, n) != d by {
        reveal_with_fuel(division_after_n, 8);
    }
}

/// Shape of the gating envelope
#[derive(Debug, Clone, Copy, PartialEq, Eq, Structural)]
pub enum GateShape {
    /// Hard on/off gating
    Square,
    /// Smooth attack/release (~2ms)
    Soft,
    /// Decaying ramp during open phase
    Ramp,
}

impl Default for GateShape {
    fn default() -> (r: Self)
        ensures
            r == GateShape::Square,
    {
        GateShape::Square
    }
}

/// Ring modulator carrier waveform
#[derive(Debug, Clone, Copy, PartialEq, Eq, Structural)]
pub enum RingModWaveform {
    Sine,
    Square,
    Triangle,
}

impl Default for RingModWaveform {
    fn default() -> (r: Self)
        ensures
            r == RingModWaveform::Sine,
    {
        RingModWaveform::Sine
    }
}

/// Pitch interval of the shimmer reverb
#[derive(Debug, Clone, Copy, PartialEq, Eq, Structural)]
pub enum ShimmerPitch {
    /// +1 octave (2x speed)
    Oct1,
    /// +2 octaves (4x speed)
    Oct2,
    /// Perfect fifth (1.5x speed)
    Fifth,
    /// -1 octave (0.5x speed)
    Oct1Down,
}

impl Default for ShimmerPitch {
    fn default() -> (r: Self)
        ensures
            r == ShimmerPitch::Oct1,
    {
        ShimmerPitch::Oct1
    }
}

/// Output of the state variable filter
#[derive(Debug, Clone, Copy, PartialEq, Eq, Structural)]
pub enum SvfOutputType {
    LowPass,
    HighPass,
    BandPass,
    Notch,
}

impl Default for SvfOutputType {
    fn default() -> (r: Self)
        ensures
            r == SvfOutputType::LowPass,
    {
        SvfOutputType::LowPass
    }
}

/// Tone colour of the wash-out effect
#[derive(Debug, Clone, Copy, PartialEq, Eq, Structural)]
pub enum WashColor {
    /// Slight high boost - airy, bright wash
    Bright,
    /// Cut highs slightly - warm, smooth wash
    Warm,
    /// Heavy high cut - dark, submerged wash
    Dark,
}

impl Default for WashColor {
    fn default() -> (r: Self)
        ensures
            r == WashColor::Bright,
    {
        WashColor::Bright
    }
}


/// A deck's effect unit that can be switched on and off. The filter comes
/// as three units, one per filter mode.
#[derive(Debug, Clone, Copy, PartialEq, Eq, Structural)]
pub enum EffectUnit {
    Biquad,
    Ladder,
    Svf,
    Delay,
    Reverb,
    TapeStop,
    Flanger,
    Bitcrusher,
    Phaser,
    Gate,
    BeatRepeat,
    RingMod,
    Shimmer,
    WashOut,
    Vinyl,
    TimeStretch,
}

/// The effect controls of one deck: which units are on, the filter's mode,
/// response and preset level, the delay's and reverb's preset levels and
/// the delay's modulation. A preset level of 0 means "off".
#[derive(Debug, Clone, Copy, PartialEq, Eq, Structural)]
pub struct DeckEffects {
    pub filter_mode: FilterMode,
    pub filter_type: FilterType,
    pub biquad_on: bool,
    pub ladder_on: bool,
    pub svf_on: bool,
    pub svf_output: SvfOutputType,
    pub filter_level: u8,
    pub delay_on: bool,
    pub delay_level: u8,
    pub delay_modulation: DelayModulation,
    pub reverb_on: bool,
    pub reverb_level: u8,
    pub flanger_on: bool,
    pub phaser_on: bool,
    pub bitcrusher_on: bool,
    pub gate_on: bool,
    pub beat_repeat_on: bool,
    pub ring_mod_on: bool,
    pub shimmer_on: bool,
    pub wash_out_on: bool,
    pub tape_stop_on: bool,
    pub vinyl_on: bool,
    pub time_stretch_on: bool,
}

/// An effect command for one deck. Commands that carry a continuous value
/// (a cutoff, a resonance) name only where that value goes.
#[derive(Debug, Clone, Copy, PartialEq, Eq, Structural)]
pub enum EffectCommand {
    /// Switch the filter of the current mode on or off.
    ToggleFilter,
    /// Choose the filter response.
    SetFilterType(FilterType),
    /// Choose the filter implementation.
    SetFilterMode(FilterMode),
    /// A new filter cutoff.
    SetFilterCutoff,
    /// A new filter resonance.
    SetFilterResonance,
    /// Filter preset `level` (0 = off) with the given response.
    SetFilterPreset(FilterType, u8),
    /// Delay preset `level` (0 = off).
    SetDelayLevel(u8),
    /// Reverb preset `level` (0 = off).
    SetReverbLevel(u8),
    /// Choose the delay's tape modulation.
    SetDelayModulation(DelayModulation),
    /// Switch an effect on or off (the filter: that of the current mode).
    Toggle(EffectType),
    /// Switch vinyl emulation on or off.
    ToggleVinyl,
    /// Switch time stretching on or off.
    ToggleTimeStretch,
    /// Start a beat repeat.
    TriggerBeatRepeat,
    /// Start a tape stop.
    TriggerTapeStop,
    /// The deck was stopped.
    Stop,
}

/// What the deck's effect processors have to do after a command: the work
/// on continuous parameters that the controls leave to them.
#[derive(Debug, Clone, Copy, PartialEq, Eq, Structural)]
pub enum EffectAction {
    /// Switch this unit on (`true`) or off.
    Switch(EffectUnit, bool),
    /// Give the biquad this response, and the SVF this output when one is given.
    Response(FilterType, Option<SvfOutputType>),
    /// Carry the biquad's cutoff and resonance over to the filter of this
    /// mode (nothing to do for the biquad itself).
    SyncFilter(FilterMode),
    /// Set the biquad's cutoff, and that of the filter of this mode.
    Cutoff(FilterMode),
    /// Set the resonance of the filter of this mode.
    Resonance(FilterMode),
    /// Load filter preset `level` with this response into the biquad and
    /// switch it on.
    FilterPreset(FilterType, u8),
    /// Give the delay the time of preset `level` and switch it on.
    DelayPreset(u8),
    /// Load reverb preset `level` into the reverb, which switches it on.
    ReverbPreset(u8),
    /// Give the delay this modulation.
    Modulation(DelayModulation),
    /// Switch beat repeat on and trigger it.
    TriggerBeatRepeat,
    /// Switch tape stop on and start its stop.
    TriggerTapeStop,
    /// Stop the deck and switch its delay off.
    StopDeck,
}

/// Highest reverb preset level.
pub const MAX_REVERB_LEVEL: u8 = 5;

/// The controls of a fresh deck: biquad low-pass in front, every effect
/// off except time stretching, all preset levels 0, no delay modulation.
pub open spec fn initial_effects() -> DeckEffects {
    DeckEffects {
        filter_mode: FilterMode::Biquad,
        filter_type: FilterType::LowPass,
        biquad_on: false,
        ladder_on: false,
        svf_on: false,
        svf_output: SvfOutputType::LowPass,
        filter_level: 0,
        delay_on: false,
        delay_level: 0,
        delay_modulation: DelayModulation::Off,
        reverb_on: false,
        reverb_level: 0,
        flanger_on: false,
        phaser_on: false,
        bitcrusher_on: false,
        gate_on: false,
        beat_repeat_on: false,
        ring_mod_on: false,
        shimmer_on: false,
        wash_out_on: false,
        tape_stop_on: false,
        vinyl_on: false,
        time_stretch_on: true,
    }
}

/// Whether the unit is on.
#[verifier::opaque]
pub open spec fn unit_on(fx: DeckEffects, u: EffectUnit) -> bool {
    match u {
        EffectUnit::Biquad => fx.biquad_on,
        EffectUnit::Ladder => fx.ladder_on,
        EffectUnit::Svf => fx.svf_on,
        EffectUnit::Delay => fx.delay_on,
        EffectUnit::Reverb => fx.reverb_on,
        EffectUnit::TapeStop => fx.tape_stop_on,
        EffectUnit::Flanger => fx.flanger_on,
        EffectUnit::Bitcrusher => fx.bitcrusher_on,
        EffectUnit::Phaser => fx.phaser_on,
        EffectUnit::Gate => fx.gate_on,
        EffectUnit::BeatRepeat => fx.beat_repeat_on,
        EffectUnit::RingMod => fx.ring_mod_on,
        EffectUnit::Shimmer => fx.shimmer_on,
        EffectUnit::WashOut => fx.wash_out_on,
        EffectUnit::Vinyl => fx.vinyl_on,
        EffectUnit::TimeStretch => fx.time_stretch_on,
    }
}

/// The controls with the unit switched to `on`, all else unchanged.
#[verifier::opaque]
pub open spec fn with_unit(fx: DeckEffects, u: EffectUnit, on: bool) -> DeckEffects {
    DeckEffects {
        biquad_on: if u == EffectUnit::Biquad { on } else { fx.biquad_on },
        ladder_on: if u == EffectUnit::Ladder { on } else { fx.ladder_on },
        svf_on: if u == EffectUnit::Svf { on } else { fx.svf_on },
        delay_on: if u == EffectUnit::Delay { on } else { fx.delay_on },
        reverb_on: if u == EffectUnit::Reverb { on } else { fx.reverb_on },
        tape_stop_on: if u == EffectUnit::TapeStop { on } else { fx.tape_stop_on },
        flanger_on: if u == EffectUnit::Flanger { on } else { fx.flanger_on },
        bitcrusher_on: if u == EffectUnit::Bitcrusher { on } else { fx.bitcrusher_on },
        phaser_on: if u == EffectUnit::Phaser { on } else { fx.phaser_on },
        gate_on: if u == EffectUnit::Gate { on } else { fx.gate_on },
        beat_repeat_on: if u == EffectUnit::BeatRepeat { on } else { fx.beat_repeat_on },
        ring_mod_on: if u == EffectUnit::RingMod { on } else { fx.ring_mod_on },
        shimmer_on: if u == EffectUnit::Shimmer { on } else { fx.shimmer_on },
        wash_out_on: if u == EffectUnit::WashOut { on } else { fx.wash_out_on },
        vinyl_on: if u == EffectUnit::Vinyl { on } else { fx.vinyl_on },
        time_stretch_on: if u == EffectUnit::TimeStretch { on } else { fx.time_stretch_on },
        ..fx
    }
}

/// The filter unit of a filter mode.
pub open spec fn mode_unit(m: FilterMode) -> EffectUnit {
    match m {
        FilterMode::Biquad => EffectUnit::Biquad,
        FilterMode::Ladder => EffectUnit::Ladder,
        FilterMode::SVF => EffectUnit::Svf,
    }
}

/// The unit an effect type names on a deck in filter mode `m`.
pub open spec fn type_unit(t: EffectType, m: FilterMode) -> EffectUnit {
    match t {
        EffectType::Filter => mode_unit(m),
        EffectType::Delay => EffectUnit::Delay,
        EffectType::Reverb => EffectUnit::Reverb,
        EffectType::TapeStop => EffectUnit::TapeStop,
        EffectType::Flanger => EffectUnit::Flanger,
        EffectType::Bitcrusher => EffectUnit::Bitcrusher,
        EffectType::Phaser => EffectUnit::Phaser,
        EffectType::Gate => EffectUnit::Gate,
        EffectType::BeatRepeat => EffectUnit::BeatRepeat,
        EffectType::RingMod => EffectUnit::RingMod,
        EffectType::Shimmer => EffectUnit::Shimmer,
        EffectType::WashOut => EffectUnit::WashOut,
    }
}

/// Whether the deck's filter is on: the filter of its current mode.
pub open spec fn filter_on(fx: DeckEffects) -> bool {
    unit_on(fx, mode_unit(fx.filter_mode))
}

/// The SVF output that matches a filter response.
pub open spec fn svf_output_for(ft: FilterType) -> SvfOutputType {
    match ft {
        FilterType::LowPass => SvfOutputType::LowPass,
        FilterType::HighPass => SvfOutputType::HighPass,
        FilterType::BandPass => SvfOutputType::BandPass,
    }
}

/// The unit a command switches over, if it is a toggle.
pub open spec fn toggled_unit(fx: DeckEffects, cmd: EffectCommand) -> Option<EffectUnit> {
    match cmd {
        EffectCommand::ToggleFilter => Some(mode_unit(fx.filter_mode)),
        EffectCommand::Toggle(t) => Some(type_unit(t, fx.filter_mode)),
        EffectCommand::ToggleVinyl => Some(EffectUnit::Vinyl),
        EffectCommand::ToggleTimeStretch => Some(EffectUnit::TimeStretch),
        _ => None,
    }
}

/// The controls after a command.
pub open spec fn effects_after(fx: DeckEffects, cmd: EffectCommand) -> DeckEffects {
    match toggled_unit(fx, cmd) {
        Some(u) => with_unit(fx, u, !unit_on(fx, u)),
        None => match cmd {
            EffectCommand::SetFilterType(ft) => if fx.filter_mode == FilterMode::SVF {
                DeckEffects { filter_type: ft, svf_output: svf_output_for(ft), ..fx }
            } else {
                DeckEffects { filter_type: ft, ..fx }
            },
            EffectCommand::SetFilterMode(m) => DeckEffects { filter_mode: m, ..fx },
            EffectCommand::SetFilterPreset(ft, level) => if level == 0 {
                DeckEffects { biquad_on: false, filter_level: 0, ..fx }
            } else {
                DeckEffects { filter_type: ft, biquad_on: true, filter_level: level, ..fx }
            },
            EffectCommand::SetDelayLevel(level) => if level == 0 {
                DeckEffects { delay_on: false, delay_level: 0, ..fx }
            } else {
                DeckEffects { delay_on: true, delay_level: level, ..fx }
            },
            EffectCommand::SetReverbLevel(level) => if level == 0 {
                DeckEffects { reverb_on: false, ..fx }
            } else {
                DeckEffects {
                    reverb_on: true,
                    reverb_level: if level > MAX_REVERB_LEVEL { MAX_REVERB_LEVEL } else { level },
                    ..fx
                }
            },
            EffectCommand::SetDelayModulation(m) => DeckEffects { delay_modulation: m, ..fx },
            EffectCommand::TriggerBeatRepeat => DeckEffects { beat_repeat_on: true, ..fx },
            EffectCommand::TriggerTapeStop => DeckEffects { tape_stop_on: true, ..fx },
            EffectCommand::Stop => DeckEffects { delay_on: false, ..fx },
            _ => fx,
        },
    }
}

/// What the processors have to do after a command.
pub open spec fn effect_action(fx: DeckEffects, cmd: EffectCommand) -> EffectAction {
    match toggled_unit(fx, cmd) {
        Some(u) => EffectAction::Switch(u, !unit_on(fx, u)),
        None => match cmd {
            EffectCommand::SetFilterType(ft) => EffectAction::Response(
                ft,
                if fx.filter_mode == FilterMode::SVF { Some(svf_output_for(ft)) } else { None },
            ),
            EffectCommand::SetFilterMode(m) => EffectAction::SyncFilter(m),
            EffectCommand::SetFilterCutoff => EffectAction::Cutoff(fx.filter_mode),
            EffectCommand::SetFilterResonance => EffectAction::Resonance(fx.filter_mode),
            EffectCommand::SetFilterPreset(ft, level) => if level == 0 {
                EffectAction::Switch(EffectUnit::Biquad, false)
            } else {
                EffectAction::FilterPreset(ft, level)
            },
            EffectCommand::SetDelayLevel(level) => if level == 0 {
                EffectAction::Switch(EffectUnit::Delay, false)
            } else {
                EffectAction::DelayPreset(level)
            },
            EffectCommand::SetReverbLevel(level) => if level == 0 {
                EffectAction::Switch(EffectUnit::Reverb, false)
            } else {
                EffectAction::ReverbPreset(level)
            },
            EffectCommand::SetDelayModulation(m) => EffectAction::Modulation(m),
            EffectCommand::TriggerBeatRepeat => EffectAction::TriggerBeatRepeat,
            EffectCommand::TriggerTapeStop => EffectAction::TriggerTapeStop,
            _ => EffectAction::StopDeck,
        },
    }
}

impl DeckEffects {
    /// The controls of a fresh deck.
    pub fn new() -> (r: Self)
        ensures
            r == initial_effects(),
    {
        DeckEffects {
            filter_mode: FilterMode::Biquad,
            filter_type: FilterType::LowPass,
            biquad_on: false,
            ladder_on: false,
            svf_on: false,
            svf_output: SvfOutputType::LowPass,
            filter_level: 0,
            delay_on: false,
            delay_level: 0,
            delay_modulation: DelayModulation::Off,
            reverb_on: false,
            reverb_level: 0,
            flanger_on: false,
            phaser_on: false,
            bitcrusher_on: false,
            gate_on: false,
            beat_repeat_on: false,
            ring_mod_on: false,
            shimmer_on: false,
            wash_out_on: false,
            tape_stop_on: false,
            vinyl_on: false,
            time_stretch_on: true,
        }
    }

    /// Whether the unit is on.
    pub fn is_on(&self, u: EffectUnit) -> (r: bool)
        ensures
            r == unit_on(*self, u),
    {
        proof {
            reveal(unit_on);
        }
        match u {
            EffectUnit::Biquad => self.biquad_on,
            EffectUnit::Ladder => self.ladder_on,
            EffectUnit::Svf => self.svf_on,
            EffectUnit::Delay => self.delay_on,
            EffectUnit::Reverb => self.reverb_on,
            EffectUnit::TapeStop => self.tape_stop_on,
            EffectUnit::Flanger => self.flanger_on,
            EffectUnit::Bitcrusher => self.bitcrusher_on,
            EffectUnit::Phaser => self.phaser_on,
            EffectUnit::Gate => self.gate_on,
            EffectUnit::BeatRepeat => self.beat_repeat_on,
            EffectUnit::RingMod => self.ring_mod_on,
            EffectUnit::Shimmer => self.shimmer_on,
            EffectUnit::WashOut => self.wash_out_on,
            EffectUnit::Vinyl => self.vinyl_on,
            EffectUnit::TimeStretch => self.time_stretch_on,
        }
    }
}

/// The controls with a unit switched on or off.
fn switched(fx: DeckEffects, u: EffectUnit, on: bool) -> (r: DeckEffects)
    ensures
        r == with_unit(fx, u, on),
{
    proof {
        reveal(with_unit);
    }
    DeckEffects {
        biquad_on: if u == EffectUnit::Biquad { on } else { fx.biquad_on },
        ladder_on: if u == EffectUnit::Ladder { on } else { fx.ladder_on },
        svf_on: if u == EffectUnit::Svf { on } else { fx.svf_on },
        delay_on: if u == EffectUnit::Delay { on } else { fx.delay_on },
        reverb_on: if u == EffectUnit::Reverb { on } else { fx.reverb_on },
        tape_stop_on: if u == EffectUnit::TapeStop { on } else { fx.tape_stop_on },
        flanger_on: if u == EffectUnit::Flanger { on } else { fx.flanger_on },
        bitcrusher_on: if u == EffectUnit::Bitcrusher { on } else { fx.bitcrusher_on },
        phaser_on: if u == EffectUnit::Phaser { on } else { fx.phaser_on },
        gate_on: if u == EffectUnit::Gate { on } else { fx.gate_on },
        beat_repeat_on: if u == EffectUnit::BeatRepeat { on } else { fx.beat_repeat_on },
        ring_mod_on: if u == EffectUnit::RingMod { on } else { fx.ring_mod_on },
        shimmer_on: if u == EffectUnit::Shimmer { on } else { fx.shimmer_on },
        wash_out_on: if u == EffectUnit::WashOut { on } else { fx.wash_out_on },
        vinyl_on: if u == EffectUnit::Vinyl { on } else { fx.vinyl_on },
        time_stretch_on: if u == EffectUnit::TimeStretch { on } else { fx.time_stretch_on },
        ..fx
    }
}

/// The filter unit of a filter mode.
pub fn filter_unit(m: FilterMode) -> (r: EffectUnit)
    ensures
        r == mode_unit(m),
{
    match m {
        FilterMode::Biquad => EffectUnit::Biquad,
        FilterMode::Ladder => EffectUnit::Ladder,
        FilterMode::SVF => EffectUnit::Svf,
    }
}

/// The unit an effect type names on a deck in filter mode `m`.
pub fn effect_unit(t: EffectType, m: FilterMode) -> (r: EffectUnit)
    ensures
        r == type_unit(t, m),
{
    match t {
        EffectType::Filter => filter_unit(m),
        EffectType::Delay => EffectUnit::Delay,
        EffectType::Reverb => EffectUnit::Reverb,
        EffectType::TapeStop => EffectUnit::TapeStop,
        EffectType::Flanger => EffectUnit::Flanger,
        EffectType::Bitcrusher => EffectUnit::Bitcrusher,
        EffectType::Phaser => EffectUnit::Phaser,
        EffectType::Gate => EffectUnit::Gate,
        EffectType::BeatRepeat => EffectUnit::BeatRepeat,
        EffectType::RingMod => EffectUnit::RingMod,
        EffectType::Shimmer => EffectUnit::Shimmer,
        EffectType::WashOut => EffectUnit::WashOut,
    }
}

/// The SVF output that matches a filter response.
pub fn svf_output(ft: FilterType) -> (r: SvfOutputType)
    ensures
        r == svf_output_for(ft),
{
    match ft {
        FilterType::LowPass => SvfOutputType::LowPass,
        FilterType::HighPass => SvfOutputType::HighPass,
        FilterType::BandPass => SvfOutputType::BandPass,
    }
}

/// Whether the deck's filter is on: the filter of its current mode.
pub fn filter_enabled(fx: &DeckEffects) -> (r: bool)
    ensures
        r == match fx.filter_mode {
            FilterMode::Biquad => fx.biquad_on,
            FilterMode::Ladder => fx.ladder_on,
            FilterMode::SVF => fx.svf_on,
        },
        r == filter_on(*fx),
{
    proof {
        reveal(unit_on);
    }
    match fx.filter_mode {
        FilterMode::Biquad => fx.biquad_on,
        FilterMode::Ladder => fx.ladder_on,
        FilterMode::SVF => fx.svf_on,
    }
}

/// Apply an effect command to a deck's controls, and say what the effect
/// processors have to do.
pub fn apply_effect_command(fx: &mut DeckEffects, cmd: EffectCommand) -> (a: EffectAction)
    ensures
        *final(fx) == effects_after(*old(fx), cmd),
        a == effect_action(*old(fx), cmd),
{
    let cur = *fx;
    let (next, action) = effect_step(cur, cmd);
    *fx = next;
    action
}

/// The controls after a command, and what the processors have to do.
fn effect_step(fx: DeckEffects, cmd: EffectCommand) -> (r: (DeckEffects, EffectAction))
    ensures
        r.0 == effects_after(fx, cmd),
        r.1 == effect_action(fx, cmd),
{
    let toggled = match cmd {
        EffectCommand::ToggleFilter => Some(filter_unit(fx.filter_mode)),
        EffectCommand::Toggle(t) => Some(effect_unit(t, fx.filter_mode)),
        EffectCommand::ToggleVinyl => Some(EffectUnit::Vinyl),
        EffectCommand::ToggleTimeStretch => Some(EffectUnit::TimeStretch),
        _ => None,
    };
    if let Some(u) = toggled {
        let on = !fx.is_on(u);
        return (switched(fx, u, on), EffectAction::Switch(u, on));
    }
    match cmd {
        EffectCommand::SetFilterType(ft) => {
            if fx.filter_mode == FilterMode::SVF {
                let out = svf_output(ft);
                (DeckEffects { filter_type: ft, svf_output: out, ..fx }, EffectAction::Response(ft, Some(out)))
            } else {
                (DeckEffects { filter_type: ft, ..fx }, EffectAction::Response(ft, None))
            }
        },
        EffectCommand::SetFilterMode(m) => (DeckEffects { filter_mode: m, ..fx }, EffectAction::SyncFilter(m)),
        EffectCommand::SetFilterCutoff => (fx, EffectAction::Cutoff(fx.filter_mode)),
        EffectCommand::SetFilterResonance => (fx, EffectAction::Resonance(fx.filter_mode)),
        EffectCommand::SetFilterPreset(ft, level) => {
            if level == 0 {
                (
                    DeckEffects { biquad_on: false, filter_level: 0, ..fx },
                    EffectAction::Switch(EffectUnit::Biquad, false),
                )
            } else {
                (
                    DeckEffects { filter_type: ft, biquad_on: true, filter_level: level, ..fx },
                    EffectAction::FilterPreset(ft, level),
                )
            }
        },
        EffectCommand::SetDelayLevel(level) => {
            if level == 0 {
                (
                    DeckEffects { delay_on: false, delay_level: 0, ..fx },
                    EffectAction::Switch(EffectUnit::Delay, false),
                )
            } else {
                (DeckEffects { delay_on: true, delay_level: level, ..fx }, EffectAction::DelayPreset(level))
            }
        },
        EffectCommand::SetReverbLevel(level) => {
            if level == 0 {
                (DeckEffects { reverb_on: false, ..fx }, EffectAction::Switch(EffectUnit::Reverb, false))
            } else {
                let stored = if level > MAX_REVERB_LEVEL {
                    MAX_REVERB_LEVEL
                } else {
                    level
                };
                (
                    DeckEffects { reverb_on: true, reverb_level: stored, ..fx },
                    EffectAction::ReverbPreset(level),
                )
            }
        },
        EffectCommand::SetDelayModulation(m) => (
            DeckEffects { delay_modulation: m, ..fx },
            EffectAction::Modulation(m),
        ),
        EffectCommand::TriggerBeatRepeat => (
            DeckEffects { beat_repeat_on: true, ..fx },
            EffectAction::TriggerBeatRepeat,
        ),
        EffectCommand::TriggerTapeStop => (
            DeckEffects { tape_stop_on: true, ..fx },
            EffectAction::TriggerTapeStop,
        ),
        _ => (DeckEffects { delay_on: false, ..fx }, EffectAction::StopDeck),
    }
}

/// Switching a unit leaves it in the state asked for.
pub proof fn lemma_switch_sets_unit(fx: DeckEffects, u: EffectUnit, on: bool)
    ensures
        unit_on(with_unit(fx, u, on), u) == on,
        with_unit(fx, u, on).filter_mode == fx.filter_mode,
{
    reveal(unit_on);
    reveal(with_unit);
}

/// A toggle switches over exactly the unit it names (for the filter: the
/// filter of the current mode), and leaves the filter mode alone.
pub proof fn lemma_toggle_switches(fx: DeckEffects, cmd: EffectCommand)
    requires
        toggled_unit(fx, cmd) is Some,
    ensures
        ({
            let u = toggled_unit(fx, cmd)->0;
            &&& effects_after(fx, cmd) == with_unit(fx, u, !unit_on(fx, u))
            &&& unit_on(effects_after(fx, cmd), u) == !unit_on(fx, u)
            &&& effects_after(fx, cmd).filter_mode == fx.filter_mode
            &&& effect_action(fx, cmd) == EffectAction::Switch(u, !unit_on(fx, u))
        }),
{
    let u = toggled_unit(fx, cmd)->0;
    lemma_switch_sets_unit(fx, u, !unit_on(fx, u));
}

/// The filter toggle switches the filter of the current mode: the deck's
/// filter goes from on to off or back.
pub proof fn lemma_toggle_filter(fx: DeckEffects)
    ensures
        filter_on(effects_after(fx, EffectCommand::ToggleFilter)) == !filter_on(fx),
        filter_on(effects_after(fx, EffectCommand::Toggle(EffectType::Filter))) == !filter_on(fx),
        effect_action(fx, EffectCommand::ToggleFilter) == EffectAction::Switch(
            mode_unit(fx.filter_mode),
            !filter_on(fx),
        ),
{
    let u = mode_unit(fx.filter_mode);
    lemma_switch_sets_unit(fx, u, !unit_on(fx, u));
}

/// Each effect type names its own unit (the filter: the filter of the
/// current mode), and two different types never name the same unit.
pub proof fn lemma_type_units(m: FilterMode, t1: EffectType, t2: EffectType)
    ensures
        type_unit(EffectType::Delay, m) == EffectUnit::Delay,
        type_unit(EffectType::Reverb, m) == EffectUnit::Reverb,
        type_unit(EffectType::TapeStop, m) == EffectUnit::TapeStop,
        type_unit(EffectType::Flanger, m) == EffectUnit::Flanger,
        type_unit(EffectType::Bitcrusher, m) == EffectUnit::Bitcrusher,
        type_unit(EffectType::Phaser, m) == EffectUnit::Phaser,
        type_unit(EffectType::Gate, m) == EffectUnit::Gate,
        type_unit(EffectType::BeatRepeat, m) == EffectUnit::BeatRepeat,
        type_unit(EffectType::RingMod, m) == EffectUnit::RingMod,
        type_unit(EffectType::Shimmer, m) == EffectUnit::Shimmer,
        type_unit(EffectType::WashOut, m) == EffectUnit::WashOut,
        type_unit(EffectType::Filter, m) == mode_unit(m),
        mode_unit(m) == EffectUnit::Biquad || mode_unit(m) == EffectUnit::Ladder || mode_unit(m)
            == EffectUnit::Svf,
        type_unit(t1, m) == type_unit(t2, m) ==> t1 == t2,
{
}

/// Toggling the Delay effect flips its own switch and changes nothing else.
pub proof fn lemma_toggle_delay(fx: DeckEffects)
    ensures
        effects_after(fx, EffectCommand::Toggle(EffectType::Delay)) == (DeckEffects { delay_on: !fx.delay_on, ..fx }),
        effect_action(fx, EffectCommand::Toggle(EffectType::Delay)) == EffectAction::Switch(EffectUnit::Delay, !fx.delay_on),
{
    reveal(unit_on);
    reveal(with_unit);
}

/// Toggling the Reverb effect flips its own switch and changes nothing else.
pub proof fn lemma_toggle_reverb(fx: DeckEffects)
    ensures
        effects_after(fx, EffectCommand::Toggle(EffectType::Reverb)) == (DeckEffects { reverb_on: !fx.reverb_on, ..fx }),
        effect_action(fx, EffectCommand::Toggle(EffectType::Reverb)) == EffectAction::Switch(EffectUnit::Reverb, !fx.reverb_on),
{
    reveal(unit_on);
    reveal(with_unit);
}

/// Toggling the TapeStop effect flips its own switch and changes nothing else.
pub proof fn lemma_toggle_tape_stop(fx: DeckEffects)
    ensures
        effects_after(fx, EffectCommand::Toggle(EffectType::TapeStop)) == (DeckEffects { tape_stop_on: !fx.tape_stop_on, ..fx }),
        effect_action(fx, EffectCommand::Toggle(EffectType::TapeStop)) == EffectAction::Switch(EffectUnit::TapeStop, !fx.tape_stop_on),
{
    reveal(unit_on);
    reveal(with_unit);
}

/// Toggling the Flanger effect flips its own switch and changes nothing else.
pub proof fn lemma_toggle_flanger(fx: DeckEffects)
    ensures
        effects_after(fx, EffectCommand::Toggle(EffectType::Flanger)) == (DeckEffects { flanger_on: !fx.flanger_on, ..fx }),
        effect_action(fx, EffectCommand::Toggle(EffectType::Flanger)) == EffectAction::Switch(EffectUnit::Flanger, !fx.flanger_on),
{
    reveal(unit_on);
    reveal(with_unit);
}

/// Toggling the Bitcrusher effect flips its own switch and changes nothing else.
pub proof fn lemma_toggle_bitcrusher(fx: DeckEffects)
    ensures
        effects_after(fx, EffectCommand::Toggle(EffectType::Bitcrusher)) == (DeckEffects { bitcrusher_on: !fx.bitcrusher_on, ..fx }),
        effect_action(fx, EffectCommand::Toggle(EffectType::Bitcrusher)) == EffectAction::Switch(EffectUnit::Bitcrusher, !fx.bitcrusher_on),
{
    reveal(unit_on);
    reveal(with_unit);
}

/// Toggling the Phaser effect flips its own switch and changes nothing else.
pub proof fn lemma_toggle_phaser(fx: DeckEffects)
    ensures
        effects_after(fx, EffectCommand::Toggle(EffectType::Phaser)) == (DeckEffects { phaser_on: !fx.phaser_on, ..fx }),
        effect_action(fx, EffectCommand::Toggle(EffectType::Phaser)) == EffectAction::Switch(EffectUnit::Phaser, !fx.phaser_on),
{
    reveal(unit_on);
    reveal(with_unit);
}

/// Toggling the rhythmic gate flips its own switch and changes nothing else.
pub proof fn lemma_toggle_gate(fx: DeckEffects)
    ensures
        effects_after(fx, EffectCommand::Toggle(EffectType::Gate)) == (DeckEffects { gate_on: !fx.gate_on, ..fx }),
        effect_action(fx, EffectCommand::Toggle(EffectType::Gate)) == EffectAction::Switch(EffectUnit::Gate, !fx.gate_on),
{
    reveal(unit_on);
    reveal(with_unit);
}

/// Toggling the BeatRepeat effect flips its own switch and changes nothing else.
pub proof fn lemma_toggle_beat_repeat(fx: DeckEffects)
    ensures
        effects_after(fx, EffectCommand::Toggle(EffectType::BeatRepeat)) == (DeckEffects { beat_repeat_on: !fx.beat_repeat_on, ..fx }),
        effect_action(fx, EffectCommand::Toggle(EffectType::BeatRepeat)) == EffectAction::Switch(EffectUnit::BeatRepeat, !fx.beat_repeat_on),
{
    reveal(unit_on);
    reveal(with_unit);
}

/// Toggling the RingMod effect flips its own switch and changes nothing else.
pub proof fn lemma_toggle_ring_mod(fx: DeckEffects)
    ensures
        effects_after(fx, EffectCommand::Toggle(EffectType::RingMod)) == (DeckEffects { ring_mod_on: !fx.ring_mod_on, ..fx }),
        effect_action(fx, EffectCommand::Toggle(EffectType::RingMod)) == EffectAction::Switch(EffectUnit::RingMod, !fx.ring_mod_on),
{
    reveal(unit_on);
    reveal(with_unit);
}

/// Toggling the Shimmer effect flips its own switch and changes nothing else.
pub proof fn lemma_toggle_shimmer(fx: DeckEffects)
    ensures
        effects_after(fx, EffectCommand::Toggle(EffectType::Shimmer)) == (DeckEffects { shimmer_on: !fx.shimmer_on, ..fx }),
        effect_action(fx, EffectCommand::Toggle(EffectType::Shimmer)) == EffectAction::Switch(EffectUnit::Shimmer, !fx.shimmer_on),
{
    reveal(unit_on);
    reveal(with_unit);
}

/// Toggling the WashOut effect flips its own switch and changes nothing else.
pub proof fn lemma_toggle_wash_out(fx: DeckEffects)
    ensures
        effects_after(fx, EffectCommand::Toggle(EffectType::WashOut)) == (DeckEffects { wash_out_on: !fx.wash_out_on, ..fx }),
        effect_action(fx, EffectCommand::Toggle(EffectType::WashOut)) == EffectAction::Switch(EffectUnit::WashOut, !fx.wash_out_on),
{
    reveal(unit_on);
    reveal(with_unit);
}

/// Toggling the filter flips the switch of the current mode's filter only.
pub proof fn lemma_toggle_filter_unit(fx: DeckEffects)
    ensures
        fx.filter_mode == FilterMode::Biquad ==> effects_after(fx, EffectCommand::ToggleFilter) == (
        DeckEffects { biquad_on: !fx.biquad_on, ..fx }),
        fx.filter_mode == FilterMode::Ladder ==> effects_after(fx, EffectCommand::ToggleFilter) == (
        DeckEffects { ladder_on: !fx.ladder_on, ..fx }),
        fx.filter_mode == FilterMode::SVF ==> effects_after(fx, EffectCommand::ToggleFilter) == (
        DeckEffects { svf_on: !fx.svf_on, ..fx }),
{
    reveal(unit_on);
    reveal(with_unit);
}

/// Preset levels: level 0 switches the effect off (and, for the filter and
/// the delay, records level 0); any other level switches it on and records
/// it (the reverb's clamped to 5). Nothing else changes.
pub proof fn lemma_preset_levels(fx: DeckEffects, ft: FilterType, level: u8)
    ensures
        ({
            let f = effects_after(fx, EffectCommand::SetFilterPreset(ft, level));
            &&& f.biquad_on == (level != 0)
            &&& f.filter_level == level
            &&& level != 0 ==> f.filter_type == ft
            &&& f.filter_mode == fx.filter_mode
            &&& f.ladder_on == fx.ladder_on && f.svf_on == fx.svf_on
        }),
        ({
            let d = effects_after(fx, EffectCommand::SetDelayLevel(level));
            &&& d.delay_on == (level != 0)
            &&& d.delay_level == level
            &&& d == DeckEffects { delay_on: d.delay_on, delay_level: d.delay_level, ..fx }
        }),
        ({
            let r = effects_after(fx, EffectCommand::SetReverbLevel(level));
            &&& r.reverb_on == (level != 0)
            &&& level == 0 ==> r.reverb_level == fx.reverb_level
            &&& level != 0 ==> 1 <= r.reverb_level <= MAX_REVERB_LEVEL
            &&& 1 <= level <= MAX_REVERB_LEVEL ==> r.reverb_level == level
            &&& r == DeckEffects { reverb_on: r.reverb_on, reverb_level: r.reverb_level, ..fx }
        }),
{
}

/// In SVF mode the SVF's output follows the filter response; in the other
/// modes it stays.
pub proof fn lemma_svf_follows_type(fx: DeckEffects, ft: FilterType)
    ensures
        effects_after(fx, EffectCommand::SetFilterType(ft)).filter_type == ft,
        fx.filter_mode == FilterMode::SVF ==> effects_after(fx, EffectCommand::SetFilterType(ft)).svf_output
            == svf_output_for(ft),
        fx.filter_mode != FilterMode::SVF ==> effects_after(fx, EffectCommand::SetFilterType(ft)).svf_output
            == fx.svf_output,
{
}

/// Stopping a deck switches its delay off, and triggering a beat repeat or
/// a tape stop switches that effect on; nothing else changes.
pub proof fn lemma_stop_and_triggers(fx: DeckEffects)
    ensures
        effects_after(fx, EffectCommand::Stop) == (DeckEffects { delay_on: false, ..fx }),
        effects_after(fx, EffectCommand::TriggerBeatRepeat) == (DeckEffects { beat_repeat_on: true, ..fx }),
        effects_after(fx, EffectCommand::TriggerTapeStop) == (DeckEffects { tape_stop_on: true, ..fx }),
        effects_after(fx, EffectCommand::SetFilterCutoff) == fx,
        effects_after(fx, EffectCommand::SetFilterResonance) == fx,
{
}

/// A cutoff goes to the biquad and to the filter of the current mode, a
/// resonance to the filter of the current mode, and a new mode takes over
/// the biquad's settings; none of them switches a unit.
pub proof fn lemma_filter_routing(fx: DeckEffects, m: FilterMode)
    ensures
        effect_action(fx, EffectCommand::SetFilterCutoff) == EffectAction::Cutoff(fx.filter_mode),
        effect_action(fx, EffectCommand::SetFilterResonance) == EffectAction::Resonance(fx.filter_mode),
        effect_action(fx, EffectCommand::SetFilterMode(m)) == EffectAction::SyncFilter(m),
        effects_after(fx, EffectCommand::SetFilterMode(m)) == (DeckEffects { filter_mode: m, ..fx }),
{
}

} // verus!
