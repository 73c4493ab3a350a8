use ole::effects::{
    DelayInterpolation, DelayModulation, FilterMode, FilterType, GateDivision, GateShape,
    ShimmerPitch, SvfOutputType,
};
use ole::mastering::{MasteringPreset, SaturationMode};
use ole::mixer::CrossfaderCurve;
use ole::phrase::PhraseType;
use ole::timestretch::PhaseLockMode;
use ole::vinyl::{SaturationType, VinylPreset};
use ole::waveform::FrequencyBand;

#[test]
fn phrase_labels() {
    assert_eq!(PhraseType::Intro.label(), "IN");
    assert_eq!(PhraseType::Build.label(), "BLD");
    assert_eq!(PhraseType::Drop.label(), "DRP");
    assert_eq!(PhraseType::Break.label(), "BRK");
    assert_eq!(PhraseType::Outro.label(), "OUT");
}

#[test]
fn mastering_presets_cycle() {
    let mut p = MasteringPreset::default();
    assert_eq!(p, MasteringPreset::Clean);
    let mut names = Vec::new();
    for _ in 0..5 {
        names.push(p.display_name());
        p = p.next();
    }
    assert_eq!(p, MasteringPreset::Clean);
    assert_eq!(names, vec!["CLEAN", "TECHNO", "HOUSE", "D&B", "OFF"]);
}

#[test]
fn saturation_names() {
    assert_eq!(SaturationMode::default().display_name(), "TAPE");
    assert_eq!(SaturationMode::Tube.display_name(), "TUBE");
    assert_eq!(SaturationMode::Transistor.display_name(), "TRANS");
}

#[test]
fn gate_division_cycle_has_seven_steps() {
    let start = GateDivision::default();
    assert_eq!(start, GateDivision::Eighth);
    let mut d = start.next();
    let mut steps = 1;
    while d != start {
        d = d.next();
        steps += 1;
    }
    assert_eq!(steps, 7);
}

#[test]
fn defaults() {
    assert_eq!(FrequencyBand::default(), FrequencyBand::Mid);
    assert_eq!(CrossfaderCurve::default(), CrossfaderCurve::Linear);
    assert_eq!(VinylPreset::default(), VinylPreset::Warm);
    assert_eq!(SaturationType::default(), SaturationType::Tube);
    assert_eq!(PhaseLockMode::default(), PhaseLockMode::PeakLocked);
    assert_eq!(FilterMode::default(), FilterMode::Biquad);
    assert_eq!(FilterType::default(), FilterType::LowPass);
    assert_eq!(DelayInterpolation::default(), DelayInterpolation::Lagrange);
    assert_eq!(DelayModulation::default(), DelayModulation::Off);
    assert_eq!(GateShape::default(), GateShape::Square);
    assert_eq!(ShimmerPitch::default(), ShimmerPitch::Oct1);
    assert_eq!(SvfOutputType::default(), SvfOutputType::LowPass);
}
