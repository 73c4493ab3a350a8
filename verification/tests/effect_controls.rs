use ole::effects::{
    apply_effect_command, filter_enabled, DeckEffects, DelayModulation, EffectAction,
    EffectCommand, EffectType, EffectUnit, FilterMode, FilterType, SvfOutputType,
};
use ole::mastering::{preset_stages, MasteringPreset, MasteringStages};

#[test]
fn fresh_deck_has_everything_off_but_time_stretch() {
    let fx = DeckEffects::new();
    assert_eq!(fx.filter_mode, FilterMode::Biquad);
    assert_eq!(fx.filter_type, FilterType::LowPass);
    assert!(!filter_enabled(&fx));
    assert_eq!((fx.filter_level, fx.delay_level, fx.reverb_level), (0, 0, 0));
    assert!(!fx.is_on(EffectUnit::Delay));
    assert!(fx.is_on(EffectUnit::TimeStretch));
    assert_eq!(fx.delay_modulation, DelayModulation::Off);
}

#[test]
fn preset_level_zero_turns_off() {
    let mut fx = DeckEffects::new();
    let a = apply_effect_command(&mut fx, EffectCommand::SetDelayLevel(3));
    assert_eq!(a, EffectAction::DelayPreset(3));
    assert!(fx.delay_on);
    assert_eq!(fx.delay_level, 3);
    let a = apply_effect_command(&mut fx, EffectCommand::SetDelayLevel(0));
    assert_eq!(a, EffectAction::Switch(EffectUnit::Delay, false));
    assert!(!fx.delay_on);
    assert_eq!(fx.delay_level, 0);

    let a = apply_effect_command(&mut fx, EffectCommand::SetFilterPreset(FilterType::HighPass, 7));
    assert_eq!(a, EffectAction::FilterPreset(FilterType::HighPass, 7));
    assert!(fx.biquad_on);
    assert_eq!((fx.filter_type, fx.filter_level), (FilterType::HighPass, 7));
    let a = apply_effect_command(&mut fx, EffectCommand::SetFilterPreset(FilterType::BandPass, 0));
    assert_eq!(a, EffectAction::Switch(EffectUnit::Biquad, false));
    assert!(!fx.biquad_on);
    assert_eq!((fx.filter_type, fx.filter_level), (FilterType::HighPass, 0));
}

#[test]
fn reverb_level_is_clamped_and_kept_when_off() {
    let mut fx = DeckEffects::new();
    assert_eq!(apply_effect_command(&mut fx, EffectCommand::SetReverbLevel(9)), EffectAction::ReverbPreset(9));
    assert!(fx.reverb_on);
    assert_eq!(fx.reverb_level, 5);
    apply_effect_command(&mut fx, EffectCommand::SetReverbLevel(2));
    assert_eq!(fx.reverb_level, 2);
    apply_effect_command(&mut fx, EffectCommand::SetReverbLevel(0));
    assert!(!fx.reverb_on);
    assert_eq!(fx.reverb_level, 2);
}

#[test]
fn filter_toggle_follows_the_mode() {
    let mut fx = DeckEffects::new();
    apply_effect_command(&mut fx, EffectCommand::SetFilterMode(FilterMode::Ladder));
    let a = apply_effect_command(&mut fx, EffectCommand::ToggleFilter);
    assert_eq!(a, EffectAction::Switch(EffectUnit::Ladder, true));
    assert!(fx.ladder_on && !fx.biquad_on && !fx.svf_on);
    assert!(filter_enabled(&fx));
    assert_eq!(
        apply_effect_command(&mut fx, EffectCommand::SetFilterCutoff),
        EffectAction::Cutoff(FilterMode::Ladder)
    );
    apply_effect_command(&mut fx, EffectCommand::SetFilterMode(FilterMode::Biquad));
    assert!(!filter_enabled(&fx));
    apply_effect_command(&mut fx, EffectCommand::Toggle(EffectType::Filter));
    assert!(fx.biquad_on && fx.ladder_on);
}

#[test]
fn svf_output_follows_type_only_in_svf_mode() {
    let mut fx = DeckEffects::new();
    let a = apply_effect_command(&mut fx, EffectCommand::SetFilterType(FilterType::HighPass));
    assert_eq!(a, EffectAction::Response(FilterType::HighPass, None));
    assert_eq!(fx.svf_output, SvfOutputType::LowPass);
    apply_effect_command(&mut fx, EffectCommand::SetFilterMode(FilterMode::SVF));
    let a = apply_effect_command(&mut fx, EffectCommand::SetFilterType(FilterType::BandPass));
    assert_eq!(a, EffectAction::Response(FilterType::BandPass, Some(SvfOutputType::BandPass)));
    assert_eq!(fx.svf_output, SvfOutputType::BandPass);
    assert_eq!(fx.filter_type, FilterType::BandPass);
}

#[test]
fn stop_and_triggers() {
    let mut fx = DeckEffects::new();
    apply_effect_command(&mut fx, EffectCommand::SetDelayLevel(2));
    let before = fx;
    assert_eq!(apply_effect_command(&mut fx, EffectCommand::Stop), EffectAction::StopDeck);
    assert_eq!(fx, DeckEffects { delay_on: false, ..before });
    assert_eq!(fx.delay_level, 2);
    apply_effect_command(&mut fx, EffectCommand::TriggerBeatRepeat);
    apply_effect_command(&mut fx, EffectCommand::TriggerTapeStop);
    assert!(fx.beat_repeat_on && fx.tape_stop_on);
    // Triggering again keeps them on.
    apply_effect_command(&mut fx, EffectCommand::TriggerTapeStop);
    assert!(fx.tape_stop_on);
}

#[test]
fn toggles_switch_one_unit_and_undo() {
    let mut fx = DeckEffects::new();
    let start = fx;
    for t in [EffectType::Delay, EffectType::Reverb, EffectType::Flanger, EffectType::WashOut] {
        apply_effect_command(&mut fx, EffectCommand::Toggle(t));
    }
    assert!(fx.delay_on && fx.reverb_on && fx.flanger_on && fx.wash_out_on);
    assert!(!fx.phaser_on);
    for t in [EffectType::Delay, EffectType::Reverb, EffectType::Flanger, EffectType::WashOut] {
        apply_effect_command(&mut fx, EffectCommand::Toggle(t));
    }
    assert_eq!(fx, start);
    assert_eq!(
        apply_effect_command(&mut fx, EffectCommand::ToggleTimeStretch),
        EffectAction::Switch(EffectUnit::TimeStretch, false)
    );
    assert_eq!(
        apply_effect_command(&mut fx, EffectCommand::SetDelayModulation(DelayModulation::Heavy)),
        EffectAction::Modulation(DelayModulation::Heavy)
    );
    assert_eq!(fx.delay_modulation, DelayModulation::Heavy);
}

#[test]
fn mastering_presets_switch_stages() {
    let none = MasteringStages { eq: false, compressor: false, saturation: false, stereo: false };
    let all = MasteringStages { eq: true, compressor: true, saturation: true, stereo: true };
    assert_eq!(preset_stages(MasteringPreset::Off), none);
    assert_eq!(preset_stages(MasteringPreset::Clean), MasteringStages { saturation: false, ..all });
    assert_eq!(preset_stages(MasteringPreset::Techno), all);
    assert_eq!(preset_stages(MasteringPreset::House), all);
    assert_eq!(preset_stages(MasteringPreset::DnB), all);
}
