use ole::effects::{GateDivision, RingModWaveform, WashColor};

#[test]
fn test_gate_division_cycle() {
    let div = GateDivision::Half;
    let div = div.next(); // Quarter
    assert_eq!(div, GateDivision::Quarter);
    let div = div.next(); // Eighth
    assert_eq!(div, GateDivision::Eighth);
    let div = div.next(); // Sixteenth
    assert_eq!(div, GateDivision::Sixteenth);
    let div = div.next(); // ThirtySecond
    assert_eq!(div, GateDivision::ThirtySecond);
    let div = div.next(); // Triplet8
    assert_eq!(div, GateDivision::Triplet8);
    let div = div.next(); // Triplet16
    assert_eq!(div, GateDivision::Triplet16);
    let div = div.next(); // wraps to Half
    assert_eq!(div, GateDivision::Half);
}

#[test]
fn test_ringmod_waveform_default() {
    assert_eq!(RingModWaveform::default(), RingModWaveform::Sine);
}

#[test]
fn test_washout_default_color() {
    assert_eq!(WashColor::default(), WashColor::Bright);
}
