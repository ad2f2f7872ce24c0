use padlink::scaling::{scale_stick, scale_trigger, trigger_pressed, AXIS_FULL};

#[test]
fn stick_full_deflection_is_max() {
    assert_eq!(scale_stick(AXIS_FULL), 32767);
}

#[test]
fn stick_full_negative_is_negated_max() {
    assert_eq!(scale_stick(-AXIS_FULL), -32767);
}

#[test]
fn stick_centre_is_zero() {
    assert_eq!(scale_stick(0), 0);
}

#[test]
fn stick_half_rounds_away_from_zero() {
    // 0.5 * 32767 = 16383.5
    assert_eq!(scale_stick(500_000), 16384);
    assert_eq!(scale_stick(-500_000), -16384);
}

#[test]
fn stick_out_of_range_saturates() {
    assert_eq!(scale_stick(2 * AXIS_FULL), i16::MAX);
    assert_eq!(scale_stick(-2 * AXIS_FULL), i16::MIN);
}

#[test]
fn trigger_full_is_255() {
    assert_eq!(scale_trigger(AXIS_FULL), 255);
}

#[test]
fn trigger_zero_is_zero() {
    assert_eq!(scale_trigger(0), 0);
}

#[test]
fn trigger_out_of_range_clamps() {
    assert_eq!(scale_trigger(1_500_000), 255);
    assert_eq!(scale_trigger(-300_000), 0);
}

#[test]
fn trigger_half_rounds() {
    // 0.5 * 255 = 127.5
    assert_eq!(scale_trigger(500_000), 128);
    // 0.25 * 255 = 63.75
    assert_eq!(scale_trigger(250_000), 64);
}

#[test]
fn press_threshold_is_strict() {
    assert!(!trigger_pressed(100_000));
    assert!(trigger_pressed(100_001));
    assert!(!trigger_pressed(0));
    assert!(!trigger_pressed(-AXIS_FULL));
}
