use padlink::normalizer::{
    axis_to_string, button_to_string, normalize_axis, normalize_button, normalize_event,
    NamedEvent, RawAxis, RawButton, RawEvent,
};

fn button(e: &NamedEvent) -> (String, bool) {
    match e {
        NamedEvent::Button { name, pressed } => (name.clone(), *pressed),
        NamedEvent::Axis { .. } => panic!("expected a button event"),
    }
}

fn axis(e: &NamedEvent) -> (String, i32) {
    match e {
        NamedEvent::Axis { name, value } => (name.clone(), *value),
        NamedEvent::Button { .. } => panic!("expected an axis event"),
    }
}

#[test]
fn buttons_have_stable_names() {
    assert_eq!(normalize_button(RawButton::South).as_deref(), Some("A (South)"));
    assert_eq!(normalize_button(RawButton::West).as_deref(), Some("X (West)"));
    assert_eq!(normalize_button(RawButton::LeftTrigger).as_deref(), Some("LB"));
    assert_eq!(normalize_button(RawButton::RightTrigger2).as_deref(), Some("RT"));
    assert_eq!(normalize_button(RawButton::Mode).as_deref(), Some("Guide"));
    assert_eq!(normalize_button(RawButton::DPadLeft).as_deref(), Some("D-Pad Left"));
}

#[test]
fn unknown_controls_have_no_name() {
    assert_eq!(normalize_button(RawButton::C), None);
    assert_eq!(normalize_button(RawButton::Unknown), None);
    assert_eq!(normalize_axis(RawAxis::Unknown), None);
}

#[test]
fn axes_have_stable_names() {
    assert_eq!(normalize_axis(RawAxis::LeftStickX).as_deref(), Some("Left Stick X"));
    assert_eq!(normalize_axis(RawAxis::LeftZ).as_deref(), Some("LT Axis"));
    assert_eq!(normalize_axis(RawAxis::RightZ).as_deref(), Some("RT Axis"));
    assert_eq!(normalize_axis(RawAxis::DPadY).as_deref(), Some("D-Pad Y"));
}

#[test]
fn display_names_fall_back_to_the_raw_control() {
    assert_eq!(button_to_string(RawButton::North), "Y (North)");
    assert_eq!(button_to_string(RawButton::Z), "Z");
    assert_eq!(button_to_string(RawButton::Unknown), "Unknown");
    assert_eq!(axis_to_string(RawAxis::RightStickY), "Right Stick Y");
    assert_eq!(axis_to_string(RawAxis::Unknown), "Unknown");
}

#[test]
fn button_events_are_named() {
    let out = normalize_event(RawEvent::ButtonPressed(RawButton::South));
    assert_eq!(out.len(), 1);
    assert_eq!(button(&out[0]), ("A (South)".to_string(), true));
    let out = normalize_event(RawEvent::ButtonReleased(RawButton::Start));
    assert_eq!(button(&out[0]), ("Start".to_string(), false));
}

#[test]
fn unnamed_and_connection_events_yield_nothing() {
    assert!(normalize_event(RawEvent::ButtonPressed(RawButton::C)).is_empty());
    assert!(normalize_event(RawEvent::AxisChanged(RawAxis::Unknown, 5)).is_empty());
    assert!(normalize_event(RawEvent::Connected).is_empty());
    assert!(normalize_event(RawEvent::Disconnected).is_empty());
}

#[test]
fn trigger_axis_at_threshold_is_released() {
    let out = normalize_event(RawEvent::AxisChanged(RawAxis::LeftZ, 100_000));
    assert_eq!(out.len(), 2);
    assert_eq!(button(&out[0]), ("LT".to_string(), false));
    assert_eq!(axis(&out[1]), ("LT Axis".to_string(), 100_000));
}

#[test]
fn trigger_axis_above_threshold_is_pressed() {
    let out = normalize_event(RawEvent::AxisChanged(RawAxis::RightZ, 100_001));
    assert_eq!(out.len(), 2);
    assert_eq!(button(&out[0]), ("RT".to_string(), true));
    assert_eq!(axis(&out[1]), ("RT Axis".to_string(), 100_001));
    let out = normalize_event(RawEvent::AxisChanged(RawAxis::RightZ, 0));
    assert_eq!(button(&out[0]), ("RT".to_string(), false));
}

#[test]
fn stick_axis_yields_only_the_reading() {
    let out = normalize_event(RawEvent::AxisChanged(RawAxis::LeftStickY, -250_000));
    assert_eq!(out.len(), 1);
    assert_eq!(axis(&out[0]), ("Left Stick Y".to_string(), -250_000));
}
