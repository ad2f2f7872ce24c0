use padlink::codec::{AxisEvent, ButtonEvent, ControllerInputData};
use padlink::virtual_controller::{button_flag, GamepadFrame, VirtualController, FLAG_A, FLAG_B};

fn attached() -> VirtualController {
    let mut c = VirtualController::new();
    c.create_controller(true);
    c
}

#[test]
fn press_then_release_clears_the_flag() {
    let mut c = attached();
    c.apply_button("A (South)", true);
    c.apply_button("A (South)", false);
    let f = c.flush().unwrap();
    assert_eq!(f.buttons & FLAG_A, 0);
}

#[test]
fn press_sets_the_flag() {
    let mut c = attached();
    c.apply_button("A (South)", true);
    c.apply_button("B (East)", true);
    let f = c.flush().unwrap();
    assert_eq!(f.buttons, FLAG_A | FLAG_B);
}

#[test]
fn unattached_reconciler_stays_idle() {
    let mut c = VirtualController::new();
    c.apply_button("A (South)", true);
    c.apply_axis("Left Stick X", 1_000_000);
    assert_eq!(c.flush(), None);
    c.apply_button("LT", true);
    assert_eq!(c.flush(), None);
    assert!(!c.is_connected());
    assert_eq!(c.frame(), GamepadFrame::neutral());
}

#[test]
fn flushing_twice_gives_the_same_frame() {
    let mut c = attached();
    c.apply_axis("Right Stick Y", -500_000);
    c.apply_button("Start", true);
    let first = c.flush();
    c.record_push(false);
    assert!(c.last_push_failed());
    let second = c.flush();
    assert_eq!(first, second);
    assert!(first.is_some());
    c.record_push(true);
    assert_eq!(c.flush(), first);
    assert!(!c.last_push_failed());
}

#[test]
fn sticks_are_independent_components() {
    let mut c = attached();
    c.apply_axis("Left Stick X", 1_000_000);
    c.apply_axis("Left Stick Y", -1_000_000);
    let f = c.flush().unwrap();
    assert_eq!(f.thumb_lx, 32767);
    assert_eq!(f.thumb_ly, -32767);
    assert_eq!(f.thumb_rx, 0);
}

#[test]
fn digital_trigger_goes_full_then_analog_overrides() {
    let mut c = attached();
    c.apply_button("LT", true);
    assert_eq!(c.frame().left_trigger, 255);
    c.apply_axis("LT Axis", 500_000);
    assert_eq!(c.frame().left_trigger, 128);
    c.apply_button("RT [ID: 7] - Fire", true);
    assert_eq!(c.frame().right_trigger, 255);
    c.apply_button("RT", false);
    assert_eq!(c.frame().right_trigger, 0);
    // Triggers never touch the button flags.
    assert_eq!(c.frame().buttons, 0);
}

#[test]
fn trigger_axis_clamps() {
    let mut c = attached();
    c.apply_axis("RT Axis", 1_500_000);
    assert_eq!(c.frame().right_trigger, 255);
}

#[test]
fn unknown_names_are_ignored() {
    let mut c = attached();
    c.apply_button("Paddle 4", true);
    c.apply_axis("D-Pad X", 1_000_000);
    assert_eq!(c.frame(), GamepadFrame::neutral());
}

#[test]
fn flags_match_the_pad() {
    assert_eq!(button_flag("A (South)"), Some(0x1000));
    assert_eq!(button_flag("Y (North)"), Some(0x8000));
    assert_eq!(button_flag("Select"), Some(0x0020));
    assert_eq!(button_flag("LSB"), Some(0x0040));
    assert_eq!(button_flag("D-Pad Right"), Some(0x0008));
    assert_eq!(button_flag("LT"), None);
}

#[test]
fn batch_is_applied_buttons_then_axes() {
    let mut c = attached();
    let batch = ControllerInputData {
        timestamp: 10,
        controller_id: 1,
        button_events: vec![
            ButtonEvent { button: "X (West)".to_string(), pressed: true, timestamp: 10 },
            ButtonEvent { button: "LT".to_string(), pressed: true, timestamp: 10 },
        ],
        axis_events: vec![AxisEvent { axis: "LT Axis".to_string(), value: 0, timestamp: 10 }],
    };
    let pushed = c.process_controller_input(&batch).unwrap();
    assert_eq!(pushed.buttons, 0x4000);
    assert_eq!(pushed.left_trigger, 0);
}

#[test]
fn batch_without_device_is_dropped() {
    let mut c = VirtualController::new();
    let batch = ControllerInputData {
        timestamp: 10,
        controller_id: 1,
        button_events: vec![ButtonEvent { button: "A (South)".to_string(), pressed: true, timestamp: 10 }],
        axis_events: vec![],
    };
    assert_eq!(c.process_controller_input(&batch), None);
    assert_eq!(c.frame(), GamepadFrame::neutral());
}

#[test]
fn disconnect_keeps_the_last_frame() {
    let mut c = attached();
    c.apply_button("Guide", true);
    assert!(c.disconnect_controller());
    assert!(!c.is_connected());
    assert_eq!(c.frame().buttons, 0x0400);
    assert!(!c.disconnect_controller());
    c.create_controller(false);
    assert!(!c.is_connected());
}

#[test]
fn latest_values_are_kept_per_name() {
    let mut c = attached();
    c.apply_button("A (South)", true);
    c.apply_button("Start", true);
    c.apply_button("A (South)", false);
    c.apply_axis("Left Stick X", 250_000);
    c.apply_axis("Left Stick X", -250_000);
    let buttons = c.get_button_states();
    assert_eq!(buttons.len(), 2);
    assert_eq!(buttons[0], ("A (South)".to_string(), false));
    assert_eq!(buttons[1], ("Start".to_string(), true));
    assert_eq!(c.get_axis_states(), &vec![("Left Stick X".to_string(), -250_000)]);
}

#[test]
fn nothing_is_kept_without_a_device() {
    let mut c = VirtualController::new();
    c.apply_button("A (South)", true);
    c.apply_axis("Left Stick X", 250_000);
    assert!(c.get_button_states().is_empty());
    assert!(c.get_axis_states().is_empty());
}
