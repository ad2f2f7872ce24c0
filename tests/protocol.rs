use padlink::normalizer::{RawAxis, RawButton, RawEvent};
use padlink::protocol::{reply_to, ControllerInfo, ControllerState, InputChange, Message, VirtualControllerManager};

#[test]
fn manager_starts_unconnected() {
    let m = VirtualControllerManager::new();
    assert!(!m.is_connected());
}

#[test]
fn button_mask_uses_pad_flags() {
    let m = VirtualControllerManager::new();
    let mut s = ControllerState::idle();
    assert_eq!(m.build_button_mask(&s), 0);
    s.button_a = true;
    s.dpad_up = true;
    s.button_guide = true;
    s.button_r3 = true;
    assert_eq!(m.build_button_mask(&s), 0x1000 | 0x0001 | 0x0400 | 0x0080);
}

#[test]
fn state_becomes_a_frame() {
    let m = VirtualControllerManager::new();
    let mut s = ControllerState::idle();
    s.left_stick_x = 1_000_000;
    s.right_stick_y = -1_000_000;
    s.left_trigger = 1_000_000;
    s.button_y = true;
    let f = m.update_virtual_controller(&s);
    assert_eq!(f.thumb_lx, 32767);
    assert_eq!(f.thumb_ry, -32767);
    assert_eq!(f.left_trigger, 255);
    assert_eq!(f.right_trigger, 0);
    assert_eq!(f.buttons, 0x8000);
}

#[test]
fn raw_events_fold_into_the_state() {
    let mut s = ControllerState::idle();
    s.apply_event(RawEvent::ButtonPressed(RawButton::West), 5);
    assert!(s.button_x);
    assert_eq!(s.timestamp, 5);
    s.apply_event(RawEvent::ButtonReleased(RawButton::West), 6);
    assert!(!s.button_x);
    s.apply_event(RawEvent::AxisChanged(RawAxis::RightStickX, -400_000), 7);
    assert_eq!(s.right_stick_x, -400_000);
    // Trigger axes run over [-1, 1] and are stored over [0, 1].
    s.apply_event(RawEvent::AxisChanged(RawAxis::LeftZ, -1_000_000), 8);
    assert_eq!(s.left_trigger, 0);
    s.apply_event(RawEvent::AxisChanged(RawAxis::RightZ, 0), 9);
    assert_eq!(s.right_trigger, 500_000);
    s.apply_event(RawEvent::Connected, 10);
    assert_eq!(s.timestamp, 9);
}

#[test]
fn changes_list_buttons_then_moved_axes() {
    let m = VirtualControllerManager::new();
    let old = ControllerState::idle();
    let mut new = ControllerState::idle();
    new.button_b = true;
    new.dpad_down = true;
    new.left_stick_x = 100_000; // moved by exactly 0.1: not reported
    new.right_trigger = 250_000;
    let changes = m.log_input_changes(&old, &new);
    assert_eq!(changes.len(), 3);
    match &changes[0] {
        InputChange::Button { label, pressed } => {
            assert_eq!(label, "Button B");
            assert!(*pressed);
        }
        _ => panic!("expected a button change"),
    }
    match &changes[1] {
        InputChange::Button { label, .. } => assert_eq!(label, "D-Pad Down"),
        _ => panic!("expected a button change"),
    }
    match &changes[2] {
        InputChange::Analog { label, value } => {
            assert_eq!(label, "Right Trigger");
            assert_eq!(*value, 250_000);
        }
        _ => panic!("expected an analog change"),
    }
    assert!(m.log_input_changes(&new, &new).is_empty());
}

#[test]
fn ping_is_answered_with_pong() {
    assert!(matches!(reply_to(&Message::Ping), Some(Message::Pong)));
    assert!(reply_to(&Message::Pong).is_none());
    let info = ControllerInfo {
        name: "Steam Deck".to_string(),
        uuid: "0000000000000001".to_string(),
        vendor_id: 0x28de,
        product_id: 0x1205,
        connected: true,
    };
    assert!(reply_to(&Message::ControllerList(vec![info])).is_none());
    assert!(reply_to(&Message::ControllerState(ControllerState::idle())).is_none());
}
