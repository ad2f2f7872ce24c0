use padlink::normalizer::{RawAxis, RawButton};
use padlink::steam_input::SteamInputManager;

fn digital(m: &SteamInputManager, name: &str) -> Option<bool> {
    m.get_digital_actions().iter().find(|(n, _)| n == name).map(|(_, v)| *v)
}

fn analog(m: &SteamInputManager, name: &str) -> Option<(i32, i32)> {
    m.get_analog_actions().iter().find(|(n, _)| n == name).map(|(_, v)| *v)
}

#[test]
fn starts_with_every_action_at_rest() {
    let m = SteamInputManager::new();
    assert!(m.is_initialized());
    assert_eq!(m.get_digital_actions().len(), 16);
    assert!(m.get_digital_actions().iter().all(|(_, v)| !*v));
    assert_eq!(m.get_analog_actions().len(), 4);
    assert_eq!(analog(&m, "Left Stick - Move"), Some((0, 0)));
    assert_eq!(m.get_controller_count(), 0);
}

#[test]
fn buttons_drive_their_actions() {
    let mut m = SteamInputManager::new();
    m.update_from_controller_input(7, Some((RawButton::South, true)), None);
    assert_eq!(digital(&m, "A (South) [ID: 0] - Jump"), Some(true));
    m.update_from_controller_input(7, Some((RawButton::Mode, true)), None);
    assert_eq!(m.get_digital_actions().len(), 16);
    assert_eq!(m.get_controller_count(), 1);
    m.update_from_controller_input(8, None, None);
    assert_eq!(m.controller_ids(), &vec![7, 8]);
}

#[test]
fn stick_components_are_kept_apart_and_y_is_turned() {
    let mut m = SteamInputManager::new();
    m.update_from_controller_input(1, None, Some((RawAxis::LeftStickX, 300_000)));
    m.update_from_controller_input(1, None, Some((RawAxis::LeftStickY, 400_000)));
    assert_eq!(analog(&m, "Left Stick - Move"), Some((300_000, -400_000)));
}

#[test]
fn trigger_axis_sets_its_button_action() {
    let mut m = SteamInputManager::new();
    m.update_from_controller_input(1, None, Some((RawAxis::LeftZ, 600_000)));
    assert_eq!(analog(&m, "Left Trigger - Aim"), Some((600_000, 0)));
    assert_eq!(digital(&m, "LT [ID: 6] - Aim"), Some(true));
    m.update_from_controller_input(1, None, Some((RawAxis::LeftZ, 100_000)));
    assert_eq!(digital(&m, "LT [ID: 6] - Aim"), Some(false));
    m.update_from_controller_input(1, None, Some((RawAxis::RightZ, 100_001)));
    assert_eq!(digital(&m, "RT [ID: 7] - Fire"), Some(true));
}

#[test]
fn removing_the_last_controller_resets_actions() {
    let mut m = SteamInputManager::new();
    m.update_from_controller_input(1, Some((RawButton::East, true)), Some((RawAxis::RightStickX, 500_000)));
    m.update_from_controller_input(2, Some((RawButton::West, true)), None);
    m.remove_controller(1);
    assert_eq!(m.get_controller_count(), 1);
    assert_eq!(digital(&m, "B (East) [ID: 1] - Fire"), Some(true));
    m.remove_controller(2);
    assert_eq!(m.get_controller_count(), 0);
    assert!(m.get_digital_actions().iter().all(|(_, v)| !*v));
    assert_eq!(analog(&m, "Right Stick - Look"), Some((0, 0)));
}

#[test]
fn shut_down_table_ignores_input() {
    let mut m = SteamInputManager::new();
    m.shutdown();
    m.update_from_controller_input(1, Some((RawButton::South, true)), None);
    assert_eq!(digital(&m, "A (South) [ID: 0] - Jump"), Some(false));
    assert_eq!(m.get_controller_count(), 0);
}

#[test]
fn bindings_are_looked_up() {
    let m = SteamInputManager::new();
    assert_eq!(m.get_action_for_button(RawButton::RightTrigger2).as_deref(), Some("RT [ID: 7] - Fire"));
    assert_eq!(m.get_action_for_button(RawButton::Mode), None);
    assert_eq!(m.get_action_for_axis(RawAxis::RightStickY).as_deref(), Some("Right Stick - Look"));
    assert_eq!(m.get_action_for_axis(RawAxis::DPadX), None);
}
