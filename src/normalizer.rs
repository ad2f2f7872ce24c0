//! Raw controller input and its stable event names.
//!
//! The capture side sees buttons and axes under the ids of its gamepad
//! library; everything past it speaks of named events. The two analog
//! trigger axes also yield a digital event, so that the trigger is seen as
//! a button with the same reading.
use vstd::prelude::*;
use crate::scaling::{is_pressed_level, trigger_pressed, TRIGGER_PRESS_LEVEL};

verus! {

/// A physical button as the gamepad library reports it.
#[derive(Clone, Copy, Debug, PartialEq, Eq, Structural)]
pub enum RawButton {
    South,
    East,
    North,
    West,
    C,
    Z,
    LeftTrigger,
    LeftTrigger2,
    RightTrigger,
    RightTrigger2,
    Select,
    Start,
    Mode,
    LeftThumb,
    RightThumb,
    DPadUp,
    DPadDown,
    DPadLeft,
    DPadRight,
    Unknown,
}

/// A physical axis as the gamepad library reports it.
#[derive(Clone, Copy, Debug, PartialEq, Eq, Structural)]
pub enum RawAxis {
    LeftStickX,
    LeftStickY,
    LeftZ,
    RightStickX,
    RightStickY,
    RightZ,
    DPadX,
    DPadY,
    Unknown,
}

/// One event of the capture side; axis readings are in millionths.
#[derive(Clone, Copy, Debug, PartialEq, Eq, Structural)]
pub enum RawEvent {
    Connected,
    Disconnected,
    ButtonPressed(RawButton),
    ButtonReleased(RawButton),
    AxisChanged(RawAxis, i32),
}

/// A named event: a button change, or an axis reading in millionths.
#[derive(Clone, Debug)]
pub enum NamedEvent {
    Button { name: String, pressed: bool },
    Axis { name: String, value: i32 },
}

/// What a named event stands for, with its name as characters.
pub enum NamedEventView {
    Button { name: Seq<char>, pressed: bool },
    Axis { name: Seq<char>, value: int },
}

impl View for NamedEvent {
    type V = NamedEventView;

    open spec fn view(&self) -> NamedEventView {
        match self {
            NamedEvent::Button { name, pressed } => NamedEventView::Button {
                name: name@,
                pressed: *pressed,
            },
            NamedEvent::Axis { name, value } => NamedEventView::Axis {
                name: name@,
                value: *value as int,
            },
        }
    }
}

/// The characters of an optional name.
pub open spec fn name_view(o: Option<String>) -> Option<Seq<char>> {
    match o {
        Some(s) => Some(s@),
        None => None,
    }
}

/// The stable name of a button, or none for a control the virtual pad lacks.
pub open spec fn button_semantic(b: RawButton) -> Option<Seq<char>> {
    match b {
        RawButton::South => Some("A (South)"@),
        RawButton::East => Some("B (East)"@),
        RawButton::North => Some("Y (North)"@),
        RawButton::West => Some("X (West)"@),
        RawButton::LeftTrigger => Some("LB"@),
        RawButton::RightTrigger => Some("RB"@),
        RawButton::LeftTrigger2 => Some("LT"@),
        RawButton::RightTrigger2 => Some("RT"@),
        RawButton::Select => Some("Select"@),
        RawButton::Start => Some("Start"@),
        RawButton::Mode => Some("Guide"@),
        RawButton::LeftThumb => Some("LSB"@),
        RawButton::RightThumb => Some("RSB"@),
        RawButton::DPadUp => Some("D-Pad Up"@),
        RawButton::DPadDown => Some("D-Pad Down"@),
        RawButton::DPadLeft => Some("D-Pad Left"@),
        RawButton::DPadRight => Some("D-Pad Right"@),
        RawButton::C | RawButton::Z | RawButton::Unknown => None,
    }
}

/// The stable name of an axis, or none for an unknown axis.
pub open spec fn axis_semantic(a: RawAxis) -> Option<Seq<char>> {
    match a {
        RawAxis::LeftStickX => Some("Left Stick X"@),
        RawAxis::LeftStickY => Some("Left Stick Y"@),
        RawAxis::LeftZ => Some("LT Axis"@),
        RawAxis::RightStickX => Some("Right Stick X"@),
        RawAxis::RightStickY => Some("Right Stick Y"@),
        RawAxis::RightZ => Some("RT Axis"@),
        RawAxis::DPadX => Some("D-Pad X"@),
        RawAxis::DPadY => Some("D-Pad Y"@),
        RawAxis::Unknown => None,
    }
}

/// For the two analog trigger axes, the name of the button that mirrors them.
pub open spec fn trigger_button_of(a: RawAxis) -> Option<Seq<char>> {
    match a {
        RawAxis::LeftZ => Some("LT"@),
        RawAxis::RightZ => Some("RT"@),
        _ => None,
    }
}

/// The library's own name of a button that has no stable name.
pub open spec fn button_variant_label(b: RawButton) -> Seq<char> {
    match b {
        RawButton::C => "C"@,
        RawButton::Z => "Z"@,
        _ => "Unknown"@,
    }
}

/// The library's own name of an axis that has no stable name.
pub open spec fn axis_variant_label(a: RawAxis) -> Seq<char> {
    "Unknown"@
}

/// The named events that one raw event stands for.
pub open spec fn normalized(e: RawEvent) -> Seq<NamedEventView> {
    match e {
        RawEvent::ButtonPressed(b) => match button_semantic(b) {
            Some(n) => seq![NamedEventView::Button { name: n, pressed: true }],
            None => seq![],
        },
        RawEvent::ButtonReleased(b) => match button_semantic(b) {
            Some(n) => seq![NamedEventView::Button { name: n, pressed: false }],
            None => seq![],
        },
        RawEvent::AxisChanged(a, v) => match (axis_semantic(a), trigger_button_of(a)) {
            (Some(n), Some(t)) => seq![
                NamedEventView::Button { name: t, pressed: is_pressed_level(v as int) },
                NamedEventView::Axis { name: n, value: v as int },
            ],
            (Some(n), None) => seq![NamedEventView::Axis { name: n, value: v as int }],
            _ => seq![],
        },
        _ => seq![],
    }
}

/// Looks up the stable name of a button; `None` for a control that is dropped.
pub fn normalize_button(b: RawButton) -> (r: Option<String>)
    ensures
        name_view(r) == button_semantic(b),
{
    match b {
        RawButton::South => Some("A (South)".to_owned()),
        RawButton::East => Some("B (East)".to_owned()),
        RawButton::North => Some("Y (North)".to_owned()),
        RawButton::West => Some("X (West)".to_owned()),
        RawButton::LeftTrigger => Some("LB".to_owned()),
        RawButton::RightTrigger => Some("RB".to_owned()),
        RawButton::LeftTrigger2 => Some("LT".to_owned()),
        RawButton::RightTrigger2 => Some("RT".to_owned()),
        RawButton::Select => Some("Select".to_owned()),
        RawButton::Start => Some("Start".to_owned()),
        RawButton::Mode => Some("Guide".to_owned()),
        RawButton::LeftThumb => Some("LSB".to_owned()),
        RawButton::RightThumb => Some("RSB".to_owned()),
        RawButton::DPadUp => Some("D-Pad Up".to_owned()),
        RawButton::DPadDown => Some("D-Pad Down".to_owned()),
        RawButton::DPadLeft => Some("D-Pad Left".to_owned()),
        RawButton::DPadRight => Some("D-Pad Right".to_owned()),
        RawButton::C | RawButton::Z | RawButton::Unknown => None,
    }
}

/// Looks up the stable name of an axis; `None` for an unknown axis.
pub fn normalize_axis(a: RawAxis) -> (r: Option<String>)
    ensures
        name_view(r) == axis_semantic(a),
{
    match a {
        RawAxis::LeftStickX => Some("Left Stick X".to_owned()),
        RawAxis::LeftStickY => Some("Left Stick Y".to_owned()),
        RawAxis::LeftZ => Some("LT Axis".to_owned()),
        RawAxis::RightStickX => Some("Right Stick X".to_owned()),
        RawAxis::RightStickY => Some("Right Stick Y".to_owned()),
        RawAxis::RightZ => Some("RT Axis".to_owned()),
        RawAxis::DPadX => Some("D-Pad X".to_owned()),
        RawAxis::DPadY => Some("D-Pad Y".to_owned()),
        RawAxis::Unknown => None,
    }
}

/// The display name of a button: its stable name, else the library's name
/// for the raw control.
pub fn button_to_string(button: RawButton) -> (r: String)
    ensures
        r@ == match button_semantic(button) {
            Some(n) => n,
            None => button_variant_label(button),
        },
{
    match normalize_button(button) {
        Some(n) => n,
        None => match button {
            RawButton::C => "C".to_owned(),
            RawButton::Z => "Z".to_owned(),
            _ => "Unknown".to_owned(),
        },
    }
}

/// The display name of an axis: its stable name, else the library's name
/// for the raw control.
pub fn axis_to_string(axis: RawAxis) -> (r: String)
    ensures
        r@ == match axis_semantic(axis) {
            Some(n) => n,
            None => axis_variant_label(axis),
        },
{
    match normalize_axis(axis) {
        Some(n) => n,
        None => "Unknown".to_owned(),
    }
}

/// Turns one raw event into its named events. A trigger axis yields its
/// mirroring button first (pressed exactly when the reading is above 0.1),
/// then the analog reading.
pub fn normalize_event(e: RawEvent) -> (r: Vec<NamedEvent>)
    ensures
        r@.map_values(|x: NamedEvent| x@) == normalized(e),
        match e {
            RawEvent::AxisChanged(a, v) => trigger_button_of(a) is Some ==> {
                &&& r@.len() == 2
                &&& r@[0]@ == (NamedEventView::Button {
                    name: trigger_button_of(a).unwrap(),
                    pressed: v > TRIGGER_PRESS_LEVEL,
                })
            },
            _ => true,
        },
{
    let mut out: Vec<NamedEvent> = Vec::new();
    match e {
        RawEvent::ButtonPressed(b) => {
            if let Some(name) = normalize_button(b) {
                out.push(NamedEvent::Button { name, pressed: true });
            }
        },
        RawEvent::ButtonReleased(b) => {
            if let Some(name) = normalize_button(b) {
                out.push(NamedEvent::Button { name, pressed: false });
            }
        },
        RawEvent::AxisChanged(a, v) => {
            if let Some(name) = normalize_axis(a) {
                match a {
                    RawAxis::LeftZ => {
                        out.push(NamedEvent::Button { name: "LT".to_owned(), pressed: trigger_pressed(v) });
                    },
                    RawAxis::RightZ => {
                        out.push(NamedEvent::Button { name: "RT".to_owned(), pressed: trigger_pressed(v) });
                    },
                    _ => {},
                }
                out.push(NamedEvent::Axis { name, value: v });
            }
        },
        _ => {},
    }
    assert(out@.map_values(|x: NamedEvent| x@) =~= normalized(e));
    out
}

} // verus!
