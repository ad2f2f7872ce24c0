//! The whole-state protocol of the byte-stream link: the sender keeps one
//! full controller state and sends it, with the list of its controllers;
//! the receiver turns each state into a frame for the virtual pad.
use vstd::prelude::*;
use crate::normalizer::{RawAxis, RawButton, RawEvent};
use crate::scaling::{scale_stick, scale_trigger, stick_of, trigger_of, AXIS_FULL};
use crate::virtual_controller::{
    GamepadFrame, FLAG_A, FLAG_B, FLAG_BACK, FLAG_DPAD_DOWN, FLAG_DPAD_LEFT, FLAG_DPAD_RIGHT,
    FLAG_DPAD_UP, FLAG_GUIDE, FLAG_LB, FLAG_LEFT_THUMB, FLAG_RB, FLAG_RIGHT_THUMB, FLAG_START, FLAG_X,
    FLAG_Y,
};

verus! {

/// The whole state of one controller. Axis readings are in millionths;
/// sticks run over `[-1, 1]`, triggers over `[0, 1]`.
#[derive(Clone, Copy, Debug, PartialEq, Eq, Structural)]
pub struct ControllerState {
    pub left_stick_x: i32,
    pub left_stick_y: i32,
    pub right_stick_x: i32,
    pub right_stick_y: i32,
    pub left_trigger: i32,
    pub right_trigger: i32,
    pub dpad_up: bool,
    pub dpad_down: bool,
    pub dpad_left: bool,
    pub dpad_right: bool,
    pub button_a: bool,
    pub button_b: bool,
    pub button_x: bool,
    pub button_y: bool,
    pub button_lb: bool,
    pub button_rb: bool,
    pub button_back: bool,
    pub button_start: bool,
    pub button_guide: bool,
    pub button_l3: bool,
    pub button_r3: bool,
    pub timestamp: u64,
}

/// A controller as the sender lists it.
#[derive(Clone, Debug)]
pub struct ControllerInfo {
    pub name: String,
    pub uuid: String,
    pub vendor_id: u16,
    pub product_id: u16,
    pub connected: bool,
}

/// One message of the byte-stream link.
#[derive(Clone, Debug)]
pub enum Message {
    ControllerList(Vec<ControllerInfo>),
    ControllerState(ControllerState),
    Ping,
    Pong,
}

pub const PROTOCOL_VERSION: u8 = 1;
pub const NETWORK_PORT: u16 = 12345;

/// The state with nothing pressed, sticks centred and triggers released.
pub open spec fn idle_state() -> ControllerState {
    ControllerState {
        left_stick_x: 0,
        left_stick_y: 0,
        right_stick_x: 0,
        right_stick_y: 0,
        left_trigger: 0,
        right_trigger: 0,
        dpad_up: false,
        dpad_down: false,
        dpad_left: false,
        dpad_right: false,
        button_a: false,
        button_b: false,
        button_x: false,
        button_y: false,
        button_lb: false,
        button_rb: false,
        button_back: false,
        button_start: false,
        button_guide: false,
        button_l3: false,
        button_r3: false,
        timestamp: 0,
    }
}

/// `n / 2`, rounded toward zero.
pub open spec fn half(n: int) -> int {
    if n >= 0 {
        n / 2
    } else {
        -((-n) / 2)
    }
}

/// A trigger axis read over `[-1, 1]` moved onto `[0, 1]`.
pub open spec fn trigger_level(v: int) -> int {
    half(v + AXIS_FULL)
}

/// The state after a button goes down or up; buttons the state does not
/// hold leave it alone.
#[verifier::opaque]
pub open spec fn with_button(s: ControllerState, b: RawButton, p: bool) -> ControllerState {
    match b {
        RawButton::South => ControllerState { button_a: p, ..s },
        RawButton::East => ControllerState { button_b: p, ..s },
        RawButton::West => ControllerState { button_x: p, ..s },
        RawButton::North => ControllerState { button_y: p, ..s },
        RawButton::LeftTrigger => ControllerState { button_lb: p, ..s },
        RawButton::RightTrigger => ControllerState { button_rb: p, ..s },
        RawButton::Select => ControllerState { button_back: p, ..s },
        RawButton::Start => ControllerState { button_start: p, ..s },
        RawButton::Mode => ControllerState { button_guide: p, ..s },
        RawButton::LeftThumb => ControllerState { button_l3: p, ..s },
        RawButton::RightThumb => ControllerState { button_r3: p, ..s },
        RawButton::DPadUp => ControllerState { dpad_up: p, ..s },
        RawButton::DPadDown => ControllerState { dpad_down: p, ..s },
        RawButton::DPadLeft => ControllerState { dpad_left: p, ..s },
        RawButton::DPadRight => ControllerState { dpad_right: p, ..s },
        _ => s,
    }
}

/// The state after an axis reading; the trigger axes are moved onto `[0, 1]`.
#[verifier::opaque]
pub open spec fn with_axis(s: ControllerState, a: RawAxis, v: i32) -> ControllerState {
    match a {
        RawAxis::LeftStickX => ControllerState { left_stick_x: v, ..s },
        RawAxis::LeftStickY => ControllerState { left_stick_y: v, ..s },
        RawAxis::RightStickX => ControllerState { right_stick_x: v, ..s },
        RawAxis::RightStickY => ControllerState { right_stick_y: v, ..s },
        RawAxis::LeftZ => ControllerState { left_trigger: trigger_level(v as int) as i32, ..s },
        RawAxis::RightZ => ControllerState { right_trigger: trigger_level(v as int) as i32, ..s },
        _ => s,
    }
}

/// The state after a raw event at time `now_ms`: button and axis events
/// change it and stamp it; other events leave it alone.
pub open spec fn state_after(s: ControllerState, e: RawEvent, now_ms: u64) -> ControllerState {
    match e {
        RawEvent::ButtonPressed(b) => ControllerState { timestamp: now_ms, ..with_button(s, b, true) },
        RawEvent::ButtonReleased(b) => ControllerState {
            timestamp: now_ms,
            ..with_button(s, b, false)
        },
        RawEvent::AxisChanged(a, v) => ControllerState { timestamp: now_ms, ..with_axis(s, a, v) },
        _ => s,
    }
}

/// `flag` when `on`, else no flag.
pub open spec fn flag_if(on: bool, flag: u16) -> u16 {
    if on {
        flag
    } else {
        0
    }
}

/// The pad's button flags for a state.
pub open spec fn mask_of(s: ControllerState) -> u16 {
    flag_if(s.dpad_up, FLAG_DPAD_UP) | flag_if(s.dpad_down, FLAG_DPAD_DOWN) | flag_if(
        s.dpad_left,
        FLAG_DPAD_LEFT,
    ) | flag_if(s.dpad_right, FLAG_DPAD_RIGHT) | flag_if(s.button_start, FLAG_START) | flag_if(
        s.button_back,
        FLAG_BACK,
    ) | flag_if(s.button_l3, FLAG_LEFT_THUMB) | flag_if(s.button_r3, FLAG_RIGHT_THUMB) | flag_if(
        s.button_lb,
        FLAG_LB,
    ) | flag_if(s.button_rb, FLAG_RB) | flag_if(s.button_guide, FLAG_GUIDE) | flag_if(
        s.button_a,
        FLAG_A,
    ) | flag_if(s.button_b, FLAG_B) | flag_if(s.button_x, FLAG_X) | flag_if(s.button_y, FLAG_Y)
}

/// The virtual pad's frame for a whole controller state.
pub open spec fn frame_of_state(s: ControllerState) -> GamepadFrame {
    GamepadFrame {
        buttons: mask_of(s),
        left_trigger: trigger_of(s.left_trigger as int) as u8,
        right_trigger: trigger_of(s.right_trigger as int) as u8,
        thumb_lx: stick_of(s.left_stick_x as int) as i16,
        thumb_ly: stick_of(s.left_stick_y as int) as i16,
        thumb_rx: stick_of(s.right_stick_x as int) as i16,
        thumb_ry: stick_of(s.right_stick_y as int) as i16,
    }
}

fn flag_when(on: bool, flag: u16) -> (r: u16)
    ensures
        r == flag_if(on, flag),
{
    if on {
        flag
    } else {
        0
    }
}

impl ControllerState {
    /// The state with nothing pressed, sticks centred and triggers released.
    pub fn idle() -> (r: Self)
        ensures
            r == idle_state(),
    {
        ControllerState {
            left_stick_x: 0,
            left_stick_y: 0,
            right_stick_x: 0,
            right_stick_y: 0,
            left_trigger: 0,
            right_trigger: 0,
            dpad_up: false,
            dpad_down: false,
            dpad_left: false,
            dpad_right: false,
            button_a: false,
            button_b: false,
            button_x: false,
            button_y: false,
            button_lb: false,
            button_rb: false,
            button_back: false,
            button_start: false,
            button_guide: false,
            button_l3: false,
            button_r3: false,
            timestamp: 0,
        }
    }

    /// Folds one raw event, seen at `now_ms`, into the state.
    pub fn apply_event(&mut self, e: RawEvent, now_ms: u64)
        ensures
            *final(self) == state_after(*old(self), e, now_ms),
    {
        *self = state_after_event(*self, e, now_ms);
    }
}

fn state_after_event(s: ControllerState, e: RawEvent, now_ms: u64) -> (r: ControllerState)
    ensures
        r == state_after(s, e, now_ms),
{
    match e {
        RawEvent::ButtonPressed(b) => {
            let t = button_changed(s, b, true);
            ControllerState { timestamp: now_ms, ..t }
        },
        RawEvent::ButtonReleased(b) => {
            let t = button_changed(s, b, false);
            ControllerState { timestamp: now_ms, ..t }
        },
        RawEvent::AxisChanged(a, v) => {
            let t = axis_changed(s, a, v);
            ControllerState { timestamp: now_ms, ..t }
        },
        _ => s,
    }
}

fn button_changed(s: ControllerState, b: RawButton, p: bool) -> (r: ControllerState)
    ensures
        r == with_button(s, b, p),
{
    reveal(with_button);
    match b {
        RawButton::South => ControllerState { button_a: p, ..s },
        RawButton::East => ControllerState { button_b: p, ..s },
        RawButton::West => ControllerState { button_x: p, ..s },
        RawButton::North => ControllerState { button_y: p, ..s },
        RawButton::LeftTrigger => ControllerState { button_lb: p, ..s },
        RawButton::RightTrigger => ControllerState { button_rb: p, ..s },
        RawButton::Select => ControllerState { button_back: p, ..s },
        RawButton::Start => ControllerState { button_start: p, ..s },
        RawButton::Mode => ControllerState { button_guide: p, ..s },
        RawButton::LeftThumb => ControllerState { button_l3: p, ..s },
        RawButton::RightThumb => ControllerState { button_r3: p, ..s },
        RawButton::DPadUp => ControllerState { dpad_up: p, ..s },
        RawButton::DPadDown => ControllerState { dpad_down: p, ..s },
        RawButton::DPadLeft => ControllerState { dpad_left: p, ..s },
        RawButton::DPadRight => ControllerState { dpad_right: p, ..s },
        _ => s,
    }
}

fn axis_changed(s: ControllerState, a: RawAxis, v: i32) -> (r: ControllerState)
    ensures
        r == with_axis(s, a, v),
{
    reveal(with_axis);
    match a {
        RawAxis::LeftStickX => ControllerState { left_stick_x: v, ..s },
        RawAxis::LeftStickY => ControllerState { left_stick_y: v, ..s },
        RawAxis::RightStickX => ControllerState { right_stick_x: v, ..s },
        RawAxis::RightStickY => ControllerState { right_stick_y: v, ..s },
        RawAxis::LeftZ => ControllerState { left_trigger: trigger_from_axis(v), ..s },
        RawAxis::RightZ => ControllerState { right_trigger: trigger_from_axis(v), ..s },
        _ => s,
    }
}

impl Default for ControllerState {
    /// The idle state.
    fn default() -> (r: Self)
        ensures
            r == idle_state(),
    {
        ControllerState::idle()
    }
}

/// Moves a trigger axis read over `[-1, 1]` onto `[0, 1]`.
fn trigger_from_axis(v: i32) -> (r: i32)
    ensures
        r as int == trigger_level(v as int),
{
    let n: i64 = v as i64 + 1_000_000;
    if n >= 0 {
        (n / 2) as i32
    } else {
        (-((-n) / 2)) as i32
    }
}

/// The reply that a message asks for: a ping is answered with a pong.
pub fn reply_to(msg: &Message) -> (r: Option<Message>)
    ensures
        msg is Ping ==> r matches Some(Message::Pong),
        !(msg is Ping) ==> r is None,
{
    match msg {
        Message::Ping => Some(Message::Pong),
        _ => None,
    }
}

/// How far an analog reading must move before the change is reported (0.1).
pub const CHANGE_THRESHOLD: i32 = 100_000;

/// One reported difference between two states.
#[derive(Clone, Debug)]
pub enum InputChange {
    Button { label: String, pressed: bool },
    Analog { label: String, value: i32 },
}

/// A reported change with its label as characters.
pub enum InputChangeView {
    Button { label: Seq<char>, pressed: bool },
    Analog { label: Seq<char>, value: i32 },
}

impl View for InputChange {
    type V = InputChangeView;

    open spec fn view(&self) -> InputChangeView {
        match self {
            InputChange::Button { label, pressed } => InputChangeView::Button {
                label: label@,
                pressed: *pressed,
            },
            InputChange::Analog { label, value } => InputChangeView::Analog {
                label: label@,
                value: *value,
            },
        }
    }
}

/// The state's buttons, in the order they are reported.
pub open spec fn buttons_in_order(s: ControllerState) -> Seq<bool> {
    seq![
        s.button_a,
        s.button_b,
        s.button_x,
        s.button_y,
        s.button_lb,
        s.button_rb,
        s.button_start,
        s.button_back,
        s.button_guide,
        s.button_l3,
        s.button_r3,
        s.dpad_up,
        s.dpad_down,
        s.dpad_left,
        s.dpad_right,
    ]
}

/// The labels of the buttons, in the same order.
pub open spec fn button_labels() -> Seq<Seq<char>> {
    seq![
        "Button A"@,
        "Button B"@,
        "Button X"@,
        "Button Y"@,
        "Left Bumper"@,
        "Right Bumper"@,
        "Start"@,
        "Back"@,
        "Guide"@,
        "Left Stick"@,
        "Right Stick"@,
        "D-Pad Up"@,
        "D-Pad Down"@,
        "D-Pad Left"@,
        "D-Pad Right"@,
    ]
}

/// The state's analog readings, in the order they are reported.
pub open spec fn analogs_in_order(s: ControllerState) -> Seq<i32> {
    seq![
        s.left_stick_x,
        s.left_stick_y,
        s.right_stick_x,
        s.right_stick_y,
        s.left_trigger,
        s.right_trigger,
    ]
}

/// The labels of the analog readings, in the same order.
pub open spec fn analog_labels() -> Seq<Seq<char>> {
    seq![
        "Left Stick X"@,
        "Left Stick Y"@,
        "Right Stick X"@,
        "Right Stick Y"@,
        "Left Trigger"@,
        "Right Trigger"@,
    ]
}

/// Whether an analog reading moved by more than the threshold.
pub open spec fn moved(a: int, b: int) -> bool {
    a - b > CHANGE_THRESHOLD || b - a > CHANGE_THRESHOLD
}

/// The changes among the first `n` buttons: each button whose state
/// differs, with its new state.
pub open spec fn button_changes(old: ControllerState, new: ControllerState, n: int) -> Seq<
    InputChangeView,
>
    decreases n,
{
    if n <= 0 {
        Seq::empty()
    } else {
        button_changes(old, new, n - 1) + if buttons_in_order(old)[n - 1] != buttons_in_order(
            new,
        )[n - 1] {
            seq![
                InputChangeView::Button {
                    label: button_labels()[n - 1],
                    pressed: buttons_in_order(new)[n - 1],
                },
            ]
        } else {
            Seq::empty()
        }
    }
}

/// The changes among the first `n` analog readings: each one that moved by
/// more than the threshold, with its new reading.
pub open spec fn analog_changes(old: ControllerState, new: ControllerState, n: int) -> Seq<
    InputChangeView,
>
    decreases n,
{
    if n <= 0 {
        Seq::empty()
    } else {
        analog_changes(old, new, n - 1) + if moved(
            analogs_in_order(old)[n - 1] as int,
            analogs_in_order(new)[n - 1] as int,
        ) {
            seq![
                InputChangeView::Analog {
                    label: analog_labels()[n - 1],
                    value: analogs_in_order(new)[n - 1],
                },
            ]
        } else {
            Seq::empty()
        }
    }
}

/// Every reported change from `old` to `new`: buttons first, then analog readings.
pub open spec fn changes_between(old: ControllerState, new: ControllerState) -> Seq<InputChangeView> {
    button_changes(old, new, 15) + analog_changes(old, new, 6)
}

#[verifier::rlimit(40)]
fn button_at(s: &ControllerState, i: usize) -> (r: bool)
    requires
        i < 15,
    ensures
        r == buttons_in_order(*s)[i as int],
{
    match i {
        0 => s.button_a,
        1 => s.button_b,
        2 => s.button_x,
        3 => s.button_y,
        4 => s.button_lb,
        5 => s.button_rb,
        6 => s.button_start,
        7 => s.button_back,
        8 => s.button_guide,
        9 => s.button_l3,
        10 => s.button_r3,
        11 => s.dpad_up,
        12 => s.dpad_down,
        13 => s.dpad_left,
        _ => s.dpad_right,
    }
}

#[verifier::rlimit(40)]
fn button_label(i: usize) -> (r: String)
    requires
        i < 15,
    ensures
        r@ == button_labels()[i as int],
{
    match i {
        0 => "Button A".to_owned(),
        1 => "Button B".to_owned(),
        2 => "Button X".to_owned(),
        3 => "Button Y".to_owned(),
        4 => "Left Bumper".to_owned(),
        5 => "Right Bumper".to_owned(),
        6 => "Start".to_owned(),
        7 => "Back".to_owned(),
        8 => "Guide".to_owned(),
        9 => "Left Stick".to_owned(),
        10 => "Right Stick".to_owned(),
        11 => "D-Pad Up".to_owned(),
        12 => "D-Pad Down".to_owned(),
        13 => "D-Pad Left".to_owned(),
        _ => "D-Pad Right".to_owned(),
    }
}

#[verifier::rlimit(40)]
fn analog_at(s: &ControllerState, i: usize) -> (r: i32)
    requires
        i < 6,
    ensures
        r == analogs_in_order(*s)[i as int],
{
    match i {
        0 => s.left_stick_x,
        1 => s.left_stick_y,
        2 => s.right_stick_x,
        3 => s.right_stick_y,
        4 => s.left_trigger,
        _ => s.right_trigger,
    }
}

#[verifier::rlimit(40)]
fn analog_label(i: usize) -> (r: String)
    requires
        i < 6,
    ensures
        r@ == analog_labels()[i as int],
{
    match i {
        0 => "Left Stick X".to_owned(),
        1 => "Left Stick Y".to_owned(),
        2 => "Right Stick X".to_owned(),
        3 => "Right Stick Y".to_owned(),
        4 => "Left Trigger".to_owned(),
        _ => "Right Trigger".to_owned(),
    }
}

/// Turns whole controller states into frames for the virtual pad.
pub struct VirtualControllerManager {
    connected: bool,
}

impl VirtualControllerManager {
    /// A manager with no virtual pad connected yet.
    pub fn new() -> (r: Self)
        ensures
            !r.is_connected_spec(),
    {
        VirtualControllerManager { connected: false }
    }

    /// Whether the virtual pad is connected.
    pub closed spec fn is_connected_spec(&self) -> bool {
        self.connected
    }

    /// Whether the virtual pad is connected.
    pub fn is_connected(&self) -> (r: bool)
        ensures
            r == self.is_connected_spec(),
    {
        self.connected
    }

    /// Records that the virtual pad was connected, or lost.
    pub fn set_connected(&mut self, connected: bool)
        ensures
            final(self).is_connected_spec() == connected,
    {
        self.connected = connected;
    }

    /// The changes from `old_state` to `new_state` worth reporting: every
    /// button that went down or up, then every analog reading that moved by
    /// more than 0.1, each with its new value.
    pub fn log_input_changes(&self, old_state: &ControllerState, new_state: &ControllerState) -> (r:
        Vec<InputChange>)
        ensures
            r@.map_values(|c: InputChange| c@) == changes_between(*old_state, *new_state),
    {
        let mut out: Vec<InputChange> = Vec::new();
        let mut i: usize = 0;
        while i < 15
            invariant
                i <= 15,
                out@.map_values(|c: InputChange| c@) == button_changes(
                    *old_state,
                    *new_state,
                    i as int,
                ),
            decreases 15 - i,
        {
            let now = button_at(new_state, i);
            if button_at(old_state, i) != now {
                out.push(InputChange::Button { label: button_label(i), pressed: now });
            }
            i += 1;
            assert(out@.map_values(|c: InputChange| c@) =~= button_changes(
                *old_state,
                *new_state,
                i as int,
            ));
        }
        let ghost buttons = out@.map_values(|c: InputChange| c@);
        let mut j: usize = 0;
        while j < 6
            invariant
                j <= 6,
                buttons == button_changes(*old_state, *new_state, 15),
                out@.map_values(|c: InputChange| c@) == buttons + analog_changes(
                    *old_state,
                    *new_state,
                    j as int,
                ),
            decreases 6 - j,
        {
            let now = analog_at(new_state, j);
            let before = analog_at(old_state, j) as i64;
            let after = now as i64;
            let ghost piece = if moved(before as int, after as int) {
                seq![InputChangeView::Analog { label: analog_labels()[j as int], value: now }]
            } else {
                Seq::empty()
            };
            let ghost prev = out@.map_values(|c: InputChange| c@);
            if before - after > CHANGE_THRESHOLD as i64 || after - before > CHANGE_THRESHOLD as i64 {
                out.push(InputChange::Analog { label: analog_label(j), value: now });
            }
            assert(out@.map_values(|c: InputChange| c@) =~= prev + piece);
            assert(analog_changes(*old_state, *new_state, j + 1) == analog_changes(
                *old_state,
                *new_state,
                j as int,
            ) + piece);
            j += 1;
            assert(out@.map_values(|c: InputChange| c@) =~= buttons + analog_changes(
                *old_state,
                *new_state,
                j as int,
            ));
        }
        out
    }

    /// The pad's button flags for a state.
    pub fn build_button_mask(&self, state: &ControllerState) -> (r: u16)
        ensures
            r == mask_of(*state),
    {
        flag_when(state.dpad_up, FLAG_DPAD_UP) | flag_when(state.dpad_down, FLAG_DPAD_DOWN)
            | flag_when(state.dpad_left, FLAG_DPAD_LEFT) | flag_when(
            state.dpad_right,
            FLAG_DPAD_RIGHT,
        ) | flag_when(state.button_start, FLAG_START) | flag_when(state.button_back, FLAG_BACK)
            | flag_when(state.button_l3, FLAG_LEFT_THUMB) | flag_when(
            state.button_r3,
            FLAG_RIGHT_THUMB,
        ) | flag_when(state.button_lb, FLAG_LB) | flag_when(state.button_rb, FLAG_RB) | flag_when(
            state.button_guide,
            FLAG_GUIDE,
        ) | flag_when(state.button_a, FLAG_A) | flag_when(state.button_b, FLAG_B) | flag_when(
            state.button_x,
            FLAG_X,
        ) | flag_when(state.button_y, FLAG_Y)
    }

    /// The frame that the virtual pad is given for a state: its button
    /// flags, sticks scaled to `i16` and triggers to `u8`.
    pub fn update_virtual_controller(&self, state: &ControllerState) -> (r: GamepadFrame)
        ensures
            r == frame_of_state(*state),
    {
        GamepadFrame {
            buttons: self.build_button_mask(state),
            left_trigger: scale_trigger(state.left_trigger),
            right_trigger: scale_trigger(state.right_trigger),
            thumb_lx: scale_stick(state.left_stick_x),
            thumb_ly: scale_stick(state.left_stick_y),
            thumb_rx: scale_stick(state.right_stick_x),
            thumb_ry: scale_stick(state.right_stick_y),
        }
    }
}

} // verus!
