//! The virtual pad's state, folded from named events, and the decisions
//! about when it is handed to the virtual device.
use vstd::prelude::*;
use crate::codec::{AxisEventView, ButtonEventView, ControllerInputData, InputBatchView};
use crate::scaling::{scale_stick, scale_trigger, stick_of, trigger_of};
use crate::latest::{entries_map, names_unique, LatestValues};
use crate::text::same_text;

verus! {

/// The full state of the virtual pad at one instant.
#[derive(Clone, Copy, Debug, PartialEq, Eq, Structural)]
pub struct GamepadFrame {
    /// One flag for each of the pad's buttons.
    pub buttons: u16,
    pub left_trigger: u8,
    pub right_trigger: u8,
    pub thumb_lx: i16,
    pub thumb_ly: i16,
    pub thumb_rx: i16,
    pub thumb_ry: i16,
}

pub const FLAG_DPAD_UP: u16 = 0x0001;
pub const FLAG_DPAD_DOWN: u16 = 0x0002;
pub const FLAG_DPAD_LEFT: u16 = 0x0004;
pub const FLAG_DPAD_RIGHT: u16 = 0x0008;
pub const FLAG_START: u16 = 0x0010;
pub const FLAG_BACK: u16 = 0x0020;
pub const FLAG_LEFT_THUMB: u16 = 0x0040;
pub const FLAG_RIGHT_THUMB: u16 = 0x0080;
pub const FLAG_LB: u16 = 0x0100;
pub const FLAG_RB: u16 = 0x0200;
pub const FLAG_GUIDE: u16 = 0x0400;
pub const FLAG_A: u16 = 0x1000;
pub const FLAG_B: u16 = 0x2000;
pub const FLAG_X: u16 = 0x4000;
pub const FLAG_Y: u16 = 0x8000;

/// The frame with every button up, sticks centred and triggers released.
pub open spec fn neutral_frame() -> GamepadFrame {
    GamepadFrame {
        buttons: 0,
        left_trigger: 0,
        right_trigger: 0,
        thumb_lx: 0,
        thumb_ly: 0,
        thumb_rx: 0,
        thumb_ry: 0,
    }
}

/// The flag of a named button, if it is one of the pad's buttons.
pub open spec fn button_flag_of(name: Seq<char>) -> Option<u16> {
    if name == "A (South)"@ {
        Some(FLAG_A)
    } else if name == "B (East)"@ {
        Some(FLAG_B)
    } else if name == "X (West)"@ {
        Some(FLAG_X)
    } else if name == "Y (North)"@ {
        Some(FLAG_Y)
    } else if name == "LB"@ {
        Some(FLAG_LB)
    } else if name == "RB"@ {
        Some(FLAG_RB)
    } else if name == "Select"@ {
        Some(FLAG_BACK)
    } else if name == "Start"@ {
        Some(FLAG_START)
    } else if name == "Guide"@ {
        Some(FLAG_GUIDE)
    } else if name == "LSB"@ {
        Some(FLAG_LEFT_THUMB)
    } else if name == "RSB"@ {
        Some(FLAG_RIGHT_THUMB)
    } else if name == "D-Pad Up"@ {
        Some(FLAG_DPAD_UP)
    } else if name == "D-Pad Down"@ {
        Some(FLAG_DPAD_DOWN)
    } else if name == "D-Pad Left"@ {
        Some(FLAG_DPAD_LEFT)
    } else if name == "D-Pad Right"@ {
        Some(FLAG_DPAD_RIGHT)
    } else {
        None
    }
}

/// Whether a button name stands for the left trigger pressed as a button.
pub open spec fn is_left_trigger_button(name: Seq<char>) -> bool {
    name == "LT"@ || name == "LT [ID: 6] - Aim"@
}

/// Whether a button name stands for the right trigger pressed as a button.
pub open spec fn is_right_trigger_button(name: Seq<char>) -> bool {
    name == "RT"@ || name == "RT [ID: 7] - Fire"@
}

/// The frame after a named button change. A pad button sets or clears its
/// flag; a trigger pressed as a button goes fully down or fully up; other
/// names leave the frame alone.
pub open spec fn frame_after_button(f: GamepadFrame, name: Seq<char>, pressed: bool) -> GamepadFrame {
    match button_flag_of(name) {
        Some(flag) => GamepadFrame {
            buttons: if pressed {
                f.buttons | flag
            } else {
                f.buttons & !flag
            },
            ..f
        },
        None => if is_left_trigger_button(name) {
            GamepadFrame { left_trigger: if pressed { 255 } else { 0 }, ..f }
        } else if is_right_trigger_button(name) {
            GamepadFrame { right_trigger: if pressed { 255 } else { 0 }, ..f }
        } else {
            f
        },
    }
}

/// The frame after a named axis reading `v` (in millionths). Each stick
/// component and each trigger is set from the reading alone; other names
/// leave the frame alone.
pub open spec fn frame_after_axis(f: GamepadFrame, name: Seq<char>, v: i32) -> GamepadFrame {
    if name == "Left Stick X"@ {
        GamepadFrame { thumb_lx: stick_of(v as int) as i16, ..f }
    } else if name == "Left Stick Y"@ {
        GamepadFrame { thumb_ly: stick_of(v as int) as i16, ..f }
    } else if name == "Right Stick X"@ {
        GamepadFrame { thumb_rx: stick_of(v as int) as i16, ..f }
    } else if name == "Right Stick Y"@ {
        GamepadFrame { thumb_ry: stick_of(v as int) as i16, ..f }
    } else if name == "LT Axis"@ {
        GamepadFrame { left_trigger: trigger_of(v as int) as u8, ..f }
    } else if name == "RT Axis"@ {
        GamepadFrame { right_trigger: trigger_of(v as int) as u8, ..f }
    } else {
        f
    }
}

/// Looks up the flag of a named pad button.
pub fn button_flag(name: &str) -> (r: Option<u16>)
    ensures
        r == button_flag_of(name@),
{
    if same_text(name, "A (South)") {
        Some(FLAG_A)
    } else if same_text(name, "B (East)") {
        Some(FLAG_B)
    } else if same_text(name, "X (West)") {
        Some(FLAG_X)
    } else if same_text(name, "Y (North)") {
        Some(FLAG_Y)
    } else if same_text(name, "LB") {
        Some(FLAG_LB)
    } else if same_text(name, "RB") {
        Some(FLAG_RB)
    } else if same_text(name, "Select") {
        Some(FLAG_BACK)
    } else if same_text(name, "Start") {
        Some(FLAG_START)
    } else if same_text(name, "Guide") {
        Some(FLAG_GUIDE)
    } else if same_text(name, "LSB") {
        Some(FLAG_LEFT_THUMB)
    } else if same_text(name, "RSB") {
        Some(FLAG_RIGHT_THUMB)
    } else if same_text(name, "D-Pad Up") {
        Some(FLAG_DPAD_UP)
    } else if same_text(name, "D-Pad Down") {
        Some(FLAG_DPAD_DOWN)
    } else if same_text(name, "D-Pad Left") {
        Some(FLAG_DPAD_LEFT)
    } else if same_text(name, "D-Pad Right") {
        Some(FLAG_DPAD_RIGHT)
    } else {
        None
    }
}

impl GamepadFrame {
    /// The frame with every button up, sticks centred and triggers released.
    pub fn neutral() -> (r: GamepadFrame)
        ensures
            r == neutral_frame(),
    {
        GamepadFrame {
            buttons: 0,
            left_trigger: 0,
            right_trigger: 0,
            thumb_lx: 0,
            thumb_ly: 0,
            thumb_rx: 0,
            thumb_ry: 0,
        }
    }

    /// Applies a named button change.
    pub fn apply_button(&mut self, name: &str, pressed: bool)
        ensures
            *final(self) == frame_after_button(*old(self), name@, pressed),
    {
        match button_flag(name) {
            Some(flag) => {
                if pressed {
                    self.buttons = self.buttons | flag;
                } else {
                    self.buttons = self.buttons & !flag;
                }
            },
            None => {
                if same_text(name, "LT") || same_text(name, "LT [ID: 6] - Aim") {
                    self.left_trigger = if pressed { 255 } else { 0 };
                } else if same_text(name, "RT") || same_text(name, "RT [ID: 7] - Fire") {
                    self.right_trigger = if pressed { 255 } else { 0 };
                }
            },
        }
    }

    /// Applies a named axis reading, in millionths.
    pub fn apply_axis(&mut self, name: &str, value: i32)
        ensures
            *final(self) == frame_after_axis(*old(self), name@, value),
    {
        if same_text(name, "Left Stick X") {
            self.thumb_lx = scale_stick(value);
        } else if same_text(name, "Left Stick Y") {
            self.thumb_ly = scale_stick(value);
        } else if same_text(name, "Right Stick X") {
            self.thumb_rx = scale_stick(value);
        } else if same_text(name, "Right Stick Y") {
            self.thumb_ry = scale_stick(value);
        } else if same_text(name, "LT Axis") {
            self.left_trigger = scale_trigger(value);
        } else if same_text(name, "RT Axis") {
            self.right_trigger = scale_trigger(value);
        }
    }
}

/// What the reconciler holds: whether a virtual device is attached,
/// whether the last push to it failed, the pad's current frame, and the
/// latest value applied under each button and axis name.
pub struct ReconcilerView {
    pub attached: bool,
    pub push_failed: bool,
    pub frame: GamepadFrame,
    pub buttons: Map<Seq<char>, bool>,
    pub axes: Map<Seq<char>, i32>,
}

/// One call on the reconciler, as a value.
pub enum ReconcilerOp {
    Button { name: Seq<char>, pressed: bool },
    Axis { name: Seq<char>, value: i32 },
    Flush,
}

/// The state after a named button change: while a device is attached the
/// frame follows it and the change is kept as the button's latest; with
/// none attached the change is dropped.
pub open spec fn after_button(s: ReconcilerView, name: Seq<char>, pressed: bool) -> ReconcilerView {
    if s.attached {
        ReconcilerView {
            frame: frame_after_button(s.frame, name, pressed),
            buttons: s.buttons.insert(name, pressed),
            ..s
        }
    } else {
        s
    }
}

/// The state after a named axis reading, by the same rule as buttons.
pub open spec fn after_axis(s: ReconcilerView, name: Seq<char>, value: i32) -> ReconcilerView {
    if s.attached {
        ReconcilerView {
            frame: frame_after_axis(s.frame, name, value),
            axes: s.axes.insert(name, value),
            ..s
        }
    } else {
        s
    }
}

/// The state after a run of button events, applied in order.
pub open spec fn after_button_events(s: ReconcilerView, es: Seq<ButtonEventView>) -> ReconcilerView
    decreases es.len(),
{
    if es.len() == 0 {
        s
    } else {
        after_button(after_button_events(s, es.drop_last()), es.last().button, es.last().pressed)
    }
}

/// The state after a run of axis events, applied in order.
pub open spec fn after_axis_events(s: ReconcilerView, es: Seq<AxisEventView>) -> ReconcilerView
    decreases es.len(),
{
    if es.len() == 0 {
        s
    } else {
        after_axis(after_axis_events(s, es.drop_last()), es.last().axis, es.last().value)
    }
}

/// The state after a whole batch: its button events, then its axis events.
pub open spec fn after_batch(s: ReconcilerView, b: InputBatchView) -> ReconcilerView {
    after_axis_events(after_button_events(s, b.buttons), b.axes)
}

/// What a flush hands to the virtual device: the current frame when one is
/// attached, nothing otherwise.
pub open spec fn flush_of(s: ReconcilerView) -> Option<GamepadFrame> {
    if s.attached {
        Some(s.frame)
    } else {
        None
    }
}

/// The state after the outcome of a push is reported: a failure is kept
/// for display and the device stays attached, so the next flush retries.
pub open spec fn after_push(s: ReconcilerView, ok: bool) -> ReconcilerView {
    ReconcilerView { push_failed: !ok, ..s }
}

/// The state after a run of calls.
pub open spec fn after_ops(s: ReconcilerView, ops: Seq<ReconcilerOp>) -> ReconcilerView
    decreases ops.len(),
{
    if ops.len() == 0 {
        s
    } else {
        let t = after_ops(s, ops.drop_last());
        match ops.last() {
            ReconcilerOp::Button { name, pressed } => after_button(t, name, pressed),
            ReconcilerOp::Axis { name, value } => after_axis(t, name, value),
            ReconcilerOp::Flush => t,
        }
    }
}

/// Flushing hands out the same frame again after the outcome of the
/// previous push is reported, whatever that outcome was.
pub proof fn lemma_flush_repeats(s: ReconcilerView, ok: bool)
    ensures
        flush_of(after_push(s, ok)) == flush_of(s),
{
}

proof fn lemma_unattached_unchanged(s: ReconcilerView, ops: Seq<ReconcilerOp>)
    requires
        !s.attached,
    ensures
        after_ops(s, ops) == s,
    decreases ops.len(),
{
    if ops.len() > 0 {
        lemma_unattached_unchanged(s, ops.drop_last());
    }
}

/// With no device attached, any run of button, axis and flush calls leaves
/// the reconciler as it was: still unattached, and no flush along the way
/// hands anything to a device.
pub proof fn lemma_unattached_stays_idle(s: ReconcilerView, ops: Seq<ReconcilerOp>)
    requires
        !s.attached,
    ensures
        after_ops(s, ops) == s,
        !after_ops(s, ops).attached,
        forall|i: int| 0 <= i <= ops.len() ==> #[trigger] flush_of(after_ops(s, ops.take(i))) is None,
{
    lemma_unattached_unchanged(s, ops);
    assert forall|i: int| 0 <= i <= ops.len() implies #[trigger] flush_of(
        after_ops(s, ops.take(i)),
    ) is None by {
        lemma_unattached_unchanged(s, ops.take(i));
    }
}

/// Folds named events into one virtual pad's frame and decides when that
/// frame goes to the virtual device. The device itself is driven by the
/// caller, which reports back what became of each request.
pub struct VirtualController {
    attached: bool,
    push_failed: bool,
    gamepad_state: GamepadFrame,
    button_states: LatestValues<bool>,
    axis_states: LatestValues<i32>,
}

impl View for VirtualController {
    type V = ReconcilerView;

    closed spec fn view(&self) -> ReconcilerView {
        ReconcilerView {
            attached: self.attached,
            push_failed: self.push_failed,
            frame: self.gamepad_state,
            buttons: self.button_states.map(),
            axes: self.axis_states.map(),
        }
    }
}

impl VirtualController {
    /// Whether the tables of latest values are well formed.
    pub closed spec fn wf(&self) -> bool {
        self.button_states.wf() && self.axis_states.wf()
    }

    /// A reconciler with no device attached, a neutral frame and nothing
    /// applied yet.
    pub fn new() -> (r: Self)
        ensures
            r.wf(),
            r@ == (ReconcilerView {
                attached: false,
                push_failed: false,
                frame: neutral_frame(),
                buttons: Map::empty(),
                axes: Map::empty(),
            }),
    {
        VirtualController {
            attached: false,
            push_failed: false,
            gamepad_state: GamepadFrame::neutral(),
            button_states: LatestValues::new(),
            axis_states: LatestValues::new(),
        }
    }

    /// Records the outcome of creating and plugging in a virtual device:
    /// on success the device is attached; a failure changes nothing.
    pub fn create_controller(&mut self, created: bool)
        requires
            old(self).wf(),
        ensures
            final(self).wf(),
            final(self)@ == (if created {
                ReconcilerView { attached: true, push_failed: false, ..old(self)@ }
            } else {
                old(self)@
            }),
    {
        if created {
            self.attached = true;
            self.push_failed = false;
        }
    }

    /// Detaches the virtual device. Gives whether there was one, which the
    /// caller then unplugs. The frame is kept as it was.
    pub fn disconnect_controller(&mut self) -> (r: bool)
        requires
            old(self).wf(),
        ensures
            final(self).wf(),
            r == old(self)@.attached,
            final(self)@ == (ReconcilerView { attached: false, ..old(self)@ }),
    {
        let was = self.attached;
        self.attached = false;
        was
    }

    /// Whether a virtual device is attached.
    pub fn is_connected(&self) -> (r: bool)
        ensures
            r == self@.attached,
    {
        self.attached
    }

    /// Whether the last push to the device failed.
    pub fn last_push_failed(&self) -> (r: bool)
        ensures
            r == self@.push_failed,
    {
        self.push_failed
    }

    /// The pad's current frame.
    pub fn frame(&self) -> (r: GamepadFrame)
        ensures
            r == self@.frame,
    {
        self.gamepad_state
    }

    /// Applies a named button change while a device is attached.
    pub fn apply_button(&mut self, name: &str, pressed: bool)
        requires
            old(self).wf(),
        ensures
            final(self).wf(),
            final(self)@ == after_button(old(self)@, name@, pressed),
    {
        if self.attached {
            self.gamepad_state.apply_button(name, pressed);
            self.button_states.record(name, pressed);
        }
    }

    /// Applies a named axis reading (in millionths) while a device is attached.
    pub fn apply_axis(&mut self, name: &str, value: i32)
        requires
            old(self).wf(),
        ensures
            final(self).wf(),
            final(self)@ == after_axis(old(self)@, name@, value),
    {
        if self.attached {
            self.gamepad_state.apply_axis(name, value);
            self.axis_states.record(name, value);
        }
    }

    /// The latest value applied under each button name, one entry per name.
    pub fn get_button_states(&self) -> (r: &Vec<(String, bool)>)
        requires
            self.wf(),
        ensures
            entries_map(r@) == self@.buttons,
            names_unique(r@),
    {
        self.button_states.entries()
    }

    /// The latest reading applied under each axis name, one entry per name.
    pub fn get_axis_states(&self) -> (r: &Vec<(String, i32)>)
        requires
            self.wf(),
        ensures
            entries_map(r@) == self@.axes,
            names_unique(r@),
    {
        self.axis_states.entries()
    }

    /// Replaces the whole frame while a device is attached, as when the
    /// peer sends whole states rather than single events.
    pub fn apply_frame(&mut self, frame: GamepadFrame)
        requires
            old(self).wf(),
        ensures
            final(self).wf(),
            final(self)@ == (if old(self)@.attached {
                ReconcilerView { frame, ..old(self)@ }
            } else {
                old(self)@
            }),
    {
        if self.attached {
            self.gamepad_state = frame;
        }
    }

    /// The frame to push to the device now: the current frame when one is
    /// attached, `None` (nothing to push) otherwise.
    pub fn flush(&self) -> (r: Option<GamepadFrame>)
        ensures
            r == flush_of(self@),
    {
        if self.attached {
            Some(self.gamepad_state)
        } else {
            None
        }
    }

    /// Records the outcome of a push. A failure is kept for display; the
    /// device stays attached and the next flush pushes again.
    pub fn record_push(&mut self, ok: bool)
        requires
            old(self).wf(),
        ensures
            final(self).wf(),
            final(self)@ == after_push(old(self)@, ok),
    {
        self.push_failed = !ok;
    }

    /// Folds a received batch into the frame (its button events, then its
    /// axis events) and gives the frame to push, once for the whole batch.
    /// With no device attached the batch is dropped and nothing is pushed.
    pub fn process_controller_input(&mut self, input: &ControllerInputData) -> (r: Option<
        GamepadFrame,
    >)
        requires
            old(self).wf(),
        ensures
            final(self).wf(),
            final(self)@ == (if old(self)@.attached {
                after_batch(old(self)@, input@)
            } else {
                old(self)@
            }),
            r == flush_of(final(self)@),
    {
        if !self.attached {
            return None;
        }
        let ghost s0 = self@;
        let mut i: usize = 0;
        while i < input.button_events.len()
            invariant
                self.wf(),
                self.attached,
                i <= input.button_events@.len(),
                self@ == after_button_events(s0, input@.buttons.take(i as int)),
            decreases input.button_events@.len() - i,
        {
            let e = &input.button_events[i];
            self.apply_button(e.button.as_str(), e.pressed);
            assert(input@.buttons.take(i + 1).drop_last() =~= input@.buttons.take(i as int));
            i += 1;
        }
        assert(input@.buttons.take(i as int) =~= input@.buttons);
        let ghost s1 = self@;
        let mut j: usize = 0;
        while j < input.axis_events.len()
            invariant
                self.wf(),
                self.attached,
                j <= input.axis_events@.len(),
                self@ == after_axis_events(s1, input@.axes.take(j as int)),
            decreases input.axis_events@.len() - j,
        {
            let e = &input.axis_events[j];
            self.apply_axis(e.axis.as_str(), e.value);
            assert(input@.axes.take(j + 1).drop_last() =~= input@.axes.take(j as int));
            j += 1;
        }
        assert(input@.axes.take(j as int) =~= input@.axes);
        Some(self.gamepad_state)
    }
}

} // verus!
