//! Batches of named events as they cross the link, and the delay measured
//! on arrival.
use vstd::prelude::*;
use crate::normalizer::{NamedEvent, NamedEventView};

verus! {

/// A button change under its stable name.
#[derive(Clone, Debug)]
pub struct ButtonEvent {
    pub button: String,
    pub pressed: bool,
    pub timestamp: u64,
}

/// An axis reading under its stable name, in millionths of full deflection.
#[derive(Clone, Debug)]
pub struct AxisEvent {
    pub axis: String,
    pub value: i32,
    pub timestamp: u64,
}

/// One tick's worth of named events with the sender's clock at sending.
#[derive(Clone, Debug)]
pub struct ControllerInputData {
    pub timestamp: u64,
    pub controller_id: u32,
    pub button_events: Vec<ButtonEvent>,
    pub axis_events: Vec<AxisEvent>,
}

/// A button event with its name as characters.
pub struct ButtonEventView {
    pub button: Seq<char>,
    pub pressed: bool,
    pub timestamp: u64,
}

/// An axis event with its name as characters.
pub struct AxisEventView {
    pub axis: Seq<char>,
    pub value: i32,
    pub timestamp: u64,
}

/// A batch with its events as views.
pub struct InputBatchView {
    pub timestamp: u64,
    pub controller_id: u32,
    pub buttons: Seq<ButtonEventView>,
    pub axes: Seq<AxisEventView>,
}

impl View for ButtonEvent {
    type V = ButtonEventView;

    open spec fn view(&self) -> ButtonEventView {
        ButtonEventView { button: self.button@, pressed: self.pressed, timestamp: self.timestamp }
    }
}

impl View for AxisEvent {
    type V = AxisEventView;

    open spec fn view(&self) -> AxisEventView {
        AxisEventView { axis: self.axis@, value: self.value, timestamp: self.timestamp }
    }
}

impl View for ControllerInputData {
    type V = InputBatchView;

    open spec fn view(&self) -> InputBatchView {
        InputBatchView {
            timestamp: self.timestamp,
            controller_id: self.controller_id,
            buttons: self.button_events@.map_values(|e: ButtonEvent| e@),
            axes: self.axis_events@.map_values(|e: AxisEvent| e@),
        }
    }
}

/// The delay of a batch that arrives at `now_ms`: how long after its send
/// time, or zero when the receiver's clock reads earlier than the sender's.
pub open spec fn delay_of(now_ms: u64, sent_ms: u64) -> int {
    if now_ms >= sent_ms {
        now_ms - sent_ms
    } else {
        0
    }
}

/// The button events that a named event contributes, stamped with `t`.
pub open spec fn button_piece(e: NamedEventView, t: u64) -> Seq<ButtonEventView> {
    match e {
        NamedEventView::Button { name, pressed } => seq![
            ButtonEventView { button: name, pressed, timestamp: t },
        ],
        NamedEventView::Axis { .. } => Seq::empty(),
    }
}

/// The axis events that a named event contributes, stamped with `t`.
pub open spec fn axis_piece(e: NamedEventView, t: u64) -> Seq<AxisEventView> {
    match e {
        NamedEventView::Button { .. } => Seq::empty(),
        NamedEventView::Axis { name, value } => seq![
            AxisEventView { axis: name, value: value as i32, timestamp: t },
        ],
    }
}

/// The batch after `e` is added with time `t`: a button change joins the
/// button events, an axis reading the axis events.
pub open spec fn with_event(b: InputBatchView, e: NamedEventView, t: u64) -> InputBatchView {
    InputBatchView { buttons: b.buttons + button_piece(e, t), axes: b.axes + axis_piece(e, t), ..b }
}

/// One-way delay of `batch` measured at `now_ms`, clamped at zero.
pub fn delay(now_ms: u64, batch: &ControllerInputData) -> (r: u64)
    ensures
        r as int == delay_of(now_ms, batch.timestamp),
{
    if now_ms >= batch.timestamp {
        now_ms - batch.timestamp
    } else {
        0
    }
}

impl ControllerInputData {
    /// An empty batch stamped with the send time and the controller it is from.
    pub fn new(timestamp: u64, controller_id: u32) -> (r: Self)
        ensures
            r@ == (InputBatchView {
                timestamp,
                controller_id,
                buttons: Seq::empty(),
                axes: Seq::empty(),
            }),
    {
        let r = ControllerInputData {
            timestamp,
            controller_id,
            button_events: Vec::new(),
            axis_events: Vec::new(),
        };
        assert(r@.buttons =~= Seq::empty());
        assert(r@.axes =~= Seq::empty());
        r
    }

    /// Adds a named event, stamped with `timestamp`, at the end of its list.
    pub fn add_event(&mut self, e: &NamedEvent, timestamp: u64)
        ensures
            final(self)@ == with_event(old(self)@, e@, timestamp),
    {
        match e {
            NamedEvent::Button { name, pressed } => {
                self.button_events.push(
                    ButtonEvent { button: name.clone(), pressed: *pressed, timestamp },
                );
            },
            NamedEvent::Axis { name, value } => {
                self.axis_events.push(AxisEvent { axis: name.clone(), value: *value, timestamp });
            },
        }
        assert(self@.buttons =~= with_event(old(self)@, e@, timestamp).buttons);
        assert(self@.axes =~= with_event(old(self)@, e@, timestamp).axes);
    }

    /// Whether the batch holds no event at all.
    pub fn is_empty(&self) -> (r: bool)
        ensures
            r == (self@.buttons.len() == 0 && self@.axes.len() == 0),
    {
        self.button_events.len() == 0 && self.axis_events.len() == 0
    }
}

} // verus!
