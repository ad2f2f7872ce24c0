//! The receiving side's record of what arrived: a bounded log of recent
//! events with the delay each batch had, and running counters.
use vstd::prelude::*;
use crate::codec::{delay, delay_of, AxisEventView, ButtonEventView, ControllerInputData, InputBatchView};
use crate::normalizer::{NamedEvent, NamedEventView};

verus! {

/// How many recent events the log keeps.
pub const MAX_RECENT_EVENTS: usize = 100;

/// One event as it was received: when, from which controller, what, and
/// the delay of the batch it came in.
#[derive(Clone, Debug)]
pub struct ReceivedInputEvent {
    pub timestamp: u64,
    pub controller_id: u32,
    pub detail: NamedEvent,
    pub delay_ms: u64,
}

/// A received event as a view.
pub struct ReceivedView {
    pub timestamp: u64,
    pub controller_id: u32,
    pub detail: NamedEventView,
    pub delay_ms: u64,
}

impl View for ReceivedInputEvent {
    type V = ReceivedView;

    open spec fn view(&self) -> ReceivedView {
        ReceivedView {
            timestamp: self.timestamp,
            controller_id: self.controller_id,
            detail: self.detail@,
            delay_ms: self.delay_ms,
        }
    }
}

/// What the receiver holds: its counters, status line and recent events.
pub struct ReceiverView {
    pub connected_clients: u32,
    pub total_events_received: u64,
    pub recent_events: Seq<ReceivedView>,
    pub server_status: Seq<char>,
    pub last_received_timestamp: u64,
}

/// The log records of a batch received at `now` with delay `d`: its button
/// events, then its axis events.
pub open spec fn records_of(b: InputBatchView, now: u64, d: u64) -> Seq<ReceivedView> {
    b.buttons.map_values(
        |e: ButtonEventView|
            ReceivedView {
                timestamp: now,
                controller_id: b.controller_id,
                detail: NamedEventView::Button { name: e.button, pressed: e.pressed },
                delay_ms: d,
            },
    ) + b.axes.map_values(
        |e: AxisEventView|
            ReceivedView {
                timestamp: now,
                controller_id: b.controller_id,
                detail: NamedEventView::Axis { name: e.axis, value: e.value as int },
                delay_ms: d,
            },
    )
}

/// The last `n` entries of `s`, or all of them when there are fewer.
pub open spec fn keep_last<T>(s: Seq<T>, n: int) -> Seq<T> {
    if s.len() > n {
        s.subrange(s.len() - n, s.len() as int)
    } else {
        s
    }
}

/// `a + b`, held at `u64::MAX`.
pub open spec fn add_capped(a: int, b: int) -> int {
    if a + b > u64::MAX {
        u64::MAX as int
    } else {
        a + b
    }
}

/// The receiving side's log and counters.
pub struct ControllerReceiver {
    connected_clients: u32,
    total_events_received: u64,
    recent_events: Vec<ReceivedInputEvent>,
    server_status: String,
    last_received_timestamp: u64,
}

impl View for ControllerReceiver {
    type V = ReceiverView;

    closed spec fn view(&self) -> ReceiverView {
        ReceiverView {
            connected_clients: self.connected_clients,
            total_events_received: self.total_events_received,
            recent_events: self.recent_events@.map_values(|e: ReceivedInputEvent| e@),
            server_status: self.server_status@,
            last_received_timestamp: self.last_received_timestamp,
        }
    }
}

impl ControllerReceiver {
    /// An empty log, with the status saying that the server is starting.
    pub fn new() -> (r: Self)
        ensures
            r@.connected_clients == 0,
            r@.total_events_received == 0,
            r@.recent_events == Seq::<ReceivedView>::empty(),
            r@.server_status == "Starting..."@,
            r@.last_received_timestamp == 0,
    {
        let r = ControllerReceiver {
            connected_clients: 0,
            total_events_received: 0,
            recent_events: Vec::new(),
            server_status: "Starting...".to_owned(),
            last_received_timestamp: 0,
        };
        assert(r@.recent_events =~= Seq::<ReceivedView>::empty());
        r
    }

    /// Sets the status line that describes the server.
    pub fn set_server_status(&mut self, status: String)
        ensures
            final(self)@ == (ReceiverView { server_status: status@, ..old(self)@ }),
    {
        self.server_status = status;
    }

    /// Sets how many clients are connected.
    pub fn set_connected_clients(&mut self, n: u32)
        ensures
            final(self)@ == (ReceiverView { connected_clients: n, ..old(self)@ }),
    {
        self.connected_clients = n;
    }

    /// Records a batch received at `now_ms`: one log entry for each of its
    /// events, all with the batch's delay; the log keeps the most recent
    /// entries only, and the counter of received events grows by the
    /// batch's size.
    pub fn add_controller_event(&mut self, data: &ControllerInputData, now_ms: u64)
        ensures
            final(self)@.recent_events == keep_last(
                old(self)@.recent_events + records_of(
                    data@,
                    now_ms,
                    delay_of(now_ms, data.timestamp) as u64,
                ),
                MAX_RECENT_EVENTS as int,
            ),
            final(self)@.total_events_received == add_capped(
                old(self)@.total_events_received as int,
                data@.buttons.len() + data@.axes.len() as int,
            ),
            final(self)@.last_received_timestamp == now_ms,
            final(self)@.connected_clients == old(self)@.connected_clients,
            final(self)@.server_status == old(self)@.server_status,
    {
        let d = delay(now_ms, data);
        let ghost start = self@.recent_events;
        let ghost start_total = self.total_events_received as int;
        let ghost recs = records_of(data@, now_ms, d);
        let ghost nb = data@.buttons.len() as int;
        let mut i: usize = 0;
        while i < data.button_events.len()
            invariant
                i <= data@.buttons.len(),
                nb == data@.buttons.len(),
                recs == records_of(data@, now_ms, d),
                self@.recent_events == start + recs.take(i as int),
                self.total_events_received == add_capped(start_total, i as int),
                self.connected_clients == old(self).connected_clients,
                self.server_status == old(self).server_status,
            decreases data@.buttons.len() - i,
        {
            let e = &data.button_events[i];
            let ghost before = self@.recent_events;
            self.recent_events.push(
                ReceivedInputEvent {
                    timestamp: now_ms,
                    controller_id: data.controller_id,
                    detail: NamedEvent::Button { name: e.button.clone(), pressed: e.pressed },
                    delay_ms: d,
                },
            );
            self.total_events_received = self.total_events_received.saturating_add(1);
            assert(recs[i as int] == self.recent_events@.last()@);
            assert(self@.recent_events =~= before.push(recs[i as int]));
            assert(start + recs.take(i + 1) =~= (start + recs.take(i as int)).push(recs[i as int]));
            i += 1;
        }
        let mut j: usize = 0;
        while j < data.axis_events.len()
            invariant
                j <= data@.axes.len(),
                i == nb,
                nb == data@.buttons.len(),
                recs == records_of(data@, now_ms, d),
                self@.recent_events == start + recs.take(nb + j),
                self.total_events_received == add_capped(start_total, nb + j),
                self.connected_clients == old(self).connected_clients,
                self.server_status == old(self).server_status,
            decreases data@.axes.len() - j,
        {
            let e = &data.axis_events[j];
            let ghost before = self@.recent_events;
            self.recent_events.push(
                ReceivedInputEvent {
                    timestamp: now_ms,
                    controller_id: data.controller_id,
                    detail: NamedEvent::Axis { name: e.axis.clone(), value: e.value },
                    delay_ms: d,
                },
            );
            self.total_events_received = self.total_events_received.saturating_add(1);
            assert(recs[nb + j] == self.recent_events@.last()@);
            assert(self@.recent_events =~= before.push(recs[nb + j]));
            assert(start + recs.take(nb + j + 1) =~= (start + recs.take(nb + j)).push(recs[nb + j]));
            j += 1;
        }
        assert(recs.take(nb + j) =~= recs);
        let ghost all = self@.recent_events;
        let ghost raw = self.recent_events@;
        assert(raw.len() == self.recent_events.len());
        let mut dropped: usize = 0;
        while self.recent_events.len() > MAX_RECENT_EVENTS
            invariant
                self.recent_events@ == raw.subrange(dropped as int, raw.len() as int),
                dropped <= raw.len(),
                raw.len() <= usize::MAX,
                dropped > 0 ==> raw.len() - dropped >= MAX_RECENT_EVENTS,
                all == raw.map_values(|e: ReceivedInputEvent| e@),
                self.total_events_received == add_capped(start_total, nb + j),
                self.connected_clients == old(self).connected_clients,
                self.server_status == old(self).server_status,
            decreases self.recent_events@.len(),
        {
            self.recent_events.remove(0);
            assert(self.recent_events@ =~= raw.subrange(dropped + 1, raw.len() as int));
            dropped += 1;
        }
        assert(self@.recent_events =~= keep_last(all, MAX_RECENT_EVENTS as int));
        self.last_received_timestamp = now_ms;
    }

    /// How many events have been received in all (held at `u64::MAX`).
    pub fn total_events_received(&self) -> (r: u64)
        ensures
            r == self@.total_events_received,
    {
        self.total_events_received
    }

    /// The recent events, oldest first.
    pub fn recent_events(&self) -> (r: &Vec<ReceivedInputEvent>)
        ensures
            r@.map_values(|e: ReceivedInputEvent| e@) == self@.recent_events,
    {
        &self.recent_events
    }

    /// Empties the log of recent events; the counters stay.
    pub fn clear_events(&mut self)
        ensures
            final(self)@ == (ReceiverView { recent_events: Seq::empty(), ..old(self)@ }),
    {
        self.recent_events = Vec::new();
        assert(self@.recent_events =~= Seq::<ReceivedView>::empty());
    }
}

} // verus!
