//! The session's decisions: connection state, the connect and disconnect
//! requests that the user interface raises, when a tick's batch is sent,
//! and how the client link retries.
use vstd::prelude::*;
use crate::codec::{axis_piece, button_piece, AxisEventView, ButtonEventView, ControllerInputData};
use crate::normalizer::{normalize_event, normalized, NamedEvent, NamedEventView, RawEvent};

verus! {

/// Where the link to the peer stands.
#[derive(Clone, Copy, Debug, PartialEq, Eq, Structural)]
pub enum ConnectionState {
    Disconnected,
    Connecting,
    Connected,
    ConnectFailed,
}

/// What the caller is to do next for the session.
#[derive(Clone, Debug)]
pub enum SessionAction {
    /// Open the link to this address; report the outcome with `connect_finished`.
    Connect { address: String },
    /// Close the link.
    Disconnect,
    /// Nothing is pending.
    Idle,
}

/// What a session holds: its state and the requests not yet acted on.
pub struct SessionView {
    pub state: ConnectionState,
    pub pending_connect: Option<Seq<char>>,
    pub pending_disconnect: bool,
}

/// The connection state of one session, with connect and disconnect
/// requests that are each acted on once.
pub struct Session {
    state: ConnectionState,
    pending_connect: Option<String>,
    pending_disconnect: bool,
}

impl View for Session {
    type V = SessionView;

    closed spec fn view(&self) -> SessionView {
        SessionView {
            state: self.state,
            pending_connect: match self.pending_connect {
                Some(a) => Some(a@),
                None => None,
            },
            pending_disconnect: self.pending_disconnect,
        }
    }
}

impl Session {
    /// A disconnected session with nothing pending.
    pub fn new() -> (r: Self)
        ensures
            r@ == (SessionView {
                state: ConnectionState::Disconnected,
                pending_connect: None,
                pending_disconnect: false,
            }),
    {
        Session { state: ConnectionState::Disconnected, pending_connect: None, pending_disconnect: false }
    }

    /// The current connection state.
    pub fn state(&self) -> (r: ConnectionState)
        ensures
            r == self@.state,
    {
        self.state
    }

    /// Whether the link is up.
    pub fn is_connected(&self) -> (r: bool)
        ensures
            r == (self@.state == ConnectionState::Connected),
    {
        self.state == ConnectionState::Connected
    }

    /// Asks for a connection to `address`. Taken only when the session is
    /// neither connected nor connecting and no other connect is pending, so
    /// that two attempts never run at once; gives whether it was taken.
    pub fn request_connect(&mut self, address: String) -> (r: bool)
        ensures
            r == (old(self)@.state != ConnectionState::Connected && old(self)@.state
                != ConnectionState::Connecting && old(self)@.pending_connect is None),
            r ==> final(self)@ == (SessionView { pending_connect: Some(address@), ..old(self)@ }),
            !r ==> final(self)@ == old(self)@,
    {
        if self.state == ConnectionState::Connected || self.state == ConnectionState::Connecting
            || self.pending_connect.is_some() {
            return false;
        }
        self.pending_connect = Some(address);
        true
    }

    /// Asks for the link to be closed.
    pub fn request_disconnect(&mut self)
        ensures
            final(self)@ == (SessionView { pending_disconnect: true, ..old(self)@ }),
    {
        self.pending_disconnect = true;
    }

    /// Takes the next pending request, connect first, and gives the action
    /// for it; each request yields its action exactly once.
    pub fn next_action(&mut self) -> (r: SessionAction)
        ensures
            match old(self)@.pending_connect {
                Some(a) => r matches SessionAction::Connect { address } && address@ == a
                    && final(self)@ == (SessionView {
                    state: ConnectionState::Connecting,
                    pending_connect: None,
                    ..old(self)@
                }),
                None => if old(self)@.pending_disconnect {
                    r is Disconnect && final(self)@ == (SessionView {
                        state: ConnectionState::Disconnected,
                        pending_connect: None,
                        pending_disconnect: false,
                    })
                } else {
                    r is Idle && final(self)@ == old(self)@
                },
            },
    {
        match self.pending_connect.take() {
            Some(address) => {
                self.state = ConnectionState::Connecting;
                SessionAction::Connect { address }
            },
            None => {
                if self.pending_disconnect {
                    self.pending_disconnect = false;
                    self.state = ConnectionState::Disconnected;
                    SessionAction::Disconnect
                } else {
                    SessionAction::Idle
                }
            },
        }
    }

    /// Reports the outcome of a connect attempt.
    pub fn connect_finished(&mut self, ok: bool)
        ensures
            final(self)@ == (SessionView {
                state: if ok {
                    ConnectionState::Connected
                } else {
                    ConnectionState::ConnectFailed
                },
                ..old(self)@
            }),
    {
        self.state = if ok {
            ConnectionState::Connected
        } else {
            ConnectionState::ConnectFailed
        };
    }

    /// Reports that the link broke or was closed; the session is disconnected.
    pub fn disconnect(&mut self)
        ensures
            final(self)@ == (SessionView { state: ConnectionState::Disconnected, ..old(self)@ }),
    {
        self.state = ConnectionState::Disconnected;
    }

    /// Whether a tick's batch goes out: only a batch with some event, and
    /// only while connected.
    pub fn should_send(&self, batch: &ControllerInputData) -> (r: bool)
        ensures
            r == (self@.state == ConnectionState::Connected && (batch@.buttons.len() > 0
                || batch@.axes.len() > 0)),
    {
        self.state == ConnectionState::Connected && !batch.is_empty()
    }
}

/// How long the client link waits after a failed or closed connection
/// before it tries again.
pub const RETRY_DELAY_MS: u64 = 5000;

/// What happened last on the client link.
#[derive(Clone, Copy, Debug, PartialEq, Eq, Structural)]
pub enum LinkEvent {
    /// The link has just been started.
    Started,
    /// A connect attempt succeeded.
    ConnectSucceeded,
    /// A connect attempt failed.
    ConnectFailed,
    /// An open connection ended, cleanly or not.
    Closed,
    /// The wait before a retry is over.
    WaitOver,
}

/// What the client link is to do next.
#[derive(Clone, Copy, Debug, PartialEq, Eq, Structural)]
pub enum LinkStep {
    /// Try to connect to the peer.
    Connect,
    /// Read and handle messages until the connection ends.
    Serve,
    /// Sleep this many milliseconds.
    Wait { ms: u64 },
}

/// The client link's next step: connect at the start and after each wait,
/// serve a connection that opened, and wait the fixed delay after every
/// failure or closed connection, so that it never retries in a tight loop.
pub fn client_step(event: LinkEvent) -> (r: LinkStep)
    ensures
        (event is Started || event is WaitOver) ==> r is Connect,
        event is ConnectSucceeded ==> r is Serve,
        (event is ConnectFailed || event is Closed) ==> r == (LinkStep::Wait { ms: RETRY_DELAY_MS }),
{
    match event {
        LinkEvent::Started | LinkEvent::WaitOver => LinkStep::Connect,
        LinkEvent::ConnectSucceeded => LinkStep::Serve,
        LinkEvent::ConnectFailed | LinkEvent::Closed => LinkStep::Wait { ms: RETRY_DELAY_MS },
    }
}

/// One raw event of a tick, with the id of the controller it came from.
#[derive(Clone, Copy, Debug, PartialEq, Eq, Structural)]
pub struct TickEvent {
    pub controller_id: u32,
    pub event: RawEvent,
}

/// The named events of a run of raw events, in order.
pub open spec fn named_of_tick(events: Seq<TickEvent>) -> Seq<NamedEventView>
    decreases events.len(),
{
    if events.len() == 0 {
        Seq::empty()
    } else {
        named_of_tick(events.drop_last()) + normalized(events.last().event)
    }
}

/// The button events that a run of named events contributes, stamped with `t`.
pub open spec fn buttons_of(es: Seq<NamedEventView>, t: u64) -> Seq<ButtonEventView>
    decreases es.len(),
{
    if es.len() == 0 {
        Seq::empty()
    } else {
        buttons_of(es.drop_last(), t) + button_piece(es.last(), t)
    }
}

/// The axis events that a run of named events contributes, stamped with `t`.
pub open spec fn axes_of(es: Seq<NamedEventView>, t: u64) -> Seq<AxisEventView>
    decreases es.len(),
{
    if es.len() == 0 {
        Seq::empty()
    } else {
        axes_of(es.drop_last(), t) + axis_piece(es.last(), t)
    }
}

/// The controller id that a tick's batch carries: that of its last event,
/// or `fallback` when there was none.
pub open spec fn tick_controller(events: Seq<TickEvent>, fallback: u32) -> u32 {
    if events.len() == 0 {
        fallback
    } else {
        events.last().controller_id
    }
}

/// Gathers one tick's raw events into the batch that is sent for it: each
/// event is named, dropped when it has no name, and stamped with `now_ms`;
/// the batch carries the send time and the id of the last event's
/// controller (`0` when the tick had none).
pub fn collect_tick(events: &Vec<TickEvent>, now_ms: u64) -> (r: ControllerInputData)
    ensures
        r@.timestamp == now_ms,
        r@.controller_id == tick_controller(events@, 0),
        r@.buttons == buttons_of(named_of_tick(events@), now_ms),
        r@.axes == axes_of(named_of_tick(events@), now_ms),
{
    let mut batch = ControllerInputData::new(now_ms, 0);
    let mut i: usize = 0;
    while i < events.len()
        invariant
            i <= events@.len(),
            batch@.timestamp == now_ms,
            batch@.controller_id == tick_controller(events@.take(i as int), 0),
            batch@.buttons == buttons_of(named_of_tick(events@.take(i as int)), now_ms),
            batch@.axes == axes_of(named_of_tick(events@.take(i as int)), now_ms),
        decreases events@.len() - i,
    {
        let te = events[i];
        let named = normalize_event(te.event);
        let ghost done = named_of_tick(events@.take(i as int));
        let ghost fresh = normalized(te.event);
        let mut k: usize = 0;
        while k < named.len()
            invariant
                i < events@.len(),
                te == events@[i as int],
                k <= named@.len(),
                named@.map_values(|x: NamedEvent| x@) == fresh,
                batch@.timestamp == now_ms,
                batch@.controller_id == tick_controller(events@.take(i as int), 0),
                batch@.buttons == buttons_of(done + fresh.take(k as int), now_ms),
                batch@.axes == axes_of(done + fresh.take(k as int), now_ms),
            decreases named@.len() - k,
        {
            assert((done + fresh.take(k + 1)).drop_last() =~= done + fresh.take(k as int));
            assert((done + fresh.take(k + 1)).last() == named@[k as int]@);
            batch.add_event(&named[k], now_ms);
            k += 1;
        }
        assert(fresh.take(k as int) =~= fresh);
        batch.controller_id = te.controller_id;
        assert(events@.take(i + 1).drop_last() =~= events@.take(i as int));
        i += 1;
    }
    assert(events@.take(i as int) =~= events@);
    batch
}

} // verus!
