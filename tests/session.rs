use padlink::codec::{delay, ControllerInputData};
use padlink::normalizer::{NamedEvent, RawAxis, RawButton, RawEvent};
use padlink::session::{
    client_step, collect_tick, ConnectionState, LinkEvent, LinkStep, Session, SessionAction,
    TickEvent, RETRY_DELAY_MS,
};

#[test]
fn delay_is_the_clock_difference() {
    let b = ControllerInputData::new(900, 0);
    assert_eq!(delay(1000, &b), 100);
    assert_eq!(delay(900, &b), 0);
}

#[test]
fn delay_is_zero_when_the_receiver_is_behind() {
    let b = ControllerInputData::new(1000, 0);
    assert_eq!(delay(900, &b), 0);
    let b = ControllerInputData::new(u64::MAX, 0);
    assert_eq!(delay(0, &b), 0);
}

#[test]
fn connect_request_is_acted_on_once() {
    let mut s = Session::new();
    assert!(s.request_connect("10.0.0.2:8080".to_string()));
    assert!(!s.request_connect("10.0.0.3:8080".to_string()));
    match s.next_action() {
        SessionAction::Connect { address } => assert_eq!(address, "10.0.0.2:8080"),
        other => panic!("unexpected {:?}", other),
    }
    assert_eq!(s.state(), ConnectionState::Connecting);
    assert!(matches!(s.next_action(), SessionAction::Idle));
    assert!(!s.request_connect("10.0.0.3:8080".to_string()));
    s.connect_finished(true);
    assert!(s.is_connected());
}

#[test]
fn failed_connect_can_be_retried() {
    let mut s = Session::new();
    s.request_connect("a".to_string());
    s.next_action();
    s.connect_finished(false);
    assert_eq!(s.state(), ConnectionState::ConnectFailed);
    assert!(s.request_connect("a".to_string()));
}

#[test]
fn disconnect_request_closes_the_session() {
    let mut s = Session::new();
    s.request_connect("a".to_string());
    s.next_action();
    s.connect_finished(true);
    s.request_disconnect();
    assert!(matches!(s.next_action(), SessionAction::Disconnect));
    assert_eq!(s.state(), ConnectionState::Disconnected);
    assert!(matches!(s.next_action(), SessionAction::Idle));
}

#[test]
fn only_non_empty_batches_go_out_while_connected() {
    let mut s = Session::new();
    let mut b = ControllerInputData::new(1, 0);
    b.add_event(&NamedEvent::Button { name: "A (South)".to_string(), pressed: true }, 1);
    assert!(!s.should_send(&b));
    s.request_connect("a".to_string());
    s.next_action();
    s.connect_finished(true);
    assert!(s.should_send(&b));
    assert!(!s.should_send(&ControllerInputData::new(1, 0)));
    s.disconnect();
    assert!(!s.should_send(&b));
}

#[test]
fn tick_collects_named_events() {
    let events = vec![
        TickEvent { controller_id: 3, event: RawEvent::ButtonPressed(RawButton::South) },
        TickEvent { controller_id: 3, event: RawEvent::ButtonPressed(RawButton::C) },
        TickEvent { controller_id: 4, event: RawEvent::AxisChanged(RawAxis::LeftZ, 600_000) },
    ];
    let b = collect_tick(&events, 77);
    assert_eq!(b.timestamp, 77);
    assert_eq!(b.controller_id, 4);
    assert_eq!(b.button_events.len(), 2);
    assert_eq!(b.button_events[0].button, "A (South)");
    assert!(b.button_events[0].pressed);
    assert_eq!(b.button_events[1].button, "LT");
    assert!(b.button_events[1].pressed);
    assert_eq!(b.button_events[1].timestamp, 77);
    assert_eq!(b.axis_events.len(), 1);
    assert_eq!(b.axis_events[0].axis, "LT Axis");
    assert_eq!(b.axis_events[0].value, 600_000);
}

#[test]
fn empty_tick_gives_empty_batch() {
    let b = collect_tick(&vec![], 5);
    assert!(b.is_empty());
    assert_eq!(b.controller_id, 0);
}

#[test]
fn client_link_waits_after_failures() {
    assert_eq!(client_step(LinkEvent::Started), LinkStep::Connect);
    assert_eq!(client_step(LinkEvent::ConnectSucceeded), LinkStep::Serve);
    assert_eq!(client_step(LinkEvent::ConnectFailed), LinkStep::Wait { ms: RETRY_DELAY_MS });
    assert_eq!(client_step(LinkEvent::Closed), LinkStep::Wait { ms: 5000 });
    assert_eq!(client_step(LinkEvent::WaitOver), LinkStep::Connect);
}

#[test]
fn clock_reads_after_the_epoch() {
    let t = padlink::clock::get_current_timestamp();
    // 2020-01-01 in milliseconds since the epoch.
    assert!(t > 1_577_836_800_000);
}
