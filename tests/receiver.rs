use padlink::codec::{AxisEvent, ButtonEvent, ControllerInputData};
use padlink::normalizer::NamedEvent;
use padlink::receiver::{ControllerReceiver, MAX_RECENT_EVENTS};

fn batch(ts: u64, buttons: usize) -> ControllerInputData {
    ControllerInputData {
        timestamp: ts,
        controller_id: 2,
        button_events: (0..buttons)
            .map(|i| ButtonEvent { button: format!("B{}", i), pressed: i % 2 == 0, timestamp: ts })
            .collect(),
        axis_events: vec![AxisEvent { axis: "Left Stick X".to_string(), value: 300_000, timestamp: ts }],
    }
}

#[test]
fn received_events_carry_the_batch_delay() {
    let mut r = ControllerReceiver::new();
    r.add_controller_event(&batch(1000, 2), 1040);
    let ev = r.recent_events();
    assert_eq!(ev.len(), 3);
    assert!(ev.iter().all(|e| e.delay_ms == 40 && e.timestamp == 1040 && e.controller_id == 2));
    match &ev[2].detail {
        NamedEvent::Axis { name, value } => {
            assert_eq!(name, "Left Stick X");
            assert_eq!(*value, 300_000);
        }
        _ => panic!("expected the axis event last"),
    }
    assert_eq!(r.total_events_received(), 3);
}

#[test]
fn log_keeps_only_recent_events() {
    let mut r = ControllerReceiver::new();
    r.add_controller_event(&batch(5, 70), 4);
    r.add_controller_event(&batch(5, 70), 6);
    assert_eq!(r.recent_events().len(), MAX_RECENT_EVENTS);
    assert_eq!(r.total_events_received(), 142);
    // The newest entry is the second batch's axis event, with delay 1.
    let last = r.recent_events().last().unwrap();
    assert_eq!(last.delay_ms, 1);
    assert_eq!(r.recent_events()[0].delay_ms, 0);
    r.clear_events();
    assert!(r.recent_events().is_empty());
    assert_eq!(r.total_events_received(), 142);
}
