use namefix_bridge::bridge::NodeBridge;
use namefix_bridge::events::{
    forward, toast_payload, BridgeEvent, EventHub, Forward, Received, ERROR_LEVEL, EVENT_BUFFER,
    EVENT_NAMESPACE, STATUS_EVENT, TOAST_EVENT, WORKER_LOST_TEXT,
};
use namefix_bridge::events::namespaced_event;
use serde_json::Value;
use tokio::sync::broadcast::error::TryRecvError;

fn event(name: &str, number: u64) -> BridgeEvent {
    BridgeEvent { name: name.to_string(), payload: Value::from(number) }
}

#[test]
fn subscriber_receives_what_is_published_after_it_subscribed() {
    let mut hub = EventHub::new();
    let mut receiver = hub.subscribe();
    assert_eq!(hub.publish(event("file", 1)), 1);
    assert_eq!(receiver.try_recv(), Ok(event("file", 1)));
    assert_eq!(receiver.try_recv(), Err(TryRecvError::Empty));
}

#[test]
fn later_subscriber_does_not_receive_earlier_events() {
    let mut hub = EventHub::new();
    let mut early = hub.subscribe();
    hub.publish(event("first", 1));
    let mut late = hub.subscribe();
    assert_eq!(late.try_recv(), Err(TryRecvError::Empty));
    hub.publish(event("second", 2));
    assert_eq!(early.try_recv(), Ok(event("first", 1)));
    assert_eq!(early.try_recv(), Ok(event("second", 2)));
    assert_eq!(late.try_recv(), Ok(event("second", 2)));
    assert_eq!(late.try_recv(), Err(TryRecvError::Empty));
}

#[test]
fn publishing_without_subscribers_reaches_nobody() {
    let mut hub = EventHub::new();
    assert_eq!(hub.publish(event("lonely", 0)), 0);
    let mut receiver = hub.subscribe();
    assert_eq!(receiver.try_recv(), Err(TryRecvError::Empty));
}

#[test]
fn every_subscriber_gets_every_event() {
    let mut hub = EventHub::new();
    let mut receivers = vec![hub.subscribe(), hub.subscribe(), hub.subscribe()];
    assert_eq!(hub.publish(event("a", 1)), 3);
    assert_eq!(hub.publish(event("b", 2)), 3);
    for receiver in receivers.iter_mut() {
        assert_eq!(receiver.try_recv(), Ok(event("a", 1)));
        assert_eq!(receiver.try_recv(), Ok(event("b", 2)));
    }
}

#[test]
fn slow_subscriber_loses_the_oldest_events() {
    assert_eq!(EVENT_BUFFER, 32);
    let mut hub = EventHub::new();
    let mut slow = hub.subscribe();
    for number in 0..40u64 {
        hub.publish(event("n", number));
    }
    assert_eq!(slow.try_recv(), Err(TryRecvError::Lagged(8)));
    for number in 8..40u64 {
        assert_eq!(slow.try_recv(), Ok(event("n", number)));
    }
    assert_eq!(slow.try_recv(), Err(TryRecvError::Empty));
}

#[test]
fn buffer_holds_exactly_its_size() {
    let mut hub = EventHub::new();
    let mut receiver = hub.subscribe();
    for number in 0..32u64 {
        hub.publish(event("n", number));
    }
    for number in 0..32u64 {
        assert_eq!(receiver.try_recv(), Ok(event("n", number)));
    }
}

#[test]
fn bridge_publishes_to_its_subscribers() {
    let mut bridge = NodeBridge::new();
    let mut before = bridge.subscribe();
    let routed = bridge.on_line(r#"{"event":"status","payload":{"running":true}}"#);
    let published = routed.event.unwrap();
    assert_eq!(bridge.publish(published.clone()), 1);
    let mut after = bridge.subscribe();
    assert_eq!(before.try_recv(), Ok(published));
    assert_eq!(after.try_recv(), Err(TryRecvError::Empty));
}

#[test]
fn namespaced_name_has_the_service_prefix() {
    assert_eq!(event("status", 0).namespaced_name(), "service://status");
    assert_eq!(event("", 0).namespaced_name(), "service://");
    assert_eq!(event("a/b", 0).namespaced_name(), "service://a/b");
}

#[test]
fn toast_payload_holds_message_and_level() {
    let payload = toast_payload("Saved", "info");
    assert_eq!(payload, serde_json::from_str::<Value>(r#"{"message":"Saved","level":"info"}"#).unwrap());
}

#[test]
fn action_failed_is_an_error_toast() {
    let event = BridgeEvent::action_failed("disk full");
    assert_eq!(event.name, "toast");
    assert_eq!(event.namespaced_name(), "service://toast");
    assert_eq!(
        event.payload,
        serde_json::from_str::<Value>(r#"{"message":"Action failed: disk full","level":"error"}"#).unwrap()
    );
}

#[test]
fn worker_lost_is_an_error_toast() {
    let event = BridgeEvent::worker_lost();
    assert_eq!(event.name, "toast");
    assert_eq!(
        event.payload,
        serde_json::from_str::<Value>(
            r#"{"level":"error","message":"The Namefix service stopped unexpectedly. Restart the application."}"#
        )
        .unwrap()
    );
}

#[test]
fn forwarder_emits_events_under_their_namespaced_name() {
    assert_eq!(
        forward(Received::Event(event("status", 3))),
        Forward::Emit { name: "service://status".to_string(), payload: Value::from(3u64) }
    );
}

#[test]
fn forwarder_goes_on_after_falling_behind_and_stops_when_the_hub_is_gone() {
    assert_eq!(forward(Received::Lagged(8)), Forward::Skip);
    assert_eq!(forward(Received::Lagged(0)), Forward::Skip);
    assert_eq!(forward(Received::Closed), Forward::Stop);
}

#[test]
fn names_of_the_fan_out() {
    assert_eq!(EVENT_NAMESPACE, "service://");
    assert_eq!(TOAST_EVENT, "toast");
    assert_eq!(STATUS_EVENT, "status");
    assert_eq!(namespaced_event(STATUS_EVENT), "service://status");
    assert_eq!(ERROR_LEVEL, "error");
    assert_eq!(WORKER_LOST_TEXT, "The Namefix service stopped unexpectedly. Restart the application.");
}
