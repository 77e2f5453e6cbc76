use subd::bus::EventBus;
use subd::bus::RecvOutcome;
use subd::types::Event;
use subd::types::TriggerHotkeyRequest;

fn hotkey_event(key: &str) -> Event {
    Event::TriggerHotkeyRequest(TriggerHotkeyRequest { hotkey: key.to_string() })
}

fn expect_event(r: RecvOutcome) -> Event {
    match r {
        RecvOutcome::Received(e) => e,
        RecvOutcome::Lagged(n) => panic!("unexpected lag of {n}"),
        RecvOutcome::Empty => panic!("unexpected empty queue"),
    }
}

#[test]
fn events_arrive_in_publish_order() {
    let mut bus = EventBus::new(8);
    let a = bus.subscribe();
    bus.publish(&hotkey_event("one"));
    bus.publish(&hotkey_event("two"));
    bus.publish(&hotkey_event("three"));
    assert_eq!(expect_event(bus.recv(a)), hotkey_event("one"));
    assert_eq!(expect_event(bus.recv(a)), hotkey_event("two"));
    assert_eq!(expect_event(bus.recv(a)), hotkey_event("three"));
    assert!(matches!(bus.recv(a), RecvOutcome::Empty));
}

#[test]
fn late_subscriber_never_sees_earlier_events() {
    let mut bus = EventBus::new(8);
    let a = bus.subscribe();
    bus.publish(&hotkey_event("before"));
    let b = bus.subscribe();
    bus.publish(&hotkey_event("after"));
    assert_eq!(expect_event(bus.recv(a)), hotkey_event("before"));
    assert_eq!(expect_event(bus.recv(a)), hotkey_event("after"));
    // The late subscriber observes only what was published after it
    // subscribed.
    assert_eq!(expect_event(bus.recv(b)), hotkey_event("after"));
    assert!(matches!(bus.recv(b), RecvOutcome::Empty));
}

#[test]
fn slow_subscriber_gets_lag_signal_then_resumes() {
    let mut bus = EventBus::new(2);
    let a = bus.subscribe();
    // Three publishes into a bound of two: the oldest is dropped for the
    // slow subscriber, and the publisher is never blocked or failed.
    bus.publish(&hotkey_event("one"));
    bus.publish(&hotkey_event("two"));
    bus.publish(&hotkey_event("three"));
    match bus.recv(a) {
        RecvOutcome::Lagged(n) => assert_eq!(n, 1),
        other => panic!("expected a lag report, got {other:?}"),
    }
    // After the lag report the subscriber resumes with the retained,
    // more recent events, still in publish order.
    assert_eq!(expect_event(bus.recv(a)), hotkey_event("two"));
    assert_eq!(expect_event(bus.recv(a)), hotkey_event("three"));
    assert!(matches!(bus.recv(a), RecvOutcome::Empty));
}

#[test]
fn lag_is_reported_once_per_gap() {
    let mut bus = EventBus::new(1);
    let a = bus.subscribe();
    bus.publish(&hotkey_event("one"));
    bus.publish(&hotkey_event("two"));
    bus.publish(&hotkey_event("three"));
    match bus.recv(a) {
        RecvOutcome::Lagged(n) => assert_eq!(n, 2),
        other => panic!("expected a lag report, got {other:?}"),
    }
    assert_eq!(expect_event(bus.recv(a)), hotkey_event("three"));
    assert!(matches!(bus.recv(a), RecvOutcome::Empty));
}

#[test]
fn publish_without_subscribers_is_not_an_error() {
    let mut bus = EventBus::new(4);
    assert_eq!(bus.active_subscribers(), 0);
    let reached = bus.publish(&hotkey_event("nobody"));
    assert_eq!(reached, 0);
    // A subscriber created afterwards still starts clean.
    let a = bus.subscribe();
    assert_eq!(bus.active_subscribers(), 1);
    assert!(matches!(bus.recv(a), RecvOutcome::Empty));
}

#[test]
fn subscriptions_are_independent() {
    let mut bus = EventBus::new(2);
    let a = bus.subscribe();
    let b = bus.subscribe();
    bus.publish(&hotkey_event("one"));
    // Only `a` reads; `b` falls behind on its own.
    assert_eq!(expect_event(bus.recv(a)), hotkey_event("one"));
    bus.publish(&hotkey_event("two"));
    bus.publish(&hotkey_event("three"));
    assert_eq!(expect_event(bus.recv(a)), hotkey_event("two"));
    assert_eq!(expect_event(bus.recv(a)), hotkey_event("three"));
    match bus.recv(b) {
        RecvOutcome::Lagged(n) => assert_eq!(n, 1),
        other => panic!("expected a lag report, got {other:?}"),
    }
    assert_eq!(expect_event(bus.recv(b)), hotkey_event("two"));
    assert_eq!(expect_event(bus.recv(b)), hotkey_event("three"));
}
