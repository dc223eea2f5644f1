use chat_relay::hub::{Hub, RecvOutcome};

fn msg(s: &str) -> RecvOutcome {
    RecvOutcome::Msg { payload: s.to_string() }
}

#[test]
fn subscription_starts_at_now_no_replay() {
    let mut hub = Hub::new(10);
    let early = hub.subscribe();
    hub.publish("before".to_string());
    let late = hub.subscribe();
    // The late subscriber replays nothing; the early one sees the payload.
    assert_eq!(hub.receive(late), RecvOutcome::Empty);
    assert_eq!(hub.receive(early), msg("before"));
    assert_eq!(hub.receive(early), RecvOutcome::Empty);
}

#[test]
fn publish_reaches_every_subscriber_equally() {
    let mut hub = Hub::new(10);
    let a = hub.subscribe();
    let b = hub.subscribe();
    let c = hub.subscribe();
    hub.publish("payload".to_string());
    for sid in [a, b, c] {
        assert_eq!(hub.receive(sid), msg("payload"));
        assert_eq!(hub.receive(sid), RecvOutcome::Empty);
    }
}

#[test]
fn publish_order_is_kept_per_subscriber() {
    let mut hub = Hub::new(10);
    let a = hub.subscribe();
    hub.publish("one".to_string());
    hub.publish("two".to_string());
    hub.publish("three".to_string());
    assert_eq!(hub.receive(a), msg("one"));
    assert_eq!(hub.receive(a), msg("two"));
    assert_eq!(hub.receive(a), msg("three"));
    assert_eq!(hub.receive(a), RecvOutcome::Empty);
}

#[test]
fn lag_drop_is_counted_and_reproducible() {
    // A deliberately overflowed bounded hub loses the oldest publications
    // for a slow subscriber: a counted, documented loss, never corruption.
    let mut hub = Hub::new(2);
    let slow = hub.subscribe();
    hub.publish("a".to_string());
    hub.publish("b".to_string());
    hub.publish("c".to_string());
    hub.publish("d".to_string());
    assert_eq!(hub.receive(slow), RecvOutcome::Lagged { missed: 2 });
    assert_eq!(hub.receive(slow), msg("c"));
    assert_eq!(hub.receive(slow), msg("d"));
    assert_eq!(hub.receive(slow), RecvOutcome::Empty);
}

#[test]
fn severed_subscription_is_gone() {
    let mut hub = Hub::new(4);
    let a = hub.subscribe();
    let b = hub.subscribe();
    hub.publish("x".to_string());
    hub.unsubscribe(a);
    assert_eq!(hub.receive(a), RecvOutcome::Gone);
    // The other subscription is untouched.
    assert_eq!(hub.receive(b), msg("x"));
}
