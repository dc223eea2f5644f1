use chat_relay::auth::issue_token;
use chat_relay::hub::RecvOutcome;
use chat_relay::relay::Relay;
use chat_relay::session::Persist;

const SECRET: &[u8] = b"test-signing-secret";

fn relay() -> Relay {
    Relay::new(SECRET.to_vec(), 100)
}

fn connect(relay: &mut Relay, who: &str, now: usize) -> usize {
    let token = issue_token(who, now, SECRET).expect("signing succeeds");
    relay.connect(&token, now).expect("fresh credential accepted")
}

fn msg(s: &str) -> RecvOutcome {
    RecvOutcome::Msg { payload: s.to_string() }
}

#[test]
fn scenario_channel_post_reaches_all_including_sender() {
    let mut relay = relay();
    let a = connect(&mut relay, "A", 1000);
    let b = connect(&mut relay, "B", 1000);
    let persist = relay.client_frame(a, "{\"channel_id\":1,\"content\":\"hi\"}");
    assert_eq!(
        persist,
        Some(Persist::Channel { channel_id: 1, author: "A".to_string(), content: "hi".to_string() })
    );
    let expected = "{\"type\":\"Channel\",\"channel_id\":1,\"username\":\"A\",\"content\":\"hi\"}";
    assert_eq!(relay.outbound_next(a), msg(expected));
    assert_eq!(relay.outbound_next(b), msg(expected));
    assert_eq!(relay.outbound_next(a), RecvOutcome::Empty);
    assert_eq!(relay.outbound_next(b), RecvOutcome::Empty);
}

#[test]
fn scenario_direct_message_reaches_all_subscribers() {
    // The relay does not filter direct messages to the two parties;
    // delivery-side filtering is a client responsibility.
    let mut relay = relay();
    let a = connect(&mut relay, "A", 1000);
    let b = connect(&mut relay, "B", 1000);
    let c = connect(&mut relay, "C", 1000);
    let persist = relay.client_frame(a, "{\"receiver\":\"B\",\"content\":\"hey\"}");
    assert_eq!(
        persist,
        Some(Persist::Direct {
            sender: "A".to_string(),
            receiver: "B".to_string(),
            content: "hey".to_string(),
        })
    );
    let expected = "{\"type\":\"DM\",\"sender\":\"A\",\"receiver\":\"B\",\"content\":\"hey\"}";
    for sid in [a, b, c] {
        assert_eq!(relay.outbound_next(sid), msg(expected));
    }
}

#[test]
fn scenario_rejected_credential_leaves_no_trace() {
    let mut relay = relay();
    // Malformed credential: rejected before any subscription exists.
    assert!(relay.connect("garbage", 1000).is_err());
    assert_eq!(relay.session_count(), 0);
    // Expired credential: issued long ago, checked now.
    let stale = issue_token("A", 0, SECRET).expect("signing succeeds");
    assert!(relay.connect(&stale, 10_000_000).is_err());
    assert_eq!(relay.session_count(), 0);
    // A later, valid session observes no broadcast side effects from the
    // rejected attempts.
    let b = connect(&mut relay, "B", 1000);
    assert_eq!(relay.outbound_next(b), RecvOutcome::Empty);
}

#[test]
fn scenario_teardown_stops_writes_and_spares_others() {
    let mut relay = relay();
    let a = connect(&mut relay, "A", 1000);
    let b = connect(&mut relay, "B", 1000);
    relay.disconnect(a);
    // The torn-down session originates nothing: no durable write, no
    // publication.
    let persist = relay.client_frame(a, "{\"channel_id\":1,\"content\":\"hi\"}");
    assert_eq!(persist, None);
    assert_eq!(relay.outbound_next(b), RecvOutcome::Empty);
    assert_eq!(relay.outbound_next(a), RecvOutcome::Gone);
    // The other session is fully alive.
    let persist = relay.client_frame(b, "{\"channel_id\":2,\"content\":\"yo\"}");
    assert_eq!(
        persist,
        Some(Persist::Channel { channel_id: 2, author: "B".to_string(), content: "yo".to_string() })
    );
    assert_eq!(
        relay.outbound_next(b),
        msg("{\"type\":\"Channel\",\"channel_id\":2,\"username\":\"B\",\"content\":\"yo\"}")
    );
}

#[test]
fn unknown_frame_does_not_disturb_the_connection() {
    let mut relay = relay();
    let a = connect(&mut relay, "A", 1000);
    // A frame with fields fitting no known shape is silently dropped.
    assert_eq!(relay.client_frame(a, "{\"fields\":\"of\",\"no\":\"shape\"}"), None);
    assert_eq!(relay.outbound_next(a), RecvOutcome::Empty);
    // The next frame on the same connection behaves as if nothing happened.
    let persist = relay.client_frame(a, "{\"channel_id\":9,\"content\":\"ok\"}");
    assert!(persist.is_some());
    assert_eq!(
        relay.outbound_next(a),
        msg("{\"type\":\"Channel\",\"channel_id\":9,\"username\":\"A\",\"content\":\"ok\"}")
    );
}

#[test]
fn typing_signal_is_broadcast_but_never_persisted() {
    let mut relay = relay();
    let a = connect(&mut relay, "A", 1000);
    let b = connect(&mut relay, "B", 1000);
    assert_eq!(relay.client_frame(a, "{\"channel_id\":1,\"receiver\":\"B\"}"), None);
    let expected = "{\"type\":\"Typing\",\"username\":\"A\",\"channel_id\":1,\"sender\":\"A\"}";
    assert_eq!(relay.outbound_next(a), msg(expected));
    assert_eq!(relay.outbound_next(b), msg(expected));
}

#[test]
fn multi_device_identity_holds_two_subscriptions() {
    // One identity may hold several concurrent sessions; each gets its own
    // delivery.
    let mut relay = relay();
    let a1 = connect(&mut relay, "A", 1000);
    let a2 = connect(&mut relay, "A", 1000);
    relay.client_frame(a1, "{\"channel_id\":1,\"content\":\"hi\"}");
    let expected = "{\"type\":\"Channel\",\"channel_id\":1,\"username\":\"A\",\"content\":\"hi\"}";
    assert_eq!(relay.outbound_next(a1), msg(expected));
    assert_eq!(relay.outbound_next(a2), msg(expected));
}
