use chat_relay::codec::{parse, ClientEvent};
use chat_relay::session::{inbound_step, Persist};
use chat_relay::wire::{serialize, WsMessage};

#[test]
fn parse_channel_post_frame() {
    let ev = parse("{\"channel_id\":1,\"content\":\"hi\"}");
    assert_eq!(ev, Some(ClientEvent::PostChannel { channel_id: 1, content: "hi".to_string() }));
}

#[test]
fn parse_direct_message_frame() {
    let ev = parse("{\"receiver\":\"B\",\"content\":\"hey\"}");
    assert_eq!(
        ev,
        Some(ClientEvent::PostDirect { receiver: "B".to_string(), content: "hey".to_string() })
    );
}

#[test]
fn parse_typing_unaddressed() {
    let ev = parse("{\"channel_id\":2}");
    assert_eq!(ev, Some(ClientEvent::Typing { channel_id: 2, receiver: None }));
}

#[test]
fn parse_typing_null_receiver() {
    let ev = parse("{\"channel_id\":2,\"receiver\":null}");
    assert_eq!(ev, Some(ClientEvent::Typing { channel_id: 2, receiver: None }));
}

#[test]
fn parse_typing_addressed() {
    let ev = parse("{\"channel_id\":2,\"receiver\":\"B\"}");
    assert_eq!(
        ev,
        Some(ClientEvent::Typing { channel_id: 2, receiver: Some("B".to_string()) })
    );
}

#[test]
fn parse_priority_channel_post_wins() {
    // Satisfies the channel-post shape, the direct-message shape and the
    // typing shape at once; the fixed priority order resolves it to the
    // channel post, deterministically.
    let ev = parse("{\"channel_id\":1,\"content\":\"x\",\"receiver\":\"B\"}");
    assert_eq!(ev, Some(ClientEvent::PostChannel { channel_id: 1, content: "x".to_string() }));
}

#[test]
fn parse_priority_typing_only_without_content() {
    // Without a string `content` the first two shapes cannot match, so the
    // same fields fall through to the typing shape.
    let ev = parse("{\"channel_id\":1,\"receiver\":\"B\"}");
    assert_eq!(
        ev,
        Some(ClientEvent::Typing { channel_id: 1, receiver: Some("B".to_string()) })
    );
}

#[test]
fn parse_unknown_shape_dropped() {
    assert_eq!(parse("{\"foo\":1,\"bar\":\"x\"}"), None);
    assert_eq!(parse("{\"channel_id\":\"one\",\"content\":\"hi\"}"), None);
    assert_eq!(parse("{\"channel_id\":1.5,\"content\":\"hi\"}"), None);
    assert_eq!(parse("{\"receiver\":null,\"content\":\"hi\"}"), None);
    assert_eq!(parse("not json at all"), None);
    assert_eq!(parse("[1,2,3]"), None);
    assert_eq!(parse(""), None);
}

#[test]
fn parse_ignores_client_supplied_username() {
    let ev = parse("{\"channel_id\":1,\"content\":\"hi\",\"username\":\"Mallory\"}");
    assert_eq!(ev, Some(ClientEvent::PostChannel { channel_id: 1, content: "hi".to_string() }));
}

#[test]
fn serialize_channel_exact() {
    let m = WsMessage::Channel {
        channel_id: 1,
        username: "A".to_string(),
        content: "hi".to_string(),
    };
    assert_eq!(
        serialize(&m),
        "{\"type\":\"Channel\",\"channel_id\":1,\"username\":\"A\",\"content\":\"hi\"}"
    );
}

#[test]
fn serialize_dm_exact() {
    let m = WsMessage::DM {
        sender: "A".to_string(),
        receiver: "B".to_string(),
        content: "hey".to_string(),
    };
    assert_eq!(
        serialize(&m),
        "{\"type\":\"DM\",\"sender\":\"A\",\"receiver\":\"B\",\"content\":\"hey\"}"
    );
}

#[test]
fn serialize_typing_without_sender() {
    let m = WsMessage::Typing { username: "A".to_string(), channel_id: 3, sender: None };
    assert_eq!(
        serialize(&m),
        "{\"type\":\"Typing\",\"username\":\"A\",\"channel_id\":3,\"sender\":null}"
    );
}

#[test]
fn serialize_typing_with_sender() {
    let m = WsMessage::Typing {
        username: "A".to_string(),
        channel_id: 3,
        sender: Some("A".to_string()),
    };
    assert_eq!(
        serialize(&m),
        "{\"type\":\"Typing\",\"username\":\"A\",\"channel_id\":3,\"sender\":\"A\"}"
    );
}

#[test]
fn serialize_negative_and_large_channel_id() {
    let m = WsMessage::Channel {
        channel_id: -42,
        username: "A".to_string(),
        content: "x".to_string(),
    };
    assert_eq!(
        serialize(&m),
        "{\"type\":\"Channel\",\"channel_id\":-42,\"username\":\"A\",\"content\":\"x\"}"
    );
    let m = WsMessage::Channel {
        channel_id: i64::MIN,
        username: "A".to_string(),
        content: "x".to_string(),
    };
    assert_eq!(
        serialize(&m),
        "{\"type\":\"Channel\",\"channel_id\":-9223372036854775808,\"username\":\"A\",\"content\":\"x\"}"
    );
}

#[test]
fn serialize_escapes_strings() {
    let m = WsMessage::Channel {
        channel_id: 0,
        username: "a\"b".to_string(),
        content: "back\\slash\nline\ttab\u{0001}ctl".to_string(),
    };
    assert_eq!(
        serialize(&m),
        "{\"type\":\"Channel\",\"channel_id\":0,\"username\":\"a\\\"b\",\"content\":\"back\\\\slash\\nline\\ttab\\u0001ctl\"}"
    );
}

#[test]
fn serialized_event_is_valid_json() {
    // The verified serializer must agree with an independent JSON parser.
    let m = WsMessage::DM {
        sender: "A\n".to_string(),
        receiver: "B\"".to_string(),
        content: "hey\\".to_string(),
    };
    let text = serialize(&m);
    let v: serde_json::Value = serde_json::from_str(&text).expect("valid JSON");
    assert_eq!(v.get("type").and_then(|x| x.as_str()), Some("DM"));
    assert_eq!(v.get("sender").and_then(|x| x.as_str()), Some("A\n"));
    assert_eq!(v.get("receiver").and_then(|x| x.as_str()), Some("B\""));
    assert_eq!(v.get("content").and_then(|x| x.as_str()), Some("hey\\"));
}

#[test]
fn round_trip_channel_post_keeps_id_and_content() {
    // A well-formed channel-post frame reproduces its channel id and
    // content through parse + serialize, with the author overridden to the
    // authenticated identity even though the frame claimed another.
    let who = "A".to_string();
    let frame = "{\"channel_id\":7,\"content\":\"hello\",\"username\":\"Mallory\"}";
    let actions = inbound_step(&who, frame);
    let text = actions.publish.expect("recognised frame is published");
    assert_eq!(
        text,
        "{\"type\":\"Channel\",\"channel_id\":7,\"username\":\"A\",\"content\":\"hello\"}"
    );
    assert_eq!(
        actions.persist,
        Some(Persist::Channel { channel_id: 7, author: "A".to_string(), content: "hello".to_string() })
    );
    // The published form still parses as the same channel post.
    let again = parse(&text);
    assert_eq!(
        again,
        Some(ClientEvent::PostChannel { channel_id: 7, content: "hello".to_string() })
    );
}

#[test]
fn typing_step_is_never_persisted() {
    let who = "A".to_string();
    let actions = inbound_step(&who, "{\"channel_id\":3,\"receiver\":\"B\"}");
    assert_eq!(actions.persist, None);
    assert_eq!(
        actions.publish.as_deref(),
        Some("{\"type\":\"Typing\",\"username\":\"A\",\"channel_id\":3,\"sender\":\"A\"}")
    );
}

#[test]
fn unknown_frame_steps_to_nothing() {
    let who = "A".to_string();
    let actions = inbound_step(&who, "{\"unrelated\":true}");
    assert_eq!(actions.persist, None);
    assert_eq!(actions.publish, None);
}
