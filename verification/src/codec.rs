//! Event codec: recognising inbound client frames.
//!
//! An inbound frame is a piece of text. Whether it is a channel post, a
//! direct message or a typing signal is decided structurally: the frame's
//! top-level JSON fields `channel_id`, `content` and `receiver` are read,
//! and the shapes are tried in a fixed priority order (channel post, then
//! direct message, then typing). The first shape whose required fields are
//! all present with the right types wins; a frame that fits no shape is
//! dropped. The shape decision itself is verified; only the JSON field
//! lookup is trusted to serde_json.

use vstd::prelude::*;

verus! {

/// What a single top-level JSON field of a frame holds, as far as the
/// shape matchers care: missing, null, an integer, a string, or anything
/// else (an object, an array, a boolean, or a non-integer number).
#[derive(Clone, Debug, PartialEq)]
pub enum FieldValue {
    Absent,
    Null,
    Int { n: i64 },
    Str { s: String },
    Other,
}

/// Mathematical model of a [`FieldValue`].
pub enum FieldView {
    Absent,
    Null,
    Int { n: int },
    Str { s: Seq<char> },
    Other,
}

impl View for FieldValue {
    type V = FieldView;

    open spec fn view(&self) -> FieldView {
        match self {
            FieldValue::Absent => FieldView::Absent,
            FieldValue::Null => FieldView::Null,
            FieldValue::Int { n } => FieldView::Int { n: *n as int },
            FieldValue::Str { s } => FieldView::Str { s: s@ },
            FieldValue::Other => FieldView::Other,
        }
    }
}

/// The three top-level fields the shape matchers look at, as read from one
/// inbound frame.
#[derive(Clone, Debug, PartialEq)]
pub struct RawFrame {
    pub channel_id: FieldValue,
    pub content: FieldValue,
    pub receiver: FieldValue,
}

/// Mathematical model of a [`RawFrame`].
pub struct RawFrameView {
    pub channel_id: FieldView,
    pub content: FieldView,
    pub receiver: FieldView,
}

impl View for RawFrame {
    type V = RawFrameView;

    open spec fn view(&self) -> RawFrameView {
        RawFrameView {
            channel_id: self.channel_id@,
            content: self.content@,
            receiver: self.receiver@,
        }
    }
}

/// The presence, type and value of the field named `key` in the top-level
/// JSON object written in `s`; `Absent` when `s` is not a JSON object or
/// has no such field. A function of the text and the key alone.
pub uninterp spec fn json_field_of(s: Seq<char>, key: Seq<char>) -> FieldView;

/// Relies on serde_json (`from_str`, `Value::get`, `Value::is_null`,
/// `Value::as_i64`, `Value::as_str`): the classification of one top-level
/// field of the text's JSON object, which depends on the text and the key
/// alone.
#[verifier::external_body]
fn read_json_field(text: &str, key: &str) -> (r: FieldValue)
    ensures
        r@ == json_field_of(text@, key@),
{
    let doc: Result<serde_json::Value, serde_json::Error> = serde_json::from_str(text);
    let field = match &doc { Ok(v) => v.get(key), Err(_) => None };
    match field {
        None => FieldValue::Absent,
        Some(x) if x.is_null() => FieldValue::Null,
        Some(x) => match (x.as_i64(), x.as_str()) {
            (Some(n), _) => FieldValue::Int { n },
            (_, Some(s)) => FieldValue::Str { s: s.to_string() },
            _ => FieldValue::Other,
        },
    }
}

/// The fields that the shape matchers read from the frame text.
pub open spec fn frame_fields_of(s: Seq<char>) -> RawFrameView {
    RawFrameView {
        channel_id: json_field_of(s, "channel_id"@),
        content: json_field_of(s, "content"@),
        receiver: json_field_of(s, "receiver"@),
    }
}

/// A recognised inbound client intent.
#[derive(Clone, Debug, PartialEq)]
pub enum ClientEvent {
    /// A post to a shared channel.
    PostChannel { channel_id: i64, content: String },
    /// A direct message to one named user.
    PostDirect { receiver: String, content: String },
    /// An ephemeral typing signal, optionally addressed to one user.
    Typing { channel_id: i64, receiver: Option<String> },
}

/// Mathematical model of a [`ClientEvent`].
pub enum ClientEventView {
    PostChannel { channel_id: int, content: Seq<char> },
    PostDirect { receiver: Seq<char>, content: Seq<char> },
    Typing { channel_id: int, receiver: Option<Seq<char>> },
}

impl View for ClientEvent {
    type V = ClientEventView;

    open spec fn view(&self) -> ClientEventView {
        match self {
            ClientEvent::PostChannel { channel_id, content } => ClientEventView::PostChannel {
                channel_id: *channel_id as int,
                content: content@,
            },
            ClientEvent::PostDirect { receiver, content } => ClientEventView::PostDirect {
                receiver: receiver@,
                content: content@,
            },
            ClientEvent::Typing { channel_id, receiver } => ClientEventView::Typing {
                channel_id: *channel_id as int,
                receiver: match receiver {
                    Some(r) => Some(r@),
                    None => None,
                },
            },
        }
    }
}

/// The model of an optional event, for contracts about `parse` and
/// `classify`.
pub open spec fn event_view(r: Option<ClientEvent>) -> Option<ClientEventView> {
    match r {
        Some(e) => Some(e@),
        None => None,
    }
}

/// The channel-post shape: an integer `channel_id` and a string `content`.
pub open spec fn is_channel_shape(f: RawFrameView) -> bool {
    f.channel_id is Int && f.content is Str
}

/// The direct-message shape: a string `receiver` and a string `content`.
pub open spec fn is_direct_shape(f: RawFrameView) -> bool {
    f.receiver is Str && f.content is Str
}

/// The typing shape: an integer `channel_id`, and `receiver` either
/// missing, null, or a string.
pub open spec fn is_typing_shape(f: RawFrameView) -> bool {
    f.channel_id is Int && (f.receiver is Absent || f.receiver is Null || f.receiver is Str)
}

/// The shape decision: the first matching shape, in the fixed priority
/// order channel post, direct message, typing, decides the event; no match
/// means the frame is dropped.
pub open spec fn classify_spec(f: RawFrameView) -> Option<ClientEventView> {
    if is_channel_shape(f) {
        Some(ClientEventView::PostChannel { channel_id: f.channel_id->n, content: f.content->s })
    } else if is_direct_shape(f) {
        Some(ClientEventView::PostDirect { receiver: f.receiver->s, content: f.content->s })
    } else if is_typing_shape(f) {
        Some(ClientEventView::Typing {
            channel_id: f.channel_id->n,
            receiver: if f.receiver is Str {
                Some(f.receiver->s)
            } else {
                None
            },
        })
    } else {
        None
    }
}

/// What `parse` returns on a given frame text.
pub open spec fn parse_spec(s: Seq<char>) -> Option<ClientEventView> {
    classify_spec(frame_fields_of(s))
}

/// Decides which event, if any, a frame's fields describe, trying the
/// shapes in the fixed priority order.
pub fn classify(f: &RawFrame) -> (r: Option<ClientEvent>)
    ensures
        event_view(r) == classify_spec(f@),
{
    if let FieldValue::Int { n } = &f.channel_id {
        if let FieldValue::Str { s } = &f.content {
            return Some(ClientEvent::PostChannel { channel_id: *n, content: s.clone() });
        }
    }
    if let FieldValue::Str { s: r } = &f.receiver {
        if let FieldValue::Str { s: c } = &f.content {
            return Some(ClientEvent::PostDirect { receiver: r.clone(), content: c.clone() });
        }
    }
    if let FieldValue::Int { n } = &f.channel_id {
        match &f.receiver {
            FieldValue::Absent | FieldValue::Null => {
                return Some(ClientEvent::Typing { channel_id: *n, receiver: None });
            }
            FieldValue::Str { s } => {
                return Some(ClientEvent::Typing { channel_id: *n, receiver: Some(s.clone()) });
            }
            _ => {}
        }
    }
    None
}

/// Parses one inbound frame: reads the three structural fields and runs
/// the shape decision on them.
pub fn parse(text: &str) -> (r: Option<ClientEvent>)
    ensures
        event_view(r) == parse_spec(text@),
{
    let f = RawFrame {
        channel_id: read_json_field(text, "channel_id"),
        content: read_json_field(text, "content"),
        receiver: read_json_field(text, "receiver"),
    };
    classify(&f)
}

/// Parse ordering is deterministic: a frame whose fields satisfy both the
/// channel-post shape and the typing shape (or any other shape) always
/// resolves to the channel post, never to the later-listed variant.
pub proof fn lemma_channel_shape_wins(f: RawFrameView)
    requires
        is_channel_shape(f),
    ensures
        classify_spec(f) == Some(ClientEventView::PostChannel {
            channel_id: f.channel_id->n,
            content: f.content->s,
        }),
{
}

/// The second tie-break: a frame that fits the direct-message shape but
/// not the channel-post shape always resolves to the direct message,
/// never to the later-listed typing variant, whatever else it carries.
pub proof fn lemma_direct_shape_wins_over_typing(f: RawFrameView)
    requires
        !is_channel_shape(f),
        is_direct_shape(f),
    ensures
        classify_spec(f) == Some(ClientEventView::PostDirect {
            receiver: f.receiver->s,
            content: f.content->s,
        }),
{
}

} // verus!
