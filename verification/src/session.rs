//! The connection session's inbound decision.
//!
//! A session pairs one inbound half (read a frame, decide, persist,
//! publish) with one outbound half (drain the hub subscription, write to
//! the connection). Everything the inbound half decides about one frame is
//! the pure step here: which durable write to attempt (failures there are
//! non-fatal and never stop the broadcast) and which wire text to publish.
//! The loops around it only perform those actions and hand back the next
//! frame.

use vstd::prelude::*;

use crate::codec::{parse, parse_spec, ClientEvent, ClientEventView};
use crate::wire::{serialize, serialize_spec, WsMessage, WsMessageView};

verus! {

/// A durable write the relay asks of the persistence gateway. The gateway
/// may fail; the relay logs and swallows that, by design.
#[derive(Clone, Debug, PartialEq)]
pub enum Persist {
    /// Append a channel post under its author.
    Channel { channel_id: i64, author: String, content: String },
    /// Append a direct message.
    Direct { sender: String, receiver: String, content: String },
}

/// Mathematical model of a [`Persist`] command.
pub enum PersistView {
    Channel { channel_id: int, author: Seq<char>, content: Seq<char> },
    Direct { sender: Seq<char>, receiver: Seq<char>, content: Seq<char> },
}

impl View for Persist {
    type V = PersistView;

    open spec fn view(&self) -> PersistView {
        match self {
            Persist::Channel { channel_id, author, content } => PersistView::Channel {
                channel_id: *channel_id as int,
                author: author@,
                content: content@,
            },
            Persist::Direct { sender, receiver, content } => PersistView::Direct {
                sender: sender@,
                receiver: receiver@,
                content: content@,
            },
        }
    }
}

/// What one inbound frame makes the session do: at most one durable write,
/// then at most one publication. Both `None` exactly when the frame was
/// unrecognised and silently dropped.
#[derive(Clone, Debug, PartialEq)]
pub struct StepActions {
    /// The durable write to attempt first, for the recorded kinds.
    pub persist: Option<Persist>,
    /// The wire text to publish to the hub.
    pub publish: Option<String>,
}

/// The model of an optional persist command.
pub open spec fn persist_view(p: Option<Persist>) -> Option<PersistView> {
    match p {
        Some(c) => Some(c@),
        None => None,
    }
}

/// The model of an optional publication text.
pub open spec fn publish_view(p: Option<String>) -> Option<Seq<char>> {
    match p {
        Some(t) => Some(t@),
        None => None,
    }
}

/// The outbound event a recognised client event becomes, tagged with the
/// session's authenticated identity `who`. The author is injected here,
/// server-side: whatever identity-like field the client frame itself
/// carried is never consulted. An addressed typing signal echoes the
/// author as its sender; an unaddressed one carries none.
pub open spec fn server_event_of(ev: ClientEventView, who: Seq<char>) -> WsMessageView {
    match ev {
        ClientEventView::PostChannel { channel_id, content } => WsMessageView::Channel {
            channel_id,
            username: who,
            content,
        },
        ClientEventView::PostDirect { receiver, content } => WsMessageView::DM {
            sender: who,
            receiver,
            content,
        },
        ClientEventView::Typing { channel_id, receiver } => WsMessageView::Typing {
            username: who,
            channel_id,
            sender: if receiver is Some {
                Some(who)
            } else {
                None
            },
        },
    }
}

/// The durable write a recognised client event asks for: channel posts and
/// direct messages are recorded under the session's identity; typing
/// signals are ephemeral and never persisted.
pub open spec fn persist_of(ev: ClientEventView, who: Seq<char>) -> Option<PersistView> {
    match ev {
        ClientEventView::PostChannel { channel_id, content } => Some(PersistView::Channel {
            channel_id,
            author: who,
            content,
        }),
        ClientEventView::PostDirect { receiver, content } => Some(PersistView::Direct {
            sender: who,
            receiver,
            content,
        }),
        ClientEventView::Typing { .. } => None,
    }
}

/// Everything one frame makes the session do, as a pair (durable write,
/// publication text).
pub open spec fn step_spec(frame: Seq<char>, who: Seq<char>) -> (Option<PersistView>, Option<
    Seq<char>,
>) {
    match parse_spec(frame) {
        None => (None, None),
        Some(ev) => (persist_of(ev, who), Some(serialize_spec(server_event_of(ev, who)))),
    }
}

/// The inbound half's decision on one frame, for the session bound to
/// `identity`: parse it, and for a recognised event produce the durable
/// write (if its kind is recorded) and the serialized outbound event; an
/// unrecognised frame produces nothing at all.
pub fn inbound_step(identity: &String, frame: &str) -> (r: StepActions)
    ensures
        persist_view(r.persist) == step_spec(frame@, identity@).0,
        publish_view(r.publish) == step_spec(frame@, identity@).1,
{
    match parse(frame) {
        None => StepActions { persist: None, publish: None },
        Some(ev) => {
            let (persist, msg) = match ev {
                ClientEvent::PostChannel { channel_id, content } => (
                    Some(Persist::Channel {
                        channel_id,
                        author: identity.clone(),
                        content: content.clone(),
                    }),
                    WsMessage::Channel { channel_id, username: identity.clone(), content },
                ),
                ClientEvent::PostDirect { receiver, content } => (
                    Some(Persist::Direct {
                        sender: identity.clone(),
                        receiver: receiver.clone(),
                        content: content.clone(),
                    }),
                    WsMessage::DM { sender: identity.clone(), receiver, content },
                ),
                ClientEvent::Typing { channel_id, receiver } => (
                    None,
                    WsMessage::Typing {
                        username: identity.clone(),
                        channel_id,
                        sender: if receiver.is_some() {
                            Some(identity.clone())
                        } else {
                            None
                        },
                    },
                ),
            };
            let text = serialize(&msg);
            StepActions { persist, publish: Some(text) }
        },
    }
}

/// Round trip of a channel post: a frame the codec recognises as a channel
/// post is published as the Channel event that carries the frame's own
/// channel id and content unchanged — and its author is the session's
/// authenticated identity, whatever username field the frame itself may
/// have carried.
pub proof fn lemma_channel_post_round_trip(frame: Seq<char>, who: Seq<char>)
    requires
        parse_spec(frame) matches Some(ev) && ev is PostChannel,
    ensures
        step_spec(frame, who).1 == Some(serialize_spec(WsMessageView::Channel {
            channel_id: parse_spec(frame)->0->PostChannel_channel_id,
            username: who,
            content: parse_spec(frame)->0->PostChannel_content,
        })),
        step_spec(frame, who).0 == Some(PersistView::Channel {
            channel_id: parse_spec(frame)->0->PostChannel_channel_id,
            author: who,
            content: parse_spec(frame)->0->PostChannel_content,
        }),
{
}

/// An unrecognised frame — one whose fields fit no known shape — is
/// dropped in place: no durable write and no publication. It leaves no
/// trace in any state, so every later frame on the same connection
/// behaves exactly as if the dropped one had never arrived.
pub proof fn lemma_unknown_frame_dropped(frame: Seq<char>, who: Seq<char>)
    requires
        parse_spec(frame) is None,
    ensures
        step_spec(frame, who) == (None::<PersistView>, None::<Seq<char>>),
{
}

} // verus!
