//! The relay server's state machine: the one hub, the signing secret, and
//! every session ever accepted.
//!
//! The relay owns the hub and constructs a session only after the
//! presented credential verifies — a rejected upgrade leaves the whole
//! state untouched, so no partial sessions and no broadcast side effects
//! exist for it. A live session bridges its connection to the hub: its
//! inbound half runs the codec and publishes, its outbound half drains its
//! own subscription. Teardown severs exactly one subscription and closes
//! exactly one session; a closed session originates nothing any more, and
//! no other session feels it.

use vstd::prelude::*;

use crate::auth::{authenticate, claims_of, AuthError};
use crate::hub::{
    hub_wf, lemma_publish_reaches_every_subscriber, pending, receive_post, Hub, HubView,
    RecvOutcome,
};
use crate::session::{inbound_step, persist_view, step_spec, Persist};

verus! {

/// One accepted connection: the identity resolved before the upgrade, the
/// hub subscription created with it, and whether its paired loops still
/// run.
pub struct Session {
    pub identity: String,
    pub subscription: usize,
    pub open: bool,
}

/// Mathematical model of a [`Session`].
pub struct SessionView {
    pub identity: Seq<char>,
    pub subscription: nat,
    pub open: bool,
}

impl View for Session {
    type V = SessionView;

    open spec fn view(&self) -> SessionView {
        SessionView {
            identity: self.identity@,
            subscription: self.subscription as nat,
            open: self.open,
        }
    }
}

/// Mathematical state of a [`Relay`].
pub struct RelayView {
    pub hub: HubView,
    pub sessions: Seq<SessionView>,
    pub secret: Seq<u8>,
}

/// The relay's invariant: a well-formed hub, every session's subscription
/// slot inside the hub's cursor table, and no two sessions sharing a slot
/// — so tearing one session down can never touch another's subscription.
pub open spec fn relay_wf(r: RelayView) -> bool {
    &&& hub_wf(r.hub)
    &&& forall|i: int|
        0 <= i < r.sessions.len() ==> (#[trigger] r.sessions[i]).subscription
            < r.hub.cursors.len()
    &&& forall|i: int, j: int|
        0 <= i < j < r.sessions.len() ==> (#[trigger] r.sessions[i]).subscription != (
        #[trigger] r.sessions[j]).subscription
}

/// The relay server: owns the hub and the signing secret, accepts
/// upgrades, and runs every session's decisions.
pub struct Relay {
    hub: Hub,
    sessions: Vec<Session>,
    secret: Vec<u8>,
}

impl View for Relay {
    type V = RelayView;

    closed spec fn view(&self) -> RelayView {
        RelayView {
            hub: self.hub@,
            sessions: Seq::new(self.sessions@.len(), |i: int| self.sessions@[i]@),
            secret: self.secret@,
        }
    }
}

impl Relay {
    /// The relay holds its state well formed.
    pub open spec fn wf(&self) -> bool {
        relay_wf(self@)
    }

    /// Brings the relay up with its signing secret and the hub's slot
    /// count: no sessions, nothing published.
    pub fn new(secret: Vec<u8>, capacity: usize) -> (r: Relay)
        requires
            capacity >= 1,
        ensures
            r.wf(),
            r@.secret == secret@,
            r@.hub.capacity == capacity,
            r@.hub.log == Seq::<Seq<char>>::empty(),
            r@.hub.cursors == Seq::<Option<nat>>::empty(),
            r@.sessions == Seq::<SessionView>::empty(),
    {
        let r = Relay { hub: Hub::new(capacity), sessions: Vec::new(), secret };
        proof {
            assert(r@.sessions =~= Seq::<SessionView>::empty());
        }
        r
    }

    /// Accepts or rejects one upgrade request. The credential is checked
    /// first, against the relay's secret and the caller's clock; only on
    /// success is a hub subscription created and a session constructed
    /// around it, open, bound to the verified subject, its cursor at
    /// "now". A rejected credential leaves the relay — hub, log,
    /// subscriptions, sessions — exactly as it was: no partial session
    /// and no broadcast side effect exists for it.
    pub fn connect(&mut self, token: &str, now: usize) -> (r: Result<usize, AuthError>)
        requires
            old(self).wf(),
        ensures
            final(self).wf(),
            final(self)@.secret == old(self)@.secret,
            r is Ok <==> (claims_of(token@, old(self)@.secret) matches Some(c) && c.1 > now),
            match r {
                Ok(sid) => {
                    &&& claims_of(token@, old(self)@.secret) matches Some(c)
                        && final(self)@.sessions[sid as int].identity == c.0
                    &&& sid == old(self)@.sessions.len()
                    &&& final(self)@.sessions == old(self)@.sessions.push(SessionView {
                        identity: final(self)@.sessions[sid as int].identity,
                        subscription: old(self)@.hub.cursors.len(),
                        open: true,
                    })
                    &&& final(self)@.hub.log == old(self)@.hub.log
                    &&& final(self)@.hub.capacity == old(self)@.hub.capacity
                    &&& final(self)@.hub.cursors == old(self)@.hub.cursors.push(
                        Some(old(self)@.hub.log.len()),
                    )
                },
                Err(e) => final(self)@ == old(self)@ && e is InvalidCredential,
            },
    {
        let user = match authenticate(token, self.secret.as_slice(), now) {
            Ok(u) => u,
            Err(e) => {
                return Err(e);
            },
        };
        let sub = self.hub.subscribe();
        let sid = self.sessions.len();
        self.sessions.push(Session { identity: user.username, subscription: sub, open: true });
        proof {
            assert(self@.sessions =~= old(self)@.sessions.push(self@.sessions[sid as int]));
        }
        Ok(sid)
    }

    /// The inbound half's step for session `sid` on one frame. For an open
    /// session the frame's decision runs: the durable write (if the event
    /// is a recorded kind) is handed back for the gateway to attempt — its
    /// failure is the caller's to log and swallow, never a reason to skip
    /// the broadcast — and the serialized event, if any, is published to
    /// the hub. An unrecognised frame publishes nothing and changes
    /// nothing, leaving later frames undisturbed. A torn-down session
    /// originates nothing: no write, no publication.
    pub fn client_frame(&mut self, sid: usize, frame: &str) -> (persist: Option<Persist>)
        requires
            old(self).wf(),
            sid < old(self)@.sessions.len(),
        ensures
            final(self).wf(),
            final(self)@.secret == old(self)@.secret,
            final(self)@.sessions == old(self)@.sessions,
            final(self)@.hub.cursors == old(self)@.hub.cursors,
            final(self)@.hub.capacity == old(self)@.hub.capacity,
            ({
                let s = old(self)@.sessions[sid as int];
                if s.open {
                    &&& persist_view(persist) == step_spec(frame@, s.identity).0
                    &&& match step_spec(frame@, s.identity).1 {
                        Some(text) => final(self)@.hub.log == old(self)@.hub.log.push(text),
                        None => final(self)@.hub.log == old(self)@.hub.log,
                    }
                } else {
                    &&& persist is None
                    &&& final(self)@.hub.log == old(self)@.hub.log
                }
            }),
    {
        if !self.sessions[sid].open {
            return None;
        }
        let identity = self.sessions[sid].identity.clone();
        let actions = inbound_step(&identity, frame);
        match actions.publish {
            Some(text) => {
                self.hub.publish(text);
                proof {
                    assert(self@.sessions =~= old(self)@.sessions);
                }
            },
            None => {},
        }
        actions.persist
    }

    /// The outbound half's step for session `sid`: one receive attempt on
    /// that session's own subscription, with everything [`receive_post`]
    /// promises — the log and every other subscription stand still.
    pub fn outbound_next(&mut self, sid: usize) -> (r: RecvOutcome)
        requires
            old(self).wf(),
            sid < old(self)@.sessions.len(),
        ensures
            final(self).wf(),
            final(self)@.secret == old(self)@.secret,
            final(self)@.sessions == old(self)@.sessions,
            receive_post(
                old(self)@.hub,
                final(self)@.hub,
                old(self)@.sessions[sid as int].subscription as int,
                r,
            ),
    {
        let sub = self.sessions[sid].subscription;
        proof {
            assert(old(self)@.sessions[sid as int].subscription == sub as nat);
            assert(old(self)@.sessions[sid as int].subscription < old(self)@.hub.cursors.len());
        }
        let r = self.hub.receive(sub);
        proof {
            assert(self@.sessions =~= old(self)@.sessions);
        }
        r
    }

    /// Tears session `sid` down, as the race of its two halves ends: its
    /// subscription is severed and the session is closed, in one step.
    /// Afterwards it originates nothing — `client_frame` on it persists
    /// and publishes nothing — and every other session keeps its identity,
    /// its openness and its own subscription cursor untouched.
    pub fn disconnect(&mut self, sid: usize)
        requires
            old(self).wf(),
            sid < old(self)@.sessions.len(),
        ensures
            final(self).wf(),
            final(self)@.secret == old(self)@.secret,
            final(self)@.hub.capacity == old(self)@.hub.capacity,
            final(self)@.hub.log == old(self)@.hub.log,
            final(self)@.sessions.len() == old(self)@.sessions.len(),
            final(self)@.sessions[sid as int].identity == old(self)@.sessions[sid as int].identity,
            final(self)@.sessions[sid as int].subscription == old(self)@.sessions[sid as int].subscription,
            !final(self)@.sessions[sid as int].open,
            forall|i: int|
                0 <= i < old(self)@.sessions.len() && i != sid
                    ==> final(self)@.sessions[i] == old(self)@.sessions[i],
            final(self)@.hub.cursors == old(self)@.hub.cursors.update(
                old(self)@.sessions[sid as int].subscription as int,
                None,
            ),
            forall|i: int|
                0 <= i < old(self)@.sessions.len() && i != sid
                    ==> final(self)@.hub.cursors[(#[trigger] old(self)@.sessions[i]).subscription as int]
                        == old(self)@.hub.cursors[old(self)@.sessions[i].subscription as int],
    {
        let sub = self.sessions[sid].subscription;
        proof {
            assert(old(self)@.sessions[sid as int].subscription == sub as nat);
            assert(old(self)@.sessions[sid as int].subscription < old(self)@.hub.cursors.len());
        }
        self.hub.unsubscribe(sub);
        let identity = self.sessions[sid].identity.clone();
        self.sessions.set(sid, Session { identity, subscription: sub, open: false });
        proof {
            let pre = old(self)@;
            let post = self@;
            assert(post.sessions =~= pre.sessions.update(sid as int, post.sessions[sid as int]));
            assert(post.sessions[sid as int].subscription == pre.sessions[sid as int].subscription);
            assert(post.sessions[sid as int].identity == pre.sessions[sid as int].identity);
            assert forall|i: int|
                0 <= i < post.sessions.len() implies (#[trigger] post.sessions[i]).subscription
                < post.hub.cursors.len() by {
                assert(pre.sessions[i].subscription < pre.hub.cursors.len());
                assert(post.sessions[i].subscription == pre.sessions[i].subscription);
            }
            assert forall|i: int, j: int|
                0 <= i < j < post.sessions.len() implies (#[trigger] post.sessions[i]).subscription
                != (#[trigger] post.sessions[j]).subscription by {
                assert(pre.sessions[i].subscription != pre.sessions[j].subscription);
                assert(post.sessions[i].subscription == pre.sessions[i].subscription);
                assert(post.sessions[j].subscription == pre.sessions[j].subscription);
            }
            assert forall|i: int|
                0 <= i < pre.sessions.len() && i != sid implies post.hub.cursors[(
            #[trigger] pre.sessions[i]).subscription as int] == pre.hub.cursors[pre.sessions[i].subscription as int] by {
                if i < sid {
                    assert(pre.sessions[i].subscription != pre.sessions[sid as int].subscription);
                } else {
                    assert(pre.sessions[sid as int].subscription != pre.sessions[i].subscription);
                }
            }
        }
    }

    /// How many sessions the relay has ever accepted (torn-down ones
    /// included).
    pub fn session_count(&self) -> (n: usize)
        ensures
            n == self@.sessions.len(),
    {
        self.sessions.len()
    }
}

/// Fan-out reaches every session. When one session's frame is published —
/// the relay's log grows by one text — every session whose subscription is
/// still live, the publisher itself included, has that exact text at the
/// end of its pending stream: each is owed an uncorrupted copy, and only
/// the hub's documented lag-drop can remove it before it is received.
pub proof fn lemma_publication_reaches_every_session(
    pre: RelayView,
    post: RelayView,
    text: Seq<char>,
    i: int,
)
    requires
        relay_wf(pre),
        post.hub.capacity == pre.hub.capacity,
        post.hub.cursors == pre.hub.cursors,
        post.hub.log == pre.hub.log.push(text),
        0 <= i < pre.sessions.len(),
        pre.hub.cursors[pre.sessions[i].subscription as int] is Some,
    ensures
        pending(post.hub, pre.sessions[i].subscription as int).len() > 0,
        pending(post.hub, pre.sessions[i].subscription as int).last() == text,
{
    lemma_publish_reaches_every_subscriber(
        pre.hub,
        post.hub,
        text,
        pre.sessions[i].subscription as int,
    );
}

} // verus!
