//! The broadcast hub: the one structure shared by every session.
//!
//! The hub is a bounded single-publisher-set, multi-subscriber fan-out: a
//! log of publications and one read cursor per subscription. Subscribing
//! places a fresh cursor at "now" (no replay); publishing appends to the
//! log and never blocks, never waits for slow subscribers; receiving
//! delivers the next pending publication, and a subscriber that has fallen
//! more than the fixed capacity behind observes a lag indication — a
//! documented, counted loss, never a corrupted payload — and is moved
//! forward to the oldest retained publication.
//!
//! This model is the contract the relay is verified against; the process
//! state it models is the fan-out channel the running server drives.

use vstd::prelude::*;

verus! {

/// Mathematical state of a [`Hub`]: the fixed slot count, every payload
/// ever published (in publish order), and each subscription's read cursor
/// (`None` once severed).
pub struct HubView {
    pub capacity: nat,
    pub log: Seq<Seq<char>>,
    pub cursors: Seq<Option<nat>>,
}

/// Every live cursor lies within the log, and the hub holds at least one
/// slot.
pub open spec fn hub_wf(h: HubView) -> bool {
    &&& h.capacity >= 1
    &&& forall|i: int|
        0 <= i < h.cursors.len() ==> (#[trigger] h.cursors[i] matches Some(c) ==> c
            <= h.log.len())
}

/// The publications a live subscription would still receive if it drained
/// now: the log's tail from its cursor, capped to the last `capacity`
/// entries.
pub open spec fn pending(h: HubView, sid: int) -> Seq<Seq<char>>
    recommends
        0 <= sid < h.cursors.len(),
        h.cursors[sid] is Some,
{
    let c = match h.cursors[sid] {
        Some(c) => c as int,
        None => 0,
    };
    let start = if h.log.len() - h.capacity > c {
        h.log.len() - h.capacity
    } else {
        c
    };
    h.log.skip(start)
}

/// Everything one receive attempt on subscription `sid` promises: the log
/// and every other cursor stand still, and the outcome tells exactly what
/// happened to this cursor.
///
/// - a severed subscription yields `Gone` and nothing changes;
/// - a cursor at the log's end yields `Empty` and nothing changes;
/// - a cursor more than `capacity` behind yields `Lagged` with the exact
///   number of publications lost to it, and jumps to the oldest retained
///   one;
/// - otherwise the publication under the cursor is delivered unchanged and
///   the cursor advances past it.
pub open spec fn receive_post(pre: HubView, post: HubView, sid: int, r: RecvOutcome) -> bool {
    &&& post.capacity == pre.capacity
    &&& post.log == pre.log
    &&& post.cursors.len() == pre.cursors.len()
    &&& forall|j: int| 0 <= j < pre.cursors.len() && j != sid ==> post.cursors[j] == pre.cursors[j]
    &&& match r {
        RecvOutcome::Gone => {
            &&& pre.cursors[sid] is None
            &&& post.cursors[sid] is None
        },
        RecvOutcome::Empty => {
            &&& pre.cursors[sid] matches Some(c) && c == pre.log.len()
            &&& post.cursors[sid] == pre.cursors[sid]
        },
        RecvOutcome::Lagged { missed } => {
            &&& pre.cursors[sid] matches Some(c) && pre.log.len() - c > pre.capacity && missed
                == pre.log.len() - pre.capacity - c
            &&& post.cursors[sid] == Some((pre.log.len() - pre.capacity) as nat)
        },
        RecvOutcome::Msg { payload } => {
            &&& pre.cursors[sid] matches Some(c) && c < pre.log.len() && pre.log.len() - c
                <= pre.capacity && payload@ == pre.log[c as int] && post.cursors[sid] == Some(
                (c + 1) as nat,
            )
        },
    }
}

/// The process-wide publish/subscribe primitive: bounded capacity, one
/// independent read cursor per subscription.
pub struct Hub {
    capacity: usize,
    log: Vec<String>,
    cursors: Vec<Option<usize>>,
}

impl View for Hub {
    type V = HubView;

    closed spec fn view(&self) -> HubView {
        HubView {
            capacity: self.capacity as nat,
            log: Seq::new(self.log@.len(), |i: int| self.log@[i]@),
            cursors: Seq::new(
                self.cursors@.len(),
                |i: int|
                    match self.cursors@[i] {
                        Some(c) => Some(c as nat),
                        None => None,
                    },
            ),
        }
    }
}

/// What one receive attempt yields.
#[derive(Clone, Debug, PartialEq)]
pub enum RecvOutcome {
    /// The next pending payload, delivered exactly once to this
    /// subscription.
    Msg { payload: String },
    /// The subscription fell behind the bounded capacity: `missed`
    /// publications were dropped for it and its cursor jumped to the
    /// oldest retained one.
    Lagged { missed: usize },
    /// Nothing pending right now.
    Empty,
    /// The subscription was severed.
    Gone,
}

impl Hub {
    /// A hub holds its state well formed.
    pub open spec fn wf(&self) -> bool {
        hub_wf(self@)
    }

    /// Creates the hub with a fixed number of retained slots; it starts
    /// with no publications and no subscriptions.
    pub fn new(capacity: usize) -> (h: Hub)
        requires
            capacity >= 1,
        ensures
            h.wf(),
            h@.capacity == capacity,
            h@.log == Seq::<Seq<char>>::empty(),
            h@.cursors == Seq::<Option<nat>>::empty(),
    {
        let h = Hub { capacity, log: Vec::new(), cursors: Vec::new() };
        proof {
            assert(h@.log =~= Seq::<Seq<char>>::empty());
            assert(h@.cursors =~= Seq::<Option<nat>>::empty());
        }
        h
    }

    /// Opens a new independent subscription whose cursor sits at "now":
    /// it will see every later publication and replays nothing older. No
    /// existing cursor and no publication is touched.
    pub fn subscribe(&mut self) -> (sid: usize)
        requires
            old(self).wf(),
        ensures
            final(self).wf(),
            sid == old(self)@.cursors.len(),
            final(self)@.capacity == old(self)@.capacity,
            final(self)@.log == old(self)@.log,
            final(self)@.cursors == old(self)@.cursors.push(Some(old(self)@.log.len())),
    {
        let sid = self.cursors.len();
        let pos = self.log.len();
        self.cursors.push(Some(pos));
        proof {
            assert(self@.log =~= old(self)@.log);
            assert(self@.cursors =~= old(self)@.cursors.push(Some(old(self)@.log.len())));
        }
        sid
    }

    /// Publishes one payload: it is appended to the log, entering every
    /// live subscription's pending stream, and no cursor moves — a
    /// publisher never blocks on slow subscribers.
    pub fn publish(&mut self, msg: String)
        requires
            old(self).wf(),
        ensures
            final(self).wf(),
            final(self)@.capacity == old(self)@.capacity,
            final(self)@.cursors == old(self)@.cursors,
            final(self)@.log == old(self)@.log.push(msg@),
    {
        self.log.push(msg);
        proof {
            assert(self@.cursors =~= old(self)@.cursors);
            assert(self@.log =~= old(self)@.log.push(msg@));
        }
    }

    /// One receive attempt on one subscription: exactly one of four
    /// outcomes ([`receive_post`]), and no other subscription's cursor
    /// ever moves.
    pub fn receive(&mut self, sid: usize) -> (r: RecvOutcome)
        requires
            old(self).wf(),
            sid < old(self)@.cursors.len(),
        ensures
            final(self).wf(),
            receive_post(old(self)@, final(self)@, sid as int, r),
    {
        let cur = self.cursors[sid];
        match cur {
            None => RecvOutcome::Gone,
            Some(c) => {
                let len = self.log.len();
                if c == len {
                    RecvOutcome::Empty
                } else if len - c > self.capacity {
                    let newpos = len - self.capacity;
                    let missed = newpos - c;
                    self.cursors.set(sid, Some(newpos));
                    proof {
                        assert(self@.log =~= old(self)@.log);
                        assert(forall|j: int|
                            0 <= j < old(self)@.cursors.len() && j != sid
                                ==> self@.cursors[j] == old(self)@.cursors[j]);
                    }
                    RecvOutcome::Lagged { missed }
                } else {
                    let payload = self.log[c].clone();
                    self.cursors.set(sid, Some(c + 1));
                    proof {
                        assert(self@.log =~= old(self)@.log);
                        assert(forall|j: int|
                            0 <= j < old(self)@.cursors.len() && j != sid
                                ==> self@.cursors[j] == old(self)@.cursors[j]);
                    }
                    RecvOutcome::Msg { payload }
                }
            },
        }
    }

    /// Severs one subscription; its cursor is gone for good, everything
    /// else stays.
    pub fn unsubscribe(&mut self, sid: usize)
        requires
            old(self).wf(),
            sid < old(self)@.cursors.len(),
        ensures
            final(self).wf(),
            final(self)@.capacity == old(self)@.capacity,
            final(self)@.log == old(self)@.log,
            final(self)@.cursors == old(self)@.cursors.update(sid as int, None),
    {
        self.cursors.set(sid, None);
        proof {
            assert(self@.log =~= old(self)@.log);
            assert(self@.cursors =~= old(self)@.cursors.update(sid as int, None));
        }
    }
}

/// Receive walks the pending stream and nothing else. An `Empty` outcome
/// means nothing is pending; a delivered payload is exactly the head of
/// the pending stream, which shrinks by exactly that one item — at-most-once
/// delivery, in publish order; and a lag indication drops nothing further:
/// the loss it reports is already reflected in the capped pending stream,
/// which it leaves unchanged.
pub proof fn lemma_receive_walks_pending(pre: HubView, post: HubView, sid: int, r: RecvOutcome)
    requires
        hub_wf(pre),
        0 <= sid < pre.cursors.len(),
        receive_post(pre, post, sid, r),
    ensures
        r is Empty ==> pending(pre, sid).len() == 0 && pending(post, sid) == pending(pre, sid),
        r matches RecvOutcome::Msg { payload } ==> pending(pre, sid).len() > 0 && payload@
            == pending(pre, sid).first() && pending(post, sid) == pending(pre, sid).skip(1),
        r matches RecvOutcome::Lagged { missed } ==> pending(post, sid) == pending(pre, sid),
{
    match r {
        RecvOutcome::Empty => {
            assert(pending(post, sid) =~= pending(pre, sid));
        },
        RecvOutcome::Msg { payload } => {
            assert(pending(post, sid) =~= pending(pre, sid).skip(1));
        },
        RecvOutcome::Lagged { missed } => {
            assert(pending(post, sid) =~= pending(pre, sid));
        },
        RecvOutcome::Gone => {
        },
    }
}

/// Fan-out reaches every subscriber. After one publication, every live
/// subscription's pending stream — the publisher's own included — is
/// non-empty and ends with a payload equal to the published one: every
/// subscriber is owed an uncorrupted copy, and only the documented
/// lag-drop of a cursor more than `capacity` behind can remove it before
/// it is received.
pub proof fn lemma_publish_reaches_every_subscriber(
    pre: HubView,
    post: HubView,
    payload: Seq<char>,
    sid: int,
)
    requires
        hub_wf(pre),
        post.capacity == pre.capacity,
        post.cursors == pre.cursors,
        post.log == pre.log.push(payload),
        0 <= sid < pre.cursors.len(),
        pre.cursors[sid] is Some,
    ensures
        pending(post, sid).len() > 0,
        pending(post, sid).last() == payload,
{
    assert(pre.cursors[sid] matches Some(c) && c <= pre.log.len());
    assert(post.log.len() == pre.log.len() + 1);
    assert(post.log.last() == payload);
}

} // verus!
