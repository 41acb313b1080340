//! Bounded broadcast channel for document update notifications.
//!
//! Every successful apply on a document publishes one notification.  The
//! channel is bounded: when it is full, publishing drops the oldest buffered
//! notification rather than blocking the writer, so a slow subscriber loses
//! the oldest notifications and must re-synchronize explicitly.  Receivers
//! are cursors over the publish history; a receiver never observes a
//! notification that it published itself (no echo), and observes every other
//! notification that is still buffered exactly once, in publish order.

use vstd::prelude::*;

use crate::crdt::clone_bytes;

verus! {

/// Notification of one document update: the payload that was merged and the
/// session that submitted it.
pub struct UpdateNotification {
    /// The binary update payload.
    pub update: Vec<u8>,
    /// Identifier of the session the update came from.
    pub source: String,
}

/// Mathematical image of one notification.
#[verifier::ext_equal]
pub struct NoteView {
    pub update: Seq<u8>,
    pub source: Seq<char>,
}

impl View for UpdateNotification {
    type V = NoteView;

    open spec fn view(&self) -> NoteView {
        NoteView { update: self.update@, source: self.source@ }
    }
}

/// Mathematical image of a channel: everything ever published, and the
/// bound on how much of it stays buffered.
#[verifier::ext_equal]
pub struct ChannelView {
    pub sent: Seq<NoteView>,
    pub cap: nat,
}

impl ChannelView {
    /// Index of the oldest notification still buffered: all earlier ones
    /// were dropped, oldest first, once the channel exceeded its bound.
    pub open spec fn start(self) -> int {
        if self.sent.len() <= self.cap {
            0
        } else {
            self.sent.len() - self.cap
        }
    }

    /// Whether the notification at index `i` can be observed by the receiver
    /// `me`: it is still buffered and did not originate from `me`.
    pub open spec fn visible(self, me: Seq<char>, i: int) -> bool {
        self.start() <= i < self.sent.len() && self.sent[i].source != me
    }
}

/// The larger of two integers.
pub open spec fn int_max(a: int, b: int) -> int {
    if a > b {
        a
    } else {
        b
    }
}

/// Index of the first notification at or after `from` that the receiver
/// `me` can observe, if any.
pub open spec fn next_visible(c: ChannelView, me: Seq<char>, from: int) -> Option<int>
    decreases c.sent.len() - from,
{
    if from >= c.sent.len() {
        None
    } else if c.visible(me, from) {
        Some(from)
    } else {
        next_visible(c, me, from + 1)
    }
}

/// A bounded multi-consumer broadcast channel with drop-oldest semantics.
pub struct UpdateChannel {
    buf: Vec<UpdateNotification>,
    dropped: usize,
    cap: usize,
    hist: Ghost<Seq<NoteView>>,
}

/// One receiver's position in a channel's publish history, together with
/// the session it belongs to.
pub struct Subscription {
    client: String,
    cursor: usize,
}

impl Subscription {
    /// The session this receiver belongs to; its own notifications are
    /// never delivered back to it.
    pub closed spec fn spec_client(self) -> Seq<char> {
        self.client@
    }

    /// How far into the publish history this receiver has consumed.
    pub closed spec fn spec_cursor(self) -> int {
        self.cursor as int
    }
}

impl View for UpdateChannel {
    type V = ChannelView;

    closed spec fn view(&self) -> ChannelView {
        ChannelView { sent: self.hist@, cap: self.cap as nat }
    }
}

impl UpdateChannel {
    /// Internal consistency: the buffer holds exactly the most recent
    /// notifications of the history, at most `cap` of them.
    pub closed spec fn wf(self) -> bool {
        &&& self.cap > 0
        &&& self.dropped + self.buf.len() == self.hist@.len()
        &&& self.hist@.len() <= usize::MAX
        &&& self.buf.len() <= self.cap
        &&& (self.hist@.len() <= self.cap ==> self.dropped == 0)
        &&& (self.hist@.len() > self.cap ==> self.buf.len() == self.cap)
        &&& forall|j: int|
            0 <= j < self.buf.len() ==> self.buf@[j]@ == self.hist@[self.dropped + j]
    }

    /// Creates an empty channel that buffers at most `capacity`
    /// notifications.
    pub fn new(capacity: usize) -> (r: Self)
        requires
            capacity > 0,
        ensures
            r.wf(),
            r@.sent == Seq::<NoteView>::empty(),
            r@.cap == capacity as nat,
    {
        UpdateChannel { buf: Vec::new(), dropped: 0, cap: capacity, hist: Ghost(Seq::empty()) }
    }

    /// Publishes one notification.  When the buffer is full the oldest
    /// buffered notification is dropped first; the writer never blocks.
    pub fn publish(&mut self, n: UpdateNotification)
        requires
            old(self).wf(),
            old(self)@.sent.len() < usize::MAX,
        ensures
            final(self).wf(),
            final(self)@.sent == old(self)@.sent.push(n@),
            final(self)@.cap == old(self)@.cap,
    {
        let ghost nv = n@;
        if self.buf.len() == self.cap {
            self.buf.remove(0);
            self.dropped = self.dropped + 1;
        }
        self.buf.push(n);
        proof {
            self.hist@ = self.hist@.push(nv);
        }
    }

    /// How many notifications were ever published on this channel.
    pub fn count(&self) -> (r: usize)
        requires
            self.wf(),
        ensures
            r == self@.sent.len(),
    {
        self.dropped + self.buf.len()
    }

    /// Creates a new receiver for the session `client`, positioned at the
    /// end of the current history: notifications published earlier are
    /// never replayed to it.
    pub fn subscribe(&self, client: &String) -> (r: Subscription)
        requires
            self.wf(),
        ensures
            r.spec_client() == client@,
            r.spec_cursor() == self@.sent.len(),
    {
        Subscription { client: client.clone(), cursor: self.dropped + self.buf.len() }
    }

    /// Delivers the next notification this receiver can observe, if any:
    /// the first one at or after its cursor that is still buffered and that
    /// it did not publish itself.  The cursor advances past what was
    /// delivered, or to the end of the history when nothing is pending.
    pub fn recv(&self, sub: &mut Subscription) -> (r: Option<UpdateNotification>)
        requires
            self.wf(),
        ensures
            final(sub).spec_client() == old(sub).spec_client(),
            ({
                let eff = int_max(old(sub).spec_cursor(), self@.start());
                match next_visible(self@, old(sub).spec_client(), eff) {
                    Some(i) => {
                        &&& r matches Some(n) && n@ == self@.sent[i]
                        &&& final(sub).spec_cursor() == i + 1
                    },
                    None => {
                        &&& r is None
                        &&& final(sub).spec_cursor() == int_max(eff, self@.sent.len() as int)
                    },
                }
            }),
            r matches Some(n) ==> n@.source != old(sub).spec_client(),
    {
        let total = self.dropped + self.buf.len();
        let mut i: usize = if sub.cursor < self.dropped {
            self.dropped
        } else {
            sub.cursor
        };
        let ghost eff = i as int;
        proof {
            assert(eff == int_max(old(sub).spec_cursor(), self@.start()));
        }
        while i < total
            invariant
                self.wf(),
                total == self@.sent.len(),
                self.dropped == self@.start(),
                eff == int_max(old(sub).spec_cursor(), self@.start()),
                eff <= i,
                self.dropped <= i,
                i <= total || i == eff,
                *sub == *old(sub),
                next_visible(self@, sub.client@, eff) == next_visible(self@, sub.client@, i as int),
            decreases total - i,
        {
            let n = &self.buf[i - self.dropped];
            proof {
                assert(n@ == self@.sent[i as int]);
            }
            if !(n.source == sub.client) {
                let out = UpdateNotification {
                    update: clone_bytes(n.update.as_slice()),
                    source: n.source.clone(),
                };
                proof {
                    assert(self@.visible(sub.client@, i as int));
                    assert(next_visible(self@, sub.client@, i as int) == Some(i as int));
                    assert(out@ == self@.sent[i as int]);
                }
                sub.cursor = i + 1;
                return Some(out);
            }
            proof {
                assert(!self@.visible(sub.client@, i as int));
                assert(next_visible(self@, sub.client@, i as int) == next_visible(
                    self@,
                    sub.client@,
                    i + 1,
                ));
            }
            i = i + 1;
        }
        proof {
            assert(next_visible(self@, sub.client@, i as int) is None);
        }
        sub.cursor = i;
        None
    }
}

/// Every delivery that `next_visible` selects is observable, lies at or
/// after the point searched from, and nothing observable was passed over.
pub proof fn lemma_next_visible_properties(c: ChannelView, me: Seq<char>, from: int)
    ensures
        match next_visible(c, me, from) {
            Some(i) => {
                &&& from <= i
                &&& c.visible(me, i)
                &&& forall|j: int| from <= j < i ==> !c.visible(me, j)
            },
            None => forall|j: int| from <= j < c.sent.len() ==> !c.visible(me, j),
        },
    decreases c.sent.len() - from,
{
    if from >= c.sent.len() {
    } else if c.visible(me, from) {
    } else {
        lemma_next_visible_properties(c, me, from + 1);
    }
}

/// No echo: the notification a receiver observes never originated from
/// that receiver's own session.
pub proof fn lemma_no_echo(c: ChannelView, me: Seq<char>, from: int)
    ensures
        next_visible(c, me, from) matches Some(i) ==> c.sent[i].source != me,
{
    lemma_next_visible_properties(c, me, from);
}

/// At most once: once a receiver's cursor has advanced past an observed
/// notification, no later receive returns it again; deliveries come in
/// strictly increasing history order.
pub proof fn lemma_delivered_at_most_once(c: ChannelView, me: Seq<char>, from1: int, from2: int)
    requires
        next_visible(c, me, from1) matches Some(i1) && from2 > i1,
    ensures
        next_visible(c, me, from2) matches Some(i2) ==> i2 > from2 - 1,
{
    lemma_next_visible_properties(c, me, from2);
}

/// At least once: an observable notification at or after the receiver's
/// cursor is not skipped — the next delivery is that notification or an
/// earlier one.
pub proof fn lemma_not_skipped(c: ChannelView, me: Seq<char>, from: int, k: int)
    requires
        c.visible(me, k),
        from <= k,
    ensures
        next_visible(c, me, from) matches Some(i) && i <= k,
{
    lemma_next_visible_properties(c, me, from);
}

/// Drop-oldest: whatever a receiver observes is among the most recent
/// `cap` notifications; everything older is unobservable by anyone.
pub proof fn lemma_oldest_dropped(c: ChannelView, me: Seq<char>, from: int)
    ensures
        next_visible(c, me, from) matches Some(i) ==> i >= c.start(),
{
    lemma_next_visible_properties(c, me, from);
}

} // verus!
