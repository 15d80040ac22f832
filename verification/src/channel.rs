//! The hand-off channel: a FIFO queue of path strings together with the
//! producer-liveness flag.
//!
//! The producer and consumer ends are modelled as one object. The integrating
//! application wraps a [`Channel`] in its mutex, so that dialog completions
//! running on arbitrary threads serialize their enqueues through one short
//! critical section each, while the UI dispatcher drains it between commands.

use vstd::prelude::*;

verus! {

/// Mathematical view of a channel: the pending messages in production order,
/// and whether the producer side is permanently gone.
#[verifier::ext_equal]
pub struct ChannelView {
    pub pending: Seq<Seq<char>>,
    pub disconnected: bool,
}

/// The views of a queue of messages, in order.
pub open spec fn msg_views(q: Seq<String>) -> Seq<Seq<char>> {
    q.map_values(|m: String| m@)
}

/// The view of a channel as built at startup: empty and connected.
pub open spec fn init_channel() -> ChannelView {
    ChannelView { pending: Seq::empty(), disconnected: false }
}

/// What one producer-side send does to a channel: appends the path, unless
/// the consumer side is already gone, in which case nothing changes.
pub open spec fn send_effect(c: ChannelView, path: Seq<char>) -> ChannelView {
    if c.disconnected {
        c
    } else {
        ChannelView { pending: c.pending.push(path), disconnected: false }
    }
}

/// What the producer side reports back for one send.
#[derive(Clone, Copy, PartialEq, Eq, Structural, Debug)]
pub enum SendOutcome {
    /// The message was enqueued; a wake signal should follow.
    Accepted,
    /// The consumer side is gone: the application is shutting down, the
    /// message was dropped, and the failure must be suppressed.
    Disconnected,
}

/// What one non-blocking receive attempt reports back.
#[derive(PartialEq, Eq, Debug)]
pub enum TryRecvOutcome {
    /// The oldest pending message.
    Received(String),
    /// Nothing pending right now; the producer may still send later.
    Empty,
    /// Nothing pending and the producer is permanently gone.
    Disconnected,
}

/// The channel itself: pending messages in production order, plus whether the
/// producer side has been torn down.
pub struct Channel {
    queue: Vec<String>,
    disconnected: bool,
}

impl View for Channel {
    type V = ChannelView;

    closed spec fn view(&self) -> ChannelView {
        ChannelView { pending: msg_views(self.queue@), disconnected: self.disconnected }
    }
}

impl Channel {
    /// A fresh channel: no pending messages, producer connected.
    pub fn new() -> (c: Channel)
        ensures
            c@ == init_channel(),
    {
        let c = Channel { queue: Vec::new(), disconnected: false };
        proof {
            assert(c@ =~= init_channel());
        }
        c
    }

    /// Producer-side enqueue. Appends the message to the backlog; if the
    /// consumer side has been torn down, the message is dropped and the
    /// caller is told the application is shutting down.
    pub fn send(&mut self, msg: String) -> (r: SendOutcome)
        ensures
            final(self)@ == send_effect(old(self)@, msg@),
            (r is Accepted) == !old(self)@.disconnected,
    {
        if self.disconnected {
            SendOutcome::Disconnected
        } else {
            self.queue.push(msg);
            proof {
                assert(self@.pending =~= old(self)@.pending.push(msg@));
                assert(self@ =~= send_effect(old(self)@, msg@));
            }
            SendOutcome::Accepted
        }
    }

    /// Consumer-side non-blocking receive: one step of a drain pass. Hands
    /// out the oldest pending message; with nothing pending it reports
    /// whether the producer is merely idle or gone for good.
    pub fn try_recv(&mut self) -> (r: TryRecvOutcome)
        ensures
            old(self)@.pending.len() > 0 ==> ({
                &&& final(self)@.pending == old(self)@.pending.drop_first()
                &&& final(self)@.disconnected == old(self)@.disconnected
                &&& r matches TryRecvOutcome::Received(m) && m@ == old(self)@.pending[0]
            }),
            old(self)@.pending.len() == 0 ==> ({
                &&& final(self)@ == old(self)@
                &&& (r is Empty) == !old(self)@.disconnected
                &&& (r is Disconnected) == old(self)@.disconnected
            }),
    {
        if self.queue.len() == 0 {
            if self.disconnected {
                TryRecvOutcome::Disconnected
            } else {
                TryRecvOutcome::Empty
            }
        } else {
            let m = self.queue.remove(0);
            proof {
                assert(self@.pending =~= old(self)@.pending.drop_first());
            }
            TryRecvOutcome::Received(m)
        }
    }

    /// Producer teardown: from here on every send is refused. Messages
    /// already queued stay and can still be drained.
    pub fn drop_producer(&mut self)
        ensures
            final(self)@ == (ChannelView { pending: old(self)@.pending, disconnected: true }),
    {
        self.disconnected = true;
        proof {
            assert(self@ =~= (ChannelView { pending: old(self)@.pending, disconnected: true }));
        }
    }

    /// How many messages are waiting to be drained.
    pub fn pending_len(&self) -> (n: usize)
        ensures
            n == self@.pending.len(),
    {
        self.queue.len()
    }

    /// Whether the producer side has been torn down.
    pub fn is_disconnected(&self) -> (b: bool)
        ensures
            b == self@.disconnected,
    {
        self.disconnected
    }
}

} // verus!
