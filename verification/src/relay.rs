//! The poll/relay side: the receiver slot the UI dispatcher owns, and the
//! non-blocking drain pass a wake signal triggers.
//!
//! The slot is created once at startup and lives on the dispatcher thread. It
//! moves one way, from active to closed, the first time a drain observes that
//! the producer side is permanently gone; from then on every wake signal is a
//! silent no-op.

use vstd::prelude::*;

use crate::channel::{Channel, ChannelView, TryRecvOutcome, msg_views};

verus! {

/// The receiver slot's two-state lifecycle.
#[derive(Clone, Copy, PartialEq, Eq, Structural, Debug)]
pub enum SlotState {
    /// The slot still polls the channel on each wake signal.
    Active,
    /// The slot has observed the disconnect and never polls again.
    Closed,
}

/// The notifications one drain pass forwards to the presentation layer: the
/// whole backlog, in production order — nothing once the slot is closed.
pub open spec fn drain_output(closed: bool, c: ChannelView) -> Seq<Seq<char>> {
    if closed {
        Seq::empty()
    } else {
        c.pending
    }
}

/// The channel after one drain pass: emptied, unless the slot was already
/// closed and never touched it.
pub open spec fn wake_channel_effect(closed: bool, c: ChannelView) -> ChannelView {
    if closed {
        c
    } else {
        ChannelView { pending: Seq::empty(), disconnected: c.disconnected }
    }
}

/// The slot after one drain pass: it closes exactly when the pass runs and
/// observes the producer gone, and a closed slot stays closed.
pub open spec fn wake_slot_effect(closed: bool, c: ChannelView) -> bool {
    closed || c.disconnected
}

/// The consumer end's owner: exactly one exists, on the UI dispatcher.
pub struct ReceiverSlot {
    state: SlotState,
}

impl ReceiverSlot {
    /// Whether the slot has observed the producer disconnect and shut down.
    pub closed spec fn is_closed(&self) -> bool {
        self.state is Closed
    }

    /// The slot as built at startup: active.
    pub fn new() -> (s: ReceiverSlot)
        ensures
            !s.is_closed(),
    {
        ReceiverSlot { state: SlotState::Active }
    }

    /// Whether the slot has shut down: the runtime mirror of [`Self::is_closed`].
    pub fn has_shut_down(&self) -> (b: bool)
        ensures
            b == self.is_closed(),
    {
        match self.state {
            SlotState::Active => false,
            SlotState::Closed => true,
        }
    }

    /// One wake-signal drain pass. Non-blocking: it empties the entire
    /// backlog in production order and returns it for the caller to forward
    /// as notifications, stops on an empty channel, and on observing the
    /// disconnect closes the slot for good. Once closed, a pass returns
    /// nothing and touches nothing.
    #[verifier::loop_isolation(false)]
    pub fn drain(&mut self, chan: &mut Channel) -> (out: Vec<String>)
        ensures
            msg_views(out@) == drain_output(old(self).is_closed(), old(chan)@),
            final(chan)@ == wake_channel_effect(old(self).is_closed(), old(chan)@),
            final(self).is_closed() == wake_slot_effect(old(self).is_closed(), old(chan)@),
    {
        let mut out: Vec<String> = Vec::new();
        match self.state {
            SlotState::Closed => {
                proof {
                    assert(msg_views(out@) =~= drain_output(true, old(chan)@));
                }
                return out;
            },
            SlotState::Active => {},
        }
        loop
            invariant
                self.state is Active,
                chan@.disconnected == old(chan)@.disconnected,
                msg_views(out@) + chan@.pending == old(chan)@.pending,
            decreases chan@.pending.len(),
        {
            let ghost pending_before: Seq<Seq<char>> = chan@.pending;
            let ghost out_before: Seq<Seq<char>> = msg_views(out@);
            match chan.try_recv() {
                TryRecvOutcome::Received(m) => {
                    proof {
                        assert(pending_before =~= seq![pending_before[0]] + chan@.pending);
                    }
                    out.push(m);
                    proof {
                        assert(msg_views(out@) =~= out_before.push(pending_before[0]));
                        assert(msg_views(out@) + chan@.pending =~= old(chan)@.pending);
                    }
                },
                TryRecvOutcome::Empty => {
                    proof {
                        assert(msg_views(out@) =~= old(chan)@.pending);
                        assert(chan@ =~= wake_channel_effect(false, old(chan)@));
                    }
                    return out;
                },
                TryRecvOutcome::Disconnected => {
                    self.state = SlotState::Closed;
                    proof {
                        assert(msg_views(out@) =~= old(chan)@.pending);
                        assert(chan@ =~= wake_channel_effect(false, old(chan)@));
                    }
                    return out;
                },
            }
        }
    }
}

} // verus!
