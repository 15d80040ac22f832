//! A state-machine model of the whole hand-off, with the delivery and
//! shutdown laws proved over it.
//!
//! A [`SystemView`] is what the presentation layer can observe: the channel,
//! the receiver slot's lifecycle bit, and the notifications delivered so far.
//! Each arm of [`step`] is written with the very spec functions the
//! executable operations promise in their contracts, so the laws below speak
//! directly about what the verified code does under any interleaving of
//! completions, cancellations, wake signals and teardown.

use vstd::prelude::*;

use crate::channel::{ChannelView, init_channel};
use crate::invoker::completion_effect;
use crate::relay::{drain_output, wake_channel_effect, wake_slot_effect};

verus! {

/// One observable event in the life of the hand-off core.
pub enum Event {
    /// A dialog completion reporting a chosen path, on whatever thread.
    Selected(Seq<char>),
    /// A dialog completion reporting that the user chose nothing.
    Cancelled,
    /// A wake signal processed by the UI dispatcher: one drain pass, whose
    /// output is forwarded to the presentation layer in order.
    Wake,
    /// Application teardown: the producer side goes away for good.
    Teardown,
}

/// The system as the presentation layer can observe it.
#[verifier::ext_equal]
pub struct SystemView {
    pub chan: ChannelView,
    pub slot_closed: bool,
    pub delivered: Seq<Seq<char>>,
}

/// The system at startup: empty connected channel, active slot, nothing
/// delivered yet.
pub open spec fn init_state() -> SystemView {
    SystemView { chan: init_channel(), slot_closed: false, delivered: Seq::empty() }
}

/// How one event transforms the system. Each arm states exactly what the
/// corresponding executable operation ensures: a completion goes through
/// `completion_effect`, a wake signal through the three drain-pass effects,
/// and teardown only flips the producer-liveness flag.
pub open spec fn step(s: SystemView, e: Event) -> SystemView {
    match e {
        Event::Selected(path) => SystemView {
            chan: completion_effect(s.chan, Option::Some(path)),
            ..s
        },
        Event::Cancelled => SystemView {
            chan: completion_effect(s.chan, Option::None),
            ..s
        },
        Event::Wake => SystemView {
            chan: wake_channel_effect(s.slot_closed, s.chan),
            slot_closed: wake_slot_effect(s.slot_closed, s.chan),
            delivered: s.delivered + drain_output(s.slot_closed, s.chan),
        },
        Event::Teardown => SystemView {
            chan: ChannelView { pending: s.chan.pending, disconnected: true },
            ..s
        },
    }
}

/// The system after a whole sequence of events.
pub open spec fn run(s: SystemView, es: Seq<Event>) -> SystemView
    decreases es.len(),
{
    if es.len() == 0 {
        s
    } else {
        run(step(s, es.first()), es.drop_first())
    }
}

/// The chosen paths among a sequence of events, in order.
pub open spec fn selections_of(es: Seq<Event>) -> Seq<Seq<char>>
    decreases es.len(),
{
    if es.len() == 0 {
        Seq::empty()
    } else {
        match es.first() {
            Event::Selected(path) => seq![path] + selections_of(es.drop_first()),
            _ => selections_of(es.drop_first()),
        }
    }
}

/// Whether a sequence of events contains no teardown.
pub open spec fn no_teardown(es: Seq<Event>) -> bool {
    forall|i: int| 0 <= i < es.len() ==> !(es[i] is Teardown)
}

/// A state in which the slot has shut down: the disconnect was observed,
/// which per the drain pass means the producer is gone and the backlog was
/// already emptied.
pub open spec fn shut_down(s: SystemView) -> bool {
    &&& s.slot_closed
    &&& s.chan.disconnected
    &&& s.chan.pending.len() == 0
}

/// The lifecycle invariant: the slot closes only once the producer is gone
/// and the backlog fully drained.
pub open spec fn closure_invariant(s: SystemView) -> bool {
    s.slot_closed ==> shut_down(s)
}

/// Processing a whole event sequence is processing its head, then the rest.
proof fn lemma_run_unfold(s: SystemView, es: Seq<Event>, e: Event)
    ensures
        run(s, es.push(e)) == step(run(s, es), e),
    decreases es.len(),
{
    if es.len() == 0 {
        assert(es.push(e).first() == e);
        assert(es.push(e).drop_first() =~= Seq::<Event>::empty());
        assert(run(step(s, e), Seq::<Event>::empty()) == step(s, e));
    } else {
        assert(es.push(e).first() == es.first());
        assert(es.push(e).drop_first() =~= es.drop_first().push(e));
        lemma_run_unfold(step(s, es.first()), es.drop_first(), e);
    }
}

/// While the producer stays connected and the slot open, every run keeps the
/// notifications already delivered, followed by the backlog still pending,
/// equal to all successful selections so far — in order, nothing lost,
/// nothing duplicated.
proof fn lemma_live_run(s: SystemView, es: Seq<Event>)
    requires
        !s.chan.disconnected,
        !s.slot_closed,
        no_teardown(es),
    ensures
        !run(s, es).chan.disconnected,
        !run(s, es).slot_closed,
        run(s, es).delivered + run(s, es).chan.pending == s.delivered + s.chan.pending
            + selections_of(es),
    decreases es.len(),
{
    if es.len() == 0 {
        assert(s.delivered + s.chan.pending + selections_of(es) =~= s.delivered + s.chan.pending);
    } else {
        let e = es.first();
        let s1 = step(s, e);
        assert(!(es[0] is Teardown));
        assert(no_teardown(es.drop_first())) by {
            assert forall|i: int| 0 <= i < es.drop_first().len() implies !(es.drop_first()[i]
                is Teardown) by {
                assert(es.drop_first()[i] == es[i + 1]);
            }
        }
        lemma_live_run(s1, es.drop_first());
        let t = run(s, es);
        match e {
            Event::Selected(path) => {
                assert(s1.delivered + s1.chan.pending =~= s.delivered + s.chan.pending
                    + seq![path]);
                assert(t.delivered + t.chan.pending =~= s.delivered + s.chan.pending
                    + selections_of(es));
            },
            Event::Cancelled => {
                assert(s1 =~= s);
            },
            Event::Wake => {
                assert(s1.delivered + s1.chan.pending =~= s.delivered + s.chan.pending);
                assert(t.delivered + t.chan.pending =~= s.delivered + s.chan.pending
                    + selections_of(es));
            },
            Event::Teardown => {
                assert(false);
            },
        }
    }
}

/// Law: for any ordered sequence of successful selections, under any
/// interleaving of cancellations and wake signals and with a final wake to
/// flush the backlog, the presentation layer receives exactly those
/// selections, in production order, with no duplication and no loss.
pub proof fn lemma_fifo_delivery(es: Seq<Event>)
    requires
        no_teardown(es),
    ensures
        run(init_state(), es.push(Event::Wake)).delivered == selections_of(es),
{
    lemma_run_unfold(init_state(), es, Event::Wake);
    lemma_live_run(init_state(), es);
    let t = run(init_state(), es);
    assert(t.delivered + t.chan.pending =~= selections_of(es));
    assert(run(init_state(), es.push(Event::Wake)).delivered =~= t.delivered + t.chan.pending);
}

/// Law: cancelling the dialog produces no notification and never mutates the
/// channel — the system is left exactly as it was.
pub proof fn lemma_cancel_is_silent(s: SystemView)
    ensures
        step(s, Event::Cancelled) == s,
{
    assert(step(s, Event::Cancelled) =~= s);
}

/// Law: a completed selection on a live channel appends exactly its path to
/// the backlog and changes nothing else — every already-queued message stays
/// in place, so racing completions serialize into clean, whole enqueues.
pub proof fn lemma_selection_appends_one(s: SystemView, path: Seq<char>)
    requires
        !s.chan.disconnected,
    ensures
        step(s, Event::Selected(path)).chan.pending == s.chan.pending.push(path),
        step(s, Event::Selected(path)).chan.disconnected == s.chan.disconnected,
        step(s, Event::Selected(path)).slot_closed == s.slot_closed,
        step(s, Event::Selected(path)).delivered == s.delivered,
{
}

/// The lifecycle invariant holds at startup.
pub proof fn lemma_closure_invariant_init()
    ensures
        closure_invariant(init_state()),
{
}

/// The lifecycle invariant is preserved by every event: whenever the slot is
/// observed closed, the producer is already gone and the backlog empty.
pub proof fn lemma_closure_invariant_step(s: SystemView, e: Event)
    requires
        closure_invariant(s),
    ensures
        closure_invariant(step(s, e)),
{
}

/// The lifecycle invariant holds in every state a run reaches.
pub proof fn lemma_closure_invariant_run(s: SystemView, es: Seq<Event>)
    requires
        closure_invariant(s),
    ensures
        closure_invariant(run(s, es)),
    decreases es.len(),
{
    if es.len() > 0 {
        lemma_closure_invariant_step(s, es.first());
        lemma_closure_invariant_run(step(s, es.first()), es.drop_first());
    }
}

/// Law: once the slot has observed the disconnect and closed, no later event
/// ever delivers another notification — wake signals are silent no-ops, and
/// even a (wrongly) reused producer finds its sends refused.
pub proof fn lemma_shutdown_is_permanent(s: SystemView, es: Seq<Event>)
    requires
        s.slot_closed,
        closure_invariant(s),
    ensures
        shut_down(run(s, es)),
        run(s, es).delivered == s.delivered,
    decreases es.len(),
{
    if es.len() > 0 {
        let s1 = step(s, es.first());
        assert(s.delivered + drain_output(s.slot_closed, s.chan) =~= s.delivered);
        assert(s1 =~= s);
        lemma_shutdown_is_permanent(s, es.drop_first());
    }
}

} // verus!
