use dialog_relay::channel::{Channel, SendOutcome, TryRecvOutcome};
use dialog_relay::invoker::{CompletionOutcome, complete_dialog, requests_wake};
use dialog_relay::relay::ReceiverSlot;

#[test]
fn scenario_single_selection_delivered_once() {
    let mut chan = Channel::new();
    let mut slot = ReceiverSlot::new();

    let outcome = complete_dialog(&mut chan, Some(String::from("/tmp/a.log")));
    assert_eq!(outcome, CompletionOutcome::Queued);
    assert!(requests_wake(&outcome));

    // The wake signal fires: one drain pass.
    let delivered = slot.drain(&mut chan);
    assert_eq!(delivered, vec![String::from("/tmp/a.log")]);

    // A later wake finds nothing: the path is delivered exactly once.
    let again = slot.drain(&mut chan);
    assert!(again.is_empty());
}

#[test]
fn scenario_backlog_drained_in_order_by_one_pass() {
    let mut chan = Channel::new();
    let mut slot = ReceiverSlot::new();

    // Two completions race in before any wake signal is processed.
    let first = complete_dialog(&mut chan, Some(String::from("/tmp/a.log")));
    let second = complete_dialog(&mut chan, Some(String::from("/tmp/b.log")));
    assert_eq!(first, CompletionOutcome::Queued);
    assert_eq!(second, CompletionOutcome::Queued);
    assert_eq!(chan.pending_len(), 2);

    // A single drain pass empties the whole backlog, in production order.
    let delivered = slot.drain(&mut chan);
    assert_eq!(
        delivered,
        vec![String::from("/tmp/a.log"), String::from("/tmp/b.log")]
    );
    assert_eq!(chan.pending_len(), 0);
}

#[test]
fn scenario_cancellation_is_silent() {
    let mut chan = Channel::new();
    let mut slot = ReceiverSlot::new();

    let outcome = complete_dialog(&mut chan, None);
    assert_eq!(outcome, CompletionOutcome::Cancelled);
    assert!(!requests_wake(&outcome));
    assert_eq!(chan.pending_len(), 0);

    // Even if a wake fires anyway, it drains nothing.
    let delivered = slot.drain(&mut chan);
    assert!(delivered.is_empty());
    assert!(!slot.has_shut_down());
}

#[test]
fn fifo_order_kept_across_many_selections() {
    let mut chan = Channel::new();
    let mut slot = ReceiverSlot::new();

    let paths = ["/tmp/1.log", "/tmp/2.txt", "/tmp/3.log", "/tmp/4.txt", "/tmp/5.log"];
    for p in paths {
        let outcome = complete_dialog(&mut chan, Some(String::from(p)));
        assert_eq!(outcome, CompletionOutcome::Queued);
    }

    let delivered = slot.drain(&mut chan);
    let expected: Vec<String> = paths.iter().map(|p| String::from(*p)).collect();
    assert_eq!(delivered, expected);
}

#[test]
fn teardown_drains_backlog_then_closes_slot() {
    let mut chan = Channel::new();
    let mut slot = ReceiverSlot::new();

    complete_dialog(&mut chan, Some(String::from("/tmp/last.log")));
    chan.drop_producer();

    // The drain still hands out the queued message, then observes the
    // disconnect and closes the slot for good.
    let delivered = slot.drain(&mut chan);
    assert_eq!(delivered, vec![String::from("/tmp/last.log")]);
    assert!(slot.has_shut_down());

    // Every later wake is a silent no-op.
    assert!(slot.drain(&mut chan).is_empty());
    assert!(slot.drain(&mut chan).is_empty());
}

#[test]
fn send_after_teardown_is_suppressed() {
    let mut chan = Channel::new();
    chan.drop_producer();

    let outcome = complete_dialog(&mut chan, Some(String::from("/tmp/late.log")));
    assert_eq!(outcome, CompletionOutcome::ShuttingDown);
    assert!(!requests_wake(&outcome));
    assert_eq!(chan.pending_len(), 0);
}

#[test]
fn reused_producer_after_close_delivers_nothing() {
    let mut chan = Channel::new();
    let mut slot = ReceiverSlot::new();

    chan.drop_producer();
    // First wake observes the disconnect on an empty channel: slot closes.
    assert!(slot.drain(&mut chan).is_empty());
    assert!(slot.has_shut_down());

    // A (wrongly) reused producer finds its send refused, and wakes stay silent.
    let outcome = complete_dialog(&mut chan, Some(String::from("/tmp/zombie.log")));
    assert_eq!(outcome, CompletionOutcome::ShuttingDown);
    assert!(slot.drain(&mut chan).is_empty());
}

#[test]
fn channel_send_and_try_recv_agree_on_state() {
    let mut chan = Channel::new();
    assert!(!chan.is_disconnected());
    assert!(matches!(chan.try_recv(), TryRecvOutcome::Empty));

    assert_eq!(chan.send(String::from("/tmp/x.txt")), SendOutcome::Accepted);
    match chan.try_recv() {
        TryRecvOutcome::Received(m) => assert_eq!(m, "/tmp/x.txt"),
        other => panic!("expected a message, got {:?}", other),
    }
    assert!(matches!(chan.try_recv(), TryRecvOutcome::Empty));

    chan.drop_producer();
    assert!(chan.is_disconnected());
    assert!(matches!(chan.try_recv(), TryRecvOutcome::Disconnected));
    assert_eq!(chan.send(String::from("/tmp/y.txt")), SendOutcome::Disconnected);
}
