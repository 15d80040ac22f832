//! The dialog invoker's verified half: the decision its completion callback
//! takes once the native file dialog closes.
//!
//! Opening the dialog itself is the integrating application's work. When the
//! dialog resolves — on whatever thread the host chose — the callback hands
//! the outcome to [`complete_dialog`], which either enqueues the chosen path
//! and asks for a wake signal, or stays silent.

use vstd::prelude::*;

use crate::channel::{Channel, ChannelView, SendOutcome, send_effect};

verus! {

/// What a dialog completion did to the system.
#[derive(Clone, Copy, PartialEq, Eq, Structural, Debug)]
pub enum CompletionOutcome {
    /// The user chose nothing: no message, no wake signal.
    Cancelled,
    /// The chosen path was enqueued; the wake signal must now be raised.
    Queued,
    /// The consumer side is already torn down: the application is shutting
    /// down, the path was dropped, and the failure is suppressed.
    ShuttingDown,
}

/// The view of an optional chosen path.
pub open spec fn choice_view(choice: Option<String>) -> Option<Seq<char>> {
    match choice {
        Option::Some(path) => Option::Some(path@),
        Option::None => Option::None,
    }
}

/// What one dialog completion does to the channel: a cancellation leaves it
/// untouched; a chosen path goes through one producer-side send.
pub open spec fn completion_effect(c: ChannelView, choice: Option<Seq<char>>) -> ChannelView {
    match choice {
        Option::Some(path) => send_effect(c, path),
        Option::None => c,
    }
}

/// The completion callback's decision. A cancellation produces nothing and
/// never touches the channel; a chosen path is enqueued under the caller's
/// guard, and exactly then the caller must raise the wake signal; a send that
/// finds the consumer gone is suppressed as "shutting down".
pub fn complete_dialog(chan: &mut Channel, choice: Option<String>) -> (r: CompletionOutcome)
    ensures
        final(chan)@ == completion_effect(old(chan)@, choice_view(choice)),
        (r is Queued) == (choice is Some && !old(chan)@.disconnected),
        (r is Cancelled) == (choice is None),
        (r is ShuttingDown) == (choice is Some && old(chan)@.disconnected),
{
    match choice {
        None => CompletionOutcome::Cancelled,
        Some(path) => {
            match chan.send(path) {
                SendOutcome::Accepted => CompletionOutcome::Queued,
                SendOutcome::Disconnected => CompletionOutcome::ShuttingDown,
            }
        },
    }
}

/// Whether a completion outcome obliges the caller to raise the wake signal:
/// only a queued message needs a drain pass scheduled.
pub fn requests_wake(r: &CompletionOutcome) -> (w: bool)
    ensures
        w == (r is Queued),
{
    match r {
        CompletionOutcome::Queued => true,
        CompletionOutcome::Cancelled => false,
        CompletionOutcome::ShuttingDown => false,
    }
}

/// The fixed extension allow-list the native file dialog is restricted to.
pub fn dialog_extensions() -> (exts: Vec<&'static str>)
    ensures
        exts@.len() == 2,
        exts@[0]@ == "log"@,
        exts@[1]@ == "txt"@,
{
    let mut exts: Vec<&'static str> = Vec::new();
    exts.push("log");
    exts.push("txt");
    exts
}

/// The close command. It deliberately performs no work: releasing whatever
/// resource the selected file stands for is left to the integrating
/// application, and the hand-off core does not depend on it.
pub fn close_file() {
}

} // verus!
