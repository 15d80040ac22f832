//! A verified core for handing a native file dialog's result from its
//! completion callback to a single-threaded UI dispatcher without blocking.
//!
//! The pieces are: a guarded FIFO channel whose producer end any completion
//! thread may use ([`channel`]), the completion decision that either enqueues
//! a chosen path and asks for a wake signal or stays silent ([`invoker`]),
//! the receiver slot owned by the UI dispatcher together with the
//! non-blocking drain pass a wake signal triggers ([`relay`]), and a
//! state-machine model of the whole hand-off with the proved delivery and
//! shutdown laws ([`model`]).
//!
//! The surrounding application supplies the real concurrency: it wraps the
//! channel in its mutex so that completions from arbitrary threads serialize
//! through one short critical section per enqueue, keeps the receiver slot on
//! the dispatcher thread, and forwards each drained path to the presentation
//! layer as a notification.

pub mod channel;
pub mod invoker;
pub mod model;
pub mod relay;
