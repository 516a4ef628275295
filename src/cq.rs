use vstd::prelude::*;

use crate::status::Error;

verus! {

/// The kind of an event taken off a completion queue.
#[derive(Clone, Copy, Debug, PartialEq, Eq, Structural)]
pub enum EventType {
    QueueShutdown,
    QueueTimeout,
    OpComplete,
}

/// One event of a completion queue: its kind, whether the operation
/// succeeded, and the tag of the operation.
#[derive(Clone, Copy, Debug, PartialEq, Eq, Structural)]
pub struct Event {
    pub event_type: EventType,
    pub success: bool,
    pub tag: usize,
}

/// What the poller thread does with an event.
#[derive(Clone, Copy, Debug, PartialEq, Eq, Structural)]
pub enum PollAction {
    /// The queue has shut down: the thread ends.
    Stop,
    /// Nothing happened: wait for the next event.
    Wait,
    /// Resolve the operation with this tag.
    Resolve { tag: usize, success: bool },
}

/// Classifies an event for the poller thread.
pub fn next_action(e: &Event) -> (r: PollAction)
    ensures
        e.event_type == EventType::QueueShutdown ==> r == PollAction::Stop,
        e.event_type == EventType::QueueTimeout ==> r == PollAction::Wait,
        e.event_type == EventType::OpComplete ==> r == (PollAction::Resolve {
            tag: e.tag,
            success: e.success,
        }),
{
    match e.event_type {
        EventType::QueueShutdown => PollAction::Stop,
        EventType::QueueTimeout => PollAction::Wait,
        EventType::OpComplete => PollAction::Resolve { tag: e.tag, success: e.success },
    }
}

/// A completion queue, as far as the call layer sees it: open, or shutting down.
pub struct CompletionQueue {
    shutdown: bool,
}

impl CompletionQueue {
    pub closed spec fn is_shutdown(&self) -> bool {
        self.shutdown
    }

    pub fn new() -> (r: CompletionQueue)
        ensures
            !r.is_shutdown(),
    {
        CompletionQueue { shutdown: false }
    }

    /// Begins shutting the queue down; no operation is submitted to it after.
    pub fn begin_shutdown(&mut self)
        ensures
            final(self).is_shutdown(),
    {
        self.shutdown = true;
    }

    /// Fails with `QueueShutdown` once the queue has begun shutting down.
    pub fn borrow(&self) -> (r: Result<(), Error>)
        ensures
            self.is_shutdown() ==> r == Err::<(), Error>(Error::QueueShutdown),
            !self.is_shutdown() ==> r is Ok,
    {
        if self.shutdown {
            Err(Error::QueueShutdown)
        } else {
            Ok(())
        }
    }
}

} // verus!
