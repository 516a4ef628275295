//! The asynchronous call engine of an RPC library, over a completion-queue
//! driven native core.
//!
//! Each operation started on a call gets a slot that the poller thread later
//! resolves, exactly once; futures read their result from that slot. On top
//! of that sit the state shared by the two halves of a streaming call, the
//! read and write state machines, a reentrant lock, the task state machine of
//! the embedded executor, and the server's handler dispatch.

pub mod flags;
pub mod status;
pub mod message;
pub mod call;
pub mod share;
pub mod lock;
pub mod stream;
pub mod sink;
pub mod respond;
pub mod cq;
pub mod executor;
pub mod server;
pub mod channel;
pub mod client;
