use vstd::prelude::*;

use crate::message::{flatten, MessageReader, MessageWriter};
use crate::status::{Error, RpcStatus, RpcStatusCode};

verus! {

/// How the result of a finished batch is read out of its context.
#[derive(Clone, Copy, Debug, PartialEq, Eq, Structural)]
pub enum BatchType {
    /// Finish without reading any message.
    Finish,
    /// Extract one message when finished.
    Read,
    /// Check the rpc code and then extract one message.
    CheckRead,
}

/// Readiness of a polled operation.
#[derive(Debug)]
pub enum Async<T> {
    Ready(T),
    NotReady,
}

/// What a resolved batch hands to its future: a message, the end of the
/// stream (`None`), or an error.
pub type BatchResult = Result<Option<Vec<u8>>, Error>;

/// What the native layer wrote for one finished batch: the terminal status and
/// the received message, if any.
pub struct BatchContext {
    pub status: RpcStatus,
    pub message: Option<Vec<u8>>,
}

impl BatchContext {
    /// An empty context: status `Success`, no message.
    pub fn new() -> (r: BatchContext)
        ensures
            r.status.status == RpcStatusCode::Success,
            r.status.details.is_none(),
            r.message.is_none(),
    {
        BatchContext { status: RpcStatus::ok(), message: None }
    }

    /// The status of the rpc call; a success carries no detail.
    pub fn rpc_status(&self) -> (r: RpcStatus)
        ensures
            r == received_status(self.status),
    {
        if self.status.status == RpcStatusCode::Success {
            return RpcStatus::ok();
        }
        self.status.duplicate()
    }

    /// Takes the received message out of the context, as a reader.
    pub fn recv_reader(&mut self) -> (r: Option<MessageReader>)
        ensures
            old(self).message is None ==> r is None,
            old(self).message matches Some(m) ==> (r matches Some(rd) && rd.wf() && rd.rest() == m@),
            final(self).message.is_none(),
            final(self).status == old(self).status,
    {
        match self.message.take() {
            None => None,
            Some(m) => {
                let ghost v = m@;
                // The length of a `Vec` fits a `usize`.
                let _len = m.len();
                let mut slices: Vec<Vec<u8>> = Vec::new();
                slices.push(m);
                proof {
                    let pieces = slices@.map_values(|w: Vec<u8>| w@);
                    assert(pieces =~= seq![v]);
                    assert(pieces.drop_first() =~= Seq::<Seq<u8>>::empty());
                    assert(flatten(Seq::<Seq<u8>>::empty()) == Seq::<u8>::empty());
                    assert(flatten(pieces) == pieces[0] + flatten(pieces.drop_first()));
                    assert(v + Seq::<u8>::empty() =~= v);
                }
                Some(MessageReader::new(slices))
            },
        }
    }

    /// Takes the received message out of the context.
    pub fn recv_message(&mut self) -> (r: Option<Vec<u8>>)
        ensures
            r == old(self).message,
            final(self).message.is_none(),
            final(self).status == old(self).status,
    {
        self.message.take()
    }
}

/// The status as received: its code, and its detail unless it is a success.
pub open spec fn received_status(s: RpcStatus) -> RpcStatus {
    if s.status == RpcStatusCode::Success {
        RpcStatus { status: RpcStatusCode::Success, details: None }
    } else {
        s
    }
}

/// The result that a batch of type `ty` yields, given whether the native
/// operation succeeded and what it wrote into its context.
pub open spec fn batch_outcome(
    ty: BatchType,
    success: bool,
    status: RpcStatus,
    message: Option<Vec<u8>>,
) -> BatchResult {
    match ty {
        BatchType::Finish => if !success {
            Err(Error::RemoteStopped)
        } else if status.status != RpcStatusCode::Success {
            Err(Error::RpcFailure(status))
        } else {
            Ok(None)
        },
        BatchType::Read => Ok(message),
        BatchType::CheckRead => if status.status != RpcStatusCode::Success {
            Err(Error::RpcFailure(status))
        } else {
            Ok(message)
        },
    }
}

/// A read batch is only ever reported as successful by the native layer.
pub open spec fn resolvable(ty: BatchType, success: bool) -> bool {
    ty == BatchType::Finish || success
}

/// A promise for one batch: its type and the context the native layer fills.
pub struct Batch {
    pub ty: BatchType,
    pub ctx: BatchContext,
}

impl Batch {
    pub fn new(ty: BatchType) -> (r: Batch)
        ensures
            r.ty == ty,
            r.ctx.status.status == RpcStatusCode::Success,
            r.ctx.message.is_none(),
    {
        Batch { ty, ctx: BatchContext::new() }
    }

    pub fn context(&self) -> (r: &BatchContext)
        ensures
            r == &self.ctx,
    {
        &self.ctx
    }

    /// Turns the finished batch into the result its future yields.
    pub fn resolve(self, success: bool) -> (r: BatchResult)
        requires
            resolvable(self.ty, success),
        ensures
            r == batch_outcome(self.ty, success, self.ctx.status, self.ctx.message),
    {
        let mut ctx = self.ctx;
        match self.ty {
            BatchType::CheckRead => {
                let status = ctx.rpc_status();
                if status.status != RpcStatusCode::Success {
                    return Err(Error::RpcFailure(status));
                }
                Ok(ctx.recv_message())
            },
            BatchType::Finish => {
                if !success {
                    return Err(Error::RemoteStopped);
                }
                let status = ctx.rpc_status();
                if status.status != RpcStatusCode::Success {
                    return Err(Error::RpcFailure(status));
                }
                Ok(None)
            },
            BatchType::Read => Ok(ctx.recv_message()),
        }
    }
}

/// The result of a server shutdown request.
pub open spec fn shutdown_outcome(success: bool) -> Result<(), Error> {
    if success {
        Ok(())
    } else {
        Err(Error::ShutdownFailed)
    }
}

/// A promise used to resolve an asynchronous shutdown.
pub struct Shutdown;

impl Shutdown {
    pub fn new() -> Shutdown {
        Shutdown
    }

    pub fn resolve(self, success: bool) -> (r: Result<(), Error>)
        ensures
            r == shutdown_outcome(success),
    {
        if success {
            Ok(())
        } else {
            Err(Error::ShutdownFailed)
        }
    }
}

/// A native operation started on a call.
#[derive(Debug)]
pub enum OpKind {
    /// Send one message with the given write flags; `initial_meta` sends the
    /// response headers along with it.
    SendMessage { payload: Vec<u8>, flags: u32, initial_meta: bool },
    /// Send a single request and receive the response with the status.
    Unary { payload: Vec<u8>, flags: u32 },
    /// Start a client-streaming call: receive the single response together
    /// with the terminal status.
    ClientStreaming,
    /// Half-close from the client.
    SendCloseFromClient,
    /// Receive one message.
    RecvMessage,
    /// Accept the call on the server; finishes once the client closes.
    ServerSide,
    /// Send the terminal status from the server, with an optional last message.
    SendStatus { status: RpcStatus, send_metadata: bool, payload: Option<Vec<u8>>, flags: u32 },
}

impl OpKind {
    /// A send of exactly `bytes`, with these flags.
    pub open spec fn sends(self, bytes: Seq<u8>, flags: u32, initial_meta: bool) -> bool {
        &&& self is SendMessage
        &&& self->SendMessage_payload@ == bytes
        &&& self->SendMessage_flags == flags
        &&& self->SendMessage_initial_meta == initial_meta
    }

    /// A send of the terminal status, with these fields.
    pub open spec fn sends_status(
        self,
        status: RpcStatus,
        send_metadata: bool,
        payload: Option<Seq<u8>>,
        flags: u32,
    ) -> bool {
        &&& self is SendStatus
        &&& self->SendStatus_status == status
        &&& self->SendStatus_send_metadata == send_metadata
        &&& bytes_of(self->SendStatus_payload) == payload
        &&& self->SendStatus_flags == flags
    }
}

/// The bytes of an optional message.
pub open spec fn bytes_of(m: Option<Vec<u8>>) -> Option<Seq<u8>> {
    match m {
        Some(v) => Some(v@),
        None => None,
    }
}

/// Where the future of a started operation stands.
#[derive(Debug)]
pub enum SlotState {
    /// The native operation has not completed yet.
    Pending,
    /// The operation completed; the result waits to be taken by a poll.
    Resolved(BatchResult),
    /// A poll has taken the result.
    Taken,
}

/// The future of one started operation: a tag naming its slot in the call.
#[derive(Clone, Copy, Debug, PartialEq, Eq, Structural)]
pub struct BatchFuture {
    pub tag: usize,
}

/// One RPC: the operations started on it, in order, each with the slot its
/// future reads.
///
/// The tag of an operation is its position; completions come back by tag.
///
/// Once the completion queue of the call is shutting down, nothing more is
/// started. The `start_*` operations, whose callers need the result, then
/// fail with `QueueShutdown`; `abort` and `cancel`, which nobody waits on,
/// do nothing.
pub struct Call {
    kinds: Vec<OpKind>,
    types: Vec<BatchType>,
    states: Vec<SlotState>,
    queue_shutdown: bool,
    cancelled: bool,
}

impl Call {
    pub closed spec fn wf(&self) -> bool {
        &&& self.kinds@.len() == self.states@.len()
        &&& self.types@.len() == self.states@.len()
    }

    /// Number of operations started on the call.
    pub closed spec fn num_ops(&self) -> nat {
        self.states@.len()
    }

    pub closed spec fn op_kind(&self, tag: int) -> OpKind {
        self.kinds@[tag]
    }

    pub closed spec fn op_type(&self, tag: int) -> BatchType {
        self.types@[tag]
    }

    pub closed spec fn slot(&self, tag: int) -> SlotState {
        self.states@[tag]
    }

    /// Whether the completion queue of the call has begun shutting down.
    pub closed spec fn is_queue_shutdown(&self) -> bool {
        self.queue_shutdown
    }

    pub closed spec fn is_cancelled(&self) -> bool {
        self.cancelled
    }

    pub open spec fn has_tag(&self, tag: usize) -> bool {
        tag < self.num_ops()
    }

    pub open spec fn is_pending(&self, tag: int) -> bool {
        self.slot(tag) is Pending
    }

    /// `self` holds the operations of `old` and then those of `extra`, in order;
    /// the slots of the earlier ones are unchanged.
    pub open spec fn extends(&self, old: &Call, n: nat) -> bool {
        &&& self.num_ops() == old.num_ops() + n
        &&& forall|t: int| 0 <= t < old.num_ops() ==> {
            &&& #[trigger] self.slot(t) == old.slot(t)
            &&& self.op_kind(t) == old.op_kind(t)
            &&& self.op_type(t) == old.op_type(t)
        }
        &&& self.is_queue_shutdown() == old.is_queue_shutdown()
        &&& self.is_cancelled() == old.is_cancelled()
    }

    /// `self` follows `old`: operations were only added, and no finished
    /// operation became pending again.
    pub open spec fn progresses(&self, old: &Call) -> bool {
        &&& old.num_ops() <= self.num_ops()
        &&& forall|t: int| 0 <= t < old.num_ops() ==> {
            &&& #[trigger] self.op_kind(t) == old.op_kind(t)
            &&& self.op_type(t) == old.op_type(t)
            &&& (!old.is_pending(t) ==> !self.is_pending(t))
        }
    }

    /// Only the slot of `tag` may differ between `self` and `old`.
    pub open spec fn same_but_slot(&self, old: &Call, tag: int) -> bool {
        &&& self.num_ops() == old.num_ops()
        &&& forall|t: int| 0 <= t < old.num_ops() && t != tag ==> #[trigger] self.slot(t)
            == old.slot(t)
        &&& forall|t: int| 0 <= t < old.num_ops() ==> {
            &&& #[trigger] self.op_kind(t) == old.op_kind(t)
            &&& self.op_type(t) == old.op_type(t)
        }
        &&& self.is_queue_shutdown() == old.is_queue_shutdown()
        &&& self.is_cancelled() == old.is_cancelled()
    }

    /// A call on an open queue, with nothing started yet.
    pub fn new() -> (r: Call)
        ensures
            r.wf(),
            r.num_ops() == 0,
            !r.is_queue_shutdown(),
            !r.is_cancelled(),
    {
        Call {
            kinds: Vec::new(),
            types: Vec::new(),
            states: Vec::new(),
            queue_shutdown: false,
            cancelled: false,
        }
    }

    pub fn num_started(&self) -> (r: usize)
        requires
            self.wf(),
        ensures
            r == self.num_ops(),
    {
        self.states.len()
    }

    /// The operation started with tag `tag`.
    pub fn kind(&self, tag: usize) -> (r: &OpKind)
        requires
            self.wf(),
            self.has_tag(tag),
        ensures
            *r == self.op_kind(tag as int),
    {
        &self.kinds[tag]
    }

    /// The batch type of operation `tag`.
    pub fn batch_type(&self, tag: usize) -> (r: BatchType)
        requires
            self.wf(),
            self.has_tag(tag),
        ensures
            r == self.op_type(tag as int),
    {
        self.types[tag]
    }

    /// Marks the completion queue of the call as shutting down: from now on no
    /// operation is started.
    pub fn shutdown_queue(&mut self)
        requires
            old(self).wf(),
        ensures
            final(self).wf(),
            final(self).is_queue_shutdown(),
            final(self).num_ops() == old(self).num_ops(),
            forall|t: int| 0 <= t < old(self).num_ops() ==> {
                &&& #[trigger] final(self).slot(t) == old(self).slot(t)
                &&& final(self).op_kind(t) == old(self).op_kind(t)
                &&& final(self).op_type(t) == old(self).op_type(t)
            },
            final(self).is_cancelled() == old(self).is_cancelled(),
    {
        self.queue_shutdown = true;
    }

    /// Fails with `QueueShutdown` once the queue has begun shutting down.
    pub fn check_queue(&self) -> (r: Result<(), Error>)
        ensures
            r is Err <==> self.is_queue_shutdown(),
            r is Err ==> r == Err::<(), Error>(Error::QueueShutdown),
    {
        if self.queue_shutdown {
            Err(Error::QueueShutdown)
        } else {
            Ok(())
        }
    }

    /// Whether the operation `tag` still waits for its completion.
    pub fn pending(&self, tag: usize) -> (r: bool)
        requires
            self.wf(),
        ensures
            r == (self.has_tag(tag) && self.is_pending(tag as int)),
    {
        tag < self.states.len() && match self.states[tag] {
            SlotState::Pending => true,
            _ => false,
        }
    }

    /// Starts a native operation of the given kind and batch type.
    fn submit(&mut self, kind: OpKind, ty: BatchType) -> (r: Result<BatchFuture, Error>)
        requires
            old(self).wf(),
        ensures
            final(self).wf(),
            old(self).is_queue_shutdown() ==> r == Err::<BatchFuture, Error>(Error::QueueShutdown)
                && *final(self) == *old(self),
            !old(self).is_queue_shutdown() ==> (r matches Ok(f) && f.tag == old(self).num_ops()) && final(self).extends(old(self), 1) && final(self).op_kind(
                old(self).num_ops() as int,
            ) == kind && final(self).op_type(old(self).num_ops() as int) == ty
                && final(self).is_pending(old(self).num_ops() as int),
    {
        if self.queue_shutdown {
            return Err(Error::QueueShutdown);
        }
        let tag = self.states.len();
        self.kinds.push(kind);
        self.types.push(ty);
        self.states.push(SlotState::Pending);
        Ok(BatchFuture { tag })
    }

    /// Sends a message asynchronously.
    pub fn start_send_message(&mut self, msg: &MessageWriter, write_flags: u32, initial_meta: bool)
        -> (r: Result<BatchFuture, Error>)
        requires
            old(self).wf(),
        ensures
            final(self).wf(),
            old(self).is_queue_shutdown() ==> r == Err::<BatchFuture, Error>(Error::QueueShutdown)
                && *final(self) == *old(self),
            !old(self).is_queue_shutdown() ==> (r matches Ok(f) && f.tag == old(self).num_ops()) && final(self).extends(old(self), 1) && final(self).is_pending(
                old(self).num_ops() as int,
            ) && final(self).op_type(old(self).num_ops() as int) == BatchType::Finish
                && final(self).op_kind(old(self).num_ops() as int).sends(
                msg@,
                write_flags,
                initial_meta,
            ),
    {
        let payload = msg.to_bytes();
        self.submit(OpKind::SendMessage { payload, flags: write_flags, initial_meta }, BatchType::Finish)
    }

    /// Starts a unary call: sends `req` and receives the single response
    /// together with the terminal status.
    pub fn start_unary(&mut self, req: &MessageWriter, write_flags: u32) -> (r: Result<BatchFuture, Error>)
        requires
            old(self).wf(),
        ensures
            final(self).wf(),
            old(self).is_queue_shutdown() ==> r == Err::<BatchFuture, Error>(Error::QueueShutdown)
                && *final(self) == *old(self),
            !old(self).is_queue_shutdown() ==> (r matches Ok(f) && f.tag == old(self).num_ops())
                && final(self).extends(old(self), 1) && final(self).is_pending(old(self).num_ops() as int)
                && final(self).op_type(old(self).num_ops() as int) == BatchType::CheckRead
                && final(self).op_kind(old(self).num_ops() as int) is Unary
                && final(self).op_kind(old(self).num_ops() as int)->Unary_payload@ == req@
                && final(self).op_kind(old(self).num_ops() as int)->Unary_flags == write_flags,
    {
        let payload = req.to_bytes();
        self.submit(OpKind::Unary { payload, flags: write_flags }, BatchType::CheckRead)
    }

    /// Starts a client-streaming call. The future yields the single response
    /// once the server has sent its status.
    pub fn start_client_streaming(&mut self) -> (r: Result<BatchFuture, Error>)
        requires
            old(self).wf(),
        ensures
            final(self).wf(),
            old(self).is_queue_shutdown() ==> r == Err::<BatchFuture, Error>(Error::QueueShutdown)
                && *final(self) == *old(self),
            !old(self).is_queue_shutdown() ==> (r matches Ok(f) && f.tag == old(self).num_ops())
                && final(self).extends(old(self), 1) && final(self).is_pending(old(self).num_ops() as int)
                && final(self).op_type(old(self).num_ops() as int) == BatchType::CheckRead
                && final(self).op_kind(old(self).num_ops() as int) is ClientStreaming,
    {
        self.submit(OpKind::ClientStreaming, BatchType::CheckRead)
    }

    /// Half-closes the call from the client.
    pub fn start_send_close_client(&mut self) -> (r: Result<BatchFuture, Error>)
        requires
            old(self).wf(),
        ensures
            final(self).wf(),
            old(self).is_queue_shutdown() ==> r == Err::<BatchFuture, Error>(Error::QueueShutdown)
                && *final(self) == *old(self),
            !old(self).is_queue_shutdown() ==> (r matches Ok(f) && f.tag == old(self).num_ops()) && final(self).extends(old(self), 1) && final(self).is_pending(
                old(self).num_ops() as int,
            ) && final(self).op_type(old(self).num_ops() as int) == BatchType::Finish
                && final(self).op_kind(old(self).num_ops() as int) is SendCloseFromClient,
    {
        self.submit(OpKind::SendCloseFromClient, BatchType::Finish)
    }

    /// Receives one message asynchronously.
    pub fn start_recv_message(&mut self) -> (r: Result<BatchFuture, Error>)
        requires
            old(self).wf(),
        ensures
            final(self).wf(),
            old(self).is_queue_shutdown() ==> r == Err::<BatchFuture, Error>(Error::QueueShutdown)
                && *final(self) == *old(self),
            !old(self).is_queue_shutdown() ==> (r matches Ok(f) && f.tag == old(self).num_ops()) && final(self).extends(old(self), 1) && final(self).is_pending(
                old(self).num_ops() as int,
            ) && final(self).op_type(old(self).num_ops() as int) == BatchType::Read
                && final(self).op_kind(old(self).num_ops() as int) is RecvMessage,
    {
        self.submit(OpKind::RecvMessage, BatchType::Read)
    }

    /// Accepts the call on the server. The future finishes once the client closes.
    pub fn start_server_side(&mut self) -> (r: Result<BatchFuture, Error>)
        requires
            old(self).wf(),
        ensures
            final(self).wf(),
            old(self).is_queue_shutdown() ==> r == Err::<BatchFuture, Error>(Error::QueueShutdown)
                && *final(self) == *old(self),
            !old(self).is_queue_shutdown() ==> (r matches Ok(f) && f.tag == old(self).num_ops()) && final(self).extends(old(self), 1) && final(self).is_pending(
                old(self).num_ops() as int,
            ) && final(self).op_type(old(self).num_ops() as int) == BatchType::Finish
                && final(self).op_kind(old(self).num_ops() as int) is ServerSide,
    {
        self.submit(OpKind::ServerSide, BatchType::Finish)
    }

    /// Sends the terminal status from the server, with an optional last message.
    pub fn start_send_status_from_server(
        &mut self,
        status: &RpcStatus,
        send_empty_metadata: bool,
        payload: &Option<Vec<u8>>,
        write_flags: u32,
    ) -> (r: Result<BatchFuture, Error>)
        requires
            old(self).wf(),
        ensures
            final(self).wf(),
            old(self).is_queue_shutdown() ==> r == Err::<BatchFuture, Error>(Error::QueueShutdown)
                && *final(self) == *old(self),
            !old(self).is_queue_shutdown() ==> (r matches Ok(f) && f.tag == old(self).num_ops()) && final(self).extends(old(self), 1) && final(self).is_pending(
                old(self).num_ops() as int,
            ) && final(self).op_type(old(self).num_ops() as int) == BatchType::Finish
                && final(self).op_kind(old(self).num_ops() as int).sends_status(
                *status,
                send_empty_metadata,
                bytes_of(*payload),
                write_flags,
            ),
    {
        let payload = match payload {
            Some(p) => Some(p.clone()),
            None => None,
        };
        self.submit(
            OpKind::SendStatus {
                status: status.duplicate(),
                send_metadata: send_empty_metadata,
                payload,
                flags: write_flags,
            },
            BatchType::Finish,
        )
    }

    /// Resolves the future of operation `tag` once the native layer reports it
    /// finished. Each tag is resolved exactly once.
    pub fn complete(&mut self, tag: usize, success: bool, ctx: BatchContext)
        requires
            old(self).wf(),
            old(self).has_tag(tag),
            old(self).is_pending(tag as int),
            resolvable(old(self).op_type(tag as int), success),
        ensures
            final(self).wf(),
            final(self).same_but_slot(old(self), tag as int),
            final(self).slot(tag as int) == SlotState::Resolved(
                batch_outcome(old(self).op_type(tag as int), success, ctx.status, ctx.message),
            ),
    {
        let batch = Batch { ty: self.types[tag], ctx };
        let result = batch.resolve(success);
        let mut slot = SlotState::Resolved(result);
        self.states.set_and_swap(tag, &mut slot);
    }

    /// Resolves the future of operation `tag` when the native layer refused,
    /// at once, to start it: the operation never reaches the poller, and its
    /// future yields `CallFailure(code)`.
    pub fn submission_failed(&mut self, tag: usize, code: i32)
        requires
            old(self).wf(),
            old(self).has_tag(tag),
            old(self).is_pending(tag as int),
        ensures
            final(self).wf(),
            final(self).same_but_slot(old(self), tag as int),
            final(self).slot(tag as int) == SlotState::Resolved(Err(Error::CallFailure(code))),
    {
        let mut slot = SlotState::Resolved(Err(Error::CallFailure(code)));
        self.states.set_and_swap(tag, &mut slot);
    }

    /// Polls the future of operation `tag`.
    ///
    /// Not ready while the operation is pending; once resolved, the first poll
    /// yields its result and every later one fails with `FutureStale`.
    pub fn poll(&mut self, f: &BatchFuture) -> (r: Result<Async<Option<Vec<u8>>>, Error>)
        requires
            old(self).wf(),
            old(self).has_tag(f.tag),
        ensures
            final(self).wf(),
            final(self).same_but_slot(old(self), f.tag as int),
            (final(self).slot(f.tag as int), r) == poll_outcome(old(self).slot(f.tag as int)),
            !(old(self).slot(f.tag as int) is Resolved) ==> *final(self) == *old(self),
            final(self).progresses(old(self)),
    {
        match self.states[f.tag] {
            SlotState::Pending => return Ok(Async::NotReady),
            SlotState::Taken => return Err(Error::FutureStale),
            SlotState::Resolved(_) => {},
        }
        let mut slot = SlotState::Taken;
        self.states.set_and_swap(f.tag, &mut slot);
        assert(self.progresses(old(self))) by {
            assert forall|t: int| 0 <= t < old(self).num_ops() implies {
                &&& #[trigger] self.op_kind(t) == old(self).op_kind(t)
                &&& self.op_type(t) == old(self).op_type(t)
                &&& (!old(self).is_pending(t) ==> !self.is_pending(t))
            } by {
                if t != f.tag {
                    assert(self.slot(t) == old(self).slot(t));
                }
            }
        }
        match slot {
            SlotState::Resolved(Ok(m)) => Ok(Async::Ready(m)),
            SlotState::Resolved(Err(e)) => Err(e),
            _ => Err(Error::FutureStale),
        }
    }

    /// Fails once the future of `tag` has finished: with `RemoteStopped` when
    /// the peer stopped the call, else as finished, with the status it failed
    /// with, if it failed with one.
    pub fn check_alive(&self, f: &BatchFuture) -> (r: Result<(), Error>)
        requires
            self.wf(),
            self.has_tag(f.tag),
        ensures
            r == alive_outcome(self.slot(f.tag as int)),
    {
        match &self.states[f.tag] {
            SlotState::Pending => Ok(()),
            SlotState::Resolved(Err(Error::RemoteStopped)) => Err(Error::RemoteStopped),
            SlotState::Resolved(Err(Error::RpcFailure(status))) => Err(
                Error::RpcFinished(Some(status.duplicate())),
            ),
            _ => Err(Error::RpcFinished(None)),
        }
    }

    /// Aborts a call before its handler runs, by sending `status` as the
    /// terminal status. Nothing is sent once the queue is shutting down.
    pub fn abort(&mut self, status: &RpcStatus)
        requires
            old(self).wf(),
        ensures
            final(self).wf(),
            old(self).is_queue_shutdown() ==> *final(self) == *old(self),
            !old(self).is_queue_shutdown() ==> {
                &&& final(self).extends(old(self), 1)
                &&& final(self).is_pending(old(self).num_ops() as int)
                &&& final(self).op_type(old(self).num_ops() as int) == BatchType::Finish
                &&& final(self).op_kind(old(self).num_ops() as int).sends_status(*status, true, None, 0)
            },
    {
        let _ = self.start_send_status_from_server(status, true, &None, 0);
    }

    /// Cancels the call; best effort and idempotent. Nothing happens once the
    /// queue is shutting down.
    pub fn cancel(&mut self)
        requires
            old(self).wf(),
        ensures
            final(self).wf(),
            final(self).num_ops() == old(self).num_ops(),
            forall|t: int| 0 <= t < old(self).num_ops() ==> {
                &&& #[trigger] final(self).slot(t) == old(self).slot(t)
                &&& final(self).op_kind(t) == old(self).op_kind(t)
                &&& final(self).op_type(t) == old(self).op_type(t)
            },
            final(self).is_queue_shutdown() == old(self).is_queue_shutdown(),
            final(self).is_cancelled() == (old(self).is_cancelled()
                || !old(self).is_queue_shutdown()),
    {
        if self.queue_shutdown {
            return;
        }
        self.cancelled = true;
    }

    /// Whether the call has been cancelled.
    pub fn cancelled(&self) -> (r: bool)
        ensures
            r == self.is_cancelled(),
    {
        self.cancelled
    }
}

/// A call that only had operations added follows the one before.
pub proof fn lemma_extends_progresses(new: Call, old: Call, n: nat)
    requires
        new.extends(&old, n),
    ensures
        new.progresses(&old),
{
    assert forall|t: int| 0 <= t < old.num_ops() implies {
        &&& #[trigger] new.op_kind(t) == old.op_kind(t)
        &&& new.op_type(t) == old.op_type(t)
        &&& (!old.is_pending(t) ==> !new.is_pending(t))
    } by {
        assert(new.slot(t) == old.slot(t));
    }
}

/// Extending is transitive.
pub proof fn lemma_extends_trans(a: Call, b: Call, c: Call, n1: nat, n2: nat)
    requires
        b.extends(&a, n1),
        c.extends(&b, n2),
    ensures
        c.extends(&a, n1 + n2),
        forall|t: int| 0 <= t < b.num_ops() ==> #[trigger] c.op_kind(t) == b.op_kind(t),
{
    assert forall|t: int| 0 <= t < a.num_ops() implies {
        &&& #[trigger] c.slot(t) == a.slot(t)
        &&& c.op_kind(t) == a.op_kind(t)
        &&& c.op_type(t) == a.op_type(t)
    } by {
        assert(b.slot(t) == a.slot(t));
        assert(c.slot(t) == b.slot(t));
    }
    assert forall|t: int| 0 <= t < b.num_ops() implies #[trigger] c.op_kind(t) == b.op_kind(t) by {
        assert(c.slot(t) == b.slot(t));
    }
}

/// Following is transitive.
pub proof fn lemma_progresses_trans(a: Call, b: Call, c: Call)
    requires
        b.progresses(&a),
        c.progresses(&b),
    ensures
        c.progresses(&a),
{
    assert forall|t: int| 0 <= t < a.num_ops() implies {
        &&& #[trigger] c.op_kind(t) == a.op_kind(t)
        &&& c.op_type(t) == a.op_type(t)
        &&& (!a.is_pending(t) ==> !c.is_pending(t))
    } by {
        assert(b.op_kind(t) == a.op_kind(t));
        assert(c.op_kind(t) == b.op_kind(t));
    }
}

/// What a poll of a future in state `slot` leaves behind, and what it returns.
pub open spec fn poll_outcome(slot: SlotState) -> (SlotState, Result<Async<Option<Vec<u8>>>, Error>) {
    match slot {
        SlotState::Pending => (SlotState::Pending, Ok(Async::NotReady)),
        SlotState::Resolved(Ok(m)) => (SlotState::Taken, Ok(Async::Ready(m))),
        SlotState::Resolved(Err(e)) => (SlotState::Taken, Err(e)),
        SlotState::Taken => (SlotState::Taken, Err(Error::FutureStale)),
    }
}

/// A future yields its result once: the poll that finds it resolved takes the
/// result, and every later poll fails with `FutureStale` without blocking.
pub proof fn law_future_resolves_once(slot: SlotState, n: nat)
    requires
        slot is Resolved,
    ensures
        poll_outcome(slot).0 is Taken,
        poll_outcome(slot).1 is Ok ==> poll_outcome(slot).1 matches Ok(Async::Ready(_)),
        repoll(poll_outcome(slot).0, n) == (SlotState::Taken, Err::<Async<Option<Vec<u8>>>, Error>(
            Error::FutureStale,
        )),
    decreases n,
{
    if n > 0 {
        law_future_resolves_once(slot, (n - 1) as nat);
    }
}

/// The state and result after polling a future `n + 1` times from `slot`.
pub open spec fn repoll(slot: SlotState, n: nat) -> (SlotState, Result<Async<Option<Vec<u8>>>, Error>)
    decreases n,
{
    if n == 0 {
        poll_outcome(slot)
    } else {
        repoll(poll_outcome(slot).0, (n - 1) as nat)
    }
}

/// What `check_alive` reports for a future in the given state.
pub open spec fn alive_outcome(slot: SlotState) -> Result<(), Error> {
    match slot {
        SlotState::Pending => Ok(()),
        SlotState::Resolved(Err(Error::RemoteStopped)) => Err(Error::RemoteStopped),
        SlotState::Resolved(Err(Error::RpcFailure(status))) => Err(
            Error::RpcFinished(Some(status)),
        ),
        _ => Err(Error::RpcFinished(None)),
    }
}

} // verus!
