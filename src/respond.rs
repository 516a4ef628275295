use vstd::prelude::*;

use crate::call::{
    lemma_extends_progresses, lemma_progresses_trans, poll_outcome, Async, BatchFuture, Call, SlotState,
};
use crate::flags::{WriteFlags, WRITE_BUFFER_HINT};
use crate::share::{finished_outcome, ShareCall};
use crate::sink::{
    lemma_writes_settled_kept, poll_complete_spec, write_completed, write_failed, write_pending,
    writes_settled, SinkBase,
};
use crate::status::{Error, RpcStatus, RpcStatusCode};

verus! {

/// Every message write started on `call` before operation `tag` has completed.
pub open spec fn flushed_before(call: Call, tag: int) -> bool {
    forall|t: int|
        0 <= t < tag && (#[trigger] call.op_kind(t)) is SendMessage ==> !call.is_pending(t)
}

/// The close future of `call` has resolved successfully.
pub open spec fn closed_ok(call: ShareCall) -> bool {
    call.call.slot(call.close_f.tag as int) matches SlotState::Resolved(Ok(_))
}

/// `f` names an operation of `call`, other than its close, that completed
/// successfully.
pub open spec fn sent_ok(f: Option<BatchFuture>, call: ShareCall) -> bool {
    f matches Some(g) && g.tag != call.close_f.tag && call.call.slot(g.tag as int) matches SlotState::Resolved(
        Ok(_),
    )
}

/// A poll result with the message, if any, left out.
pub open spec fn unit_outcome(r: Result<Async<Option<Vec<u8>>>, Error>) -> Result<Async<()>, Error> {
    match r {
        Ok(Async::Ready(_)) => Ok(Async::Ready(())),
        Ok(Async::NotReady) => Ok(Async::NotReady),
        Err(e) => Err(e),
    }
}

/// `f` names a pending operation of `call` other than its close.
pub open spec fn future_pending(f: Option<BatchFuture>, call: ShareCall) -> bool {
    f matches Some(g) && g.tag != call.close_f.tag && call.call.is_pending(g.tag as int)
}

/// No message write was started on `call` after operation `tag`.
pub open spec fn no_writes_after(call: Call, tag: int) -> bool {
    forall|t: int| tag < t < call.num_ops() ==> !((#[trigger] call.op_kind(t)) is SendMessage)
}

/// The server side of a streaming response: messages, then the terminal status.
pub struct ServerStreamingSink {
    pub base: SinkBase,
    /// The future of the terminal status, once it has been sent.
    pub flush_f: Option<BatchFuture>,
    pub status: RpcStatus,
    pub flushed: bool,
}

/// The response sink of a duplex call has the same shape.
pub type DuplexSink = ServerStreamingSink;

/// The future of a streaming response ended with an error status.
pub struct ServerStreamingSinkFailure {
    pub fail_f: Option<BatchFuture>,
    pub err: Option<Error>,
}

impl ServerStreamingSink {
    /// The sink's writes are settled, and the terminal status, if sent, was
    /// sent after every message write had completed.
    pub open spec fn inv(&self, call: ShareCall) -> bool {
        &&& call.wf()
        &&& writes_settled(self.base, call.call)
        &&& (self.flush_f matches Some(f) ==> {
            &&& call.call.has_tag(f.tag)
            &&& call.call.op_kind(f.tag as int) is SendStatus
            &&& flushed_before(call.call, f.tag as int)
            &&& no_writes_after(call.call, f.tag as int)
        })
    }

    pub fn new() -> (r: ServerStreamingSink)
        ensures
            r.base.batch_f is None,
            r.base.send_metadata,
            r.flush_f is None,
            !r.flushed,
            r.status.status == RpcStatusCode::Success,
            r.status.details is None,
    {
        ServerStreamingSink {
            base: SinkBase::new(true),
            flush_f: None,
            status: RpcStatus::ok(),
            flushed: false,
        }
    }

    /// Sets the status that `close` sends.
    pub fn set_status(&mut self, status: RpcStatus)
        requires
            old(self).flush_f is None,
        ensures
            final(self).status == status,
            final(self).base == old(self).base,
            final(self).flush_f == old(self).flush_f,
            final(self).flushed == old(self).flushed,
    {
        self.status = status;
    }

    /// Starts writing the serialized message `msg`; `Ok(false)` when the
    /// previous write is still in flight. Fails with `RemoteStopped` when the
    /// call has already closed, and starts nothing once the call has finished
    /// or the terminal status has been sent.
    pub fn start_send(&mut self, call: &mut ShareCall, msg: &[u8], flags: WriteFlags) -> (r: Result<
        bool,
        Error,
    >)
        requires
            old(self).inv(*old(call)),
        ensures
            final(self).inv(*final(call)),
            final(call).call.progresses(&old(call).call),
            final(call).close_f == old(call).close_f,
            final(self).flush_f == old(self).flush_f,
            final(self).status == old(self).status,
            old(self).flush_f is Some ==> r == Err::<bool, Error>(
                Error::RpcFinished(Some(old(self).status)),
            ) && *final(call) == *old(call) && *final(self) == *old(self),
            old(self).flush_f is None && old(call).finished ==> r is Err && *final(call) == *old(call),
            old(self).flush_f is None && old(call).finished ==> r == Err::<bool, Error>(
                Error::RpcFinished(old(call).status),
            ),
            old(self).flush_f is None && !old(call).finished && closed_ok(*old(call)) ==> r == Err::<
                bool,
                Error,
            >(Error::RemoteStopped) && final(call).finished,
            r matches Ok(true) ==> final(call).call.num_ops() == old(call).call.num_ops() + 1
                && final(call).call.op_kind(old(call).call.num_ops() as int).sends(
                msg@,
                if old(self).base.send_metadata && flags.hint_set() {
                    flags.flags & !WRITE_BUFFER_HINT
                } else {
                    flags.flags
                },
                old(self).base.send_metadata,
            ),
            !(r matches Ok(true)) ==> final(call).call.num_ops() == old(call).call.num_ops(),
            r == Ok::<bool, Error>(false) ==> final(self).base == old(self).base,
            old(self).flush_f is None && !old(call).finished && old(call).call.is_pending(
                old(call).close_f.tag as int,
            ) ==> {
                &&& write_completed(old(self).base, old(call).call) ==> if old(
                    call,
                ).call.is_queue_shutdown() {
                    r == Err::<bool, Error>(Error::QueueShutdown)
                } else {
                    r == Ok::<bool, Error>(true)
                }
                &&& write_pending(old(self).base, old(call).call) ==> r == Ok::<bool, Error>(false)
                    && *final(call) == *old(call)
                &&& write_failed(old(self).base, old(call).call) ==> r == Err::<bool, Error>(
                    poll_outcome(old(call).call.slot(old(self).base.batch_f->0.tag as int)).1->Err_0,
                )
            },
    {
        if self.flush_f.is_some() {
            return Err(Error::RpcFinished(Some(self.status.duplicate())));
        }
        let ghost start = *call;
        match call.poll_finish() {
            Ok(Async::Ready(_)) => return Err(Error::RemoteStopped),
            Err(e) => return Err(e),
            Ok(Async::NotReady) => {},
        }
        let ghost mid = *call;
        proof {
            lemma_writes_settled_kept(self.base, start.call, mid.call);
        }
        let r = self.base.start_send(call, msg, flags);
        proof {
            lemma_progresses_trans(start.call, mid.call, call.call);
        }
        r
    }

    /// Waits for the write in flight, if any.
    pub fn poll_complete(&mut self, call: &mut ShareCall) -> (r: Result<Async<()>, Error>)
        requires
            old(self).inv(*old(call)),
        ensures
            final(self).inv(*final(call)),
            final(call).call.progresses(&old(call).call),
            final(call).call.num_ops() == old(call).call.num_ops(),
            final(call).close_f == old(call).close_f,
            final(call).finished == old(call).finished,
            final(call).status == old(call).status,
            final(self).flush_f == old(self).flush_f,
            final(self).flushed == old(self).flushed,
            final(self).status == old(self).status,
            poll_complete_spec(old(self).base, final(self).base, old(call).call, final(call).call, r),
    {
        self.base.poll_complete(&mut call.call)
    }

    /// Flushes and closes the response: waits for the write in flight, then
    /// sends the terminal status and waits for it, then waits for the call to
    /// close. The terminal status is never sent while a write is in flight.
    pub fn close(&mut self, call: &mut ShareCall) -> (r: Result<Async<()>, Error>)
        requires
            old(self).inv(*old(call)),
        ensures
            final(self).inv(*final(call)),
            final(call).call.progresses(&old(call).call),
            final(call).close_f == old(call).close_f,
            old(self).flush_f is Some ==> final(self).flush_f == old(self).flush_f
                && final(call).call.num_ops() == old(call).call.num_ops(),
            old(self).flush_f is None && final(self).flush_f is Some ==> {
                let t = old(call).call.num_ops() as int;
                &&& final(self).flush_f->0.tag == t
                &&& old(self).base.batch_f is None || !old(call).call.is_pending(
                    old(self).base.batch_f->0.tag as int,
                )
                &&& final(call).call.op_kind(t).sends_status(
                    old(self).status,
                    old(self).base.send_metadata,
                    None,
                    0,
                )
                &&& flushed_before(final(call).call, t)
            },
            final(self).flush_f is None ==> final(call).call.num_ops() == old(call).call.num_ops(),
            old(self).flush_f is None && !old(call).finished && write_completed(old(self).base, old(call).call)
                && !old(call).call.is_queue_shutdown() ==> final(self).flush_f is Some,
            old(self).flush_f is None && !old(call).finished && write_pending(old(self).base, old(call).call)
                ==> (r matches Ok(Async::NotReady)) && final(self).flush_f is None,
            old(self).flush_f matches Some(f) && !old(self).flushed && old(call).call.is_pending(f.tag as int)
                ==> (r matches Ok(Async::NotReady)) && !final(self).flushed,
            old(self).flush_f is None && old(call).finished ==> *final(call) == *old(call)
                && *final(self) == *old(self) && if old(call).status.unwrap().status
                == RpcStatusCode::Success {
                r matches Ok(Async::Ready(()))
            } else {
                r == Err::<Async<()>, Error>(Error::RpcFailure(old(call).status.unwrap()))
            },
            old(self).flush_f is Some && (old(self).flushed || sent_ok(old(self).flush_f, *old(call)))
                ==> final(self).flushed && r == unit_outcome(
                if old(call).finished {
                    finished_outcome(old(call).status.unwrap())
                } else {
                    poll_outcome(old(call).call.slot(old(call).close_f.tag as int)).1
                },
            ),
            r matches Ok(Async::Ready(_)) ==> final(call).finished,
    {
        let ghost start = *call;
        if self.flush_f.is_none() {
            if call.finished {
                return match call.finished_result() {
                    Ok(_) => Ok(Async::Ready(())),
                    Err(e) => Err(e),
                };
            }
            match self.base.poll_complete(&mut call.call) {
                Ok(Async::Ready(())) => {},
                Ok(Async::NotReady) => return Ok(Async::NotReady),
                Err(e) => return Err(e),
            }
            let ghost mid = *call;
            let send_metadata = self.base.send_metadata;
            let flush_f = match call.call.start_send_status_from_server(
                &self.status,
                send_metadata,
                &None,
                0,
            ) {
                Ok(f) => f,
                Err(e) => return Err(e),
            };
            self.flush_f = Some(flush_f);
            proof {
                lemma_extends_progresses(call.call, mid.call, 1);
                lemma_progresses_trans(start.call, mid.call, call.call);
                assert forall|t: int|
                    0 <= t < flush_f.tag && (#[trigger] call.call.op_kind(t)) is SendMessage implies !call.call.is_pending(
                    t,
                ) by {
                    assert(mid.call.op_kind(t) is SendMessage);
                }
                assert forall|t: int|
                    0 <= t < call.call.num_ops() && (#[trigger] call.call.op_kind(t)) is SendMessage
                        && call.call.is_pending(t) implies crate::sink::in_flight(self.base, t) by {
                    assert(mid.call.op_kind(t) is SendMessage);
                }
            }
        }
        if !self.flushed {
            let flush_f = self.flush_f.unwrap();
            match call.call.poll(&flush_f) {
                Ok(Async::Ready(_)) => {},
                Ok(Async::NotReady) => return Ok(Async::NotReady),
                Err(e) => return Err(e),
            }
            self.flushed = true;
        }
        // Wait for the call to close; once it has, report how it ended.
        let res = if call.finished {
            call.finished_result()
        } else {
            call.poll_finish()
        };
        match res {
            Ok(Async::Ready(_)) => Ok(Async::Ready(())),
            Ok(Async::NotReady) => Ok(Async::NotReady),
            Err(e) => Err(e),
        }
    }

    /// Ends the response with `status` instead of closing it.
    pub fn fail(self, call: &mut ShareCall, status: RpcStatus) -> (r: ServerStreamingSinkFailure)
        requires
            old(call).wf(),
            self.flush_f is None,
        ensures
            final(call).wf(),
            final(call).close_f == old(call).close_f,
            final(call).finished == old(call).finished,
            final(call).status == old(call).status,
            final(call).call.is_queue_shutdown() ==> *final(call) == *old(call) && r.fail_f is None
                && r.err == Some(Error::QueueShutdown),
            !final(call).call.is_queue_shutdown() ==> {
                let t = old(call).call.num_ops() as int;
                &&& final(call).call.extends(&old(call).call, 1)
                &&& final(call).call.op_kind(t).sends_status(status, self.base.send_metadata, None, 0)
                &&& r.fail_f matches Some(f) && f.tag == t
                &&& r.err is None
            },
    {
        let res = call.call.start_send_status_from_server(&status, self.base.send_metadata, &None, 0);
        match res {
            Ok(f) => ServerStreamingSinkFailure { fail_f: Some(f), err: None },
            Err(e) => ServerStreamingSinkFailure { fail_f: None, err: Some(e) },
        }
    }
}

impl ServerStreamingSinkFailure {
    pub open spec fn inv(&self, call: ShareCall) -> bool {
        &&& call.wf()
        &&& (self.fail_f matches Some(f) ==> call.call.has_tag(f.tag))
    }

    /// Waits for the error status to be sent and for the call to close.
    pub fn poll(&mut self, call: &mut ShareCall) -> (r: Result<Async<()>, Error>)
        requires
            old(self).inv(*old(call)),
        ensures
            final(self).inv(*final(call)),
            final(call).call.progresses(&old(call).call),
            final(call).call.num_ops() == old(call).call.num_ops(),
            final(call).close_f == old(call).close_f,
            old(self).err matches Some(e) ==> r == Err::<Async<()>, Error>(e)
                && *final(call) == *old(call),
            old(self).err is None && future_pending(old(self).fail_f, *old(call)) && (old(call).finished
                || old(call).call.is_pending(old(call).close_f.tag as int)) ==> (r matches Ok(
                Async::NotReady,
            )),
            old(self).err is None && old(self).fail_f is None && (old(call).finished || closed_ok(
                *old(call),
            )) ==> (r matches Ok(Async::Ready(()))),
            old(self).err is None && sent_ok(old(self).fail_f, *old(call)) && (old(call).finished
                || closed_ok(*old(call))) ==> (r matches Ok(Async::Ready(()))) && final(self).fail_f is None,
            old(self).err is None && !old(call).finished && !old(call).call.is_pending(
                old(call).close_f.tag as int,
            ) && !closed_ok(*old(call)) ==> r == Err::<Async<()>, Error>(
                poll_outcome(old(call).call.slot(old(call).close_f.tag as int)).1->Err_0,
            ),
    {
        if let Some(e) = self.err.take() {
            return Err(e);
        }
        let ghost start = *call;
        let readiness = if call.finished {
            Async::Ready(())
        } else {
            match call.poll_finish() {
                Ok(Async::Ready(_)) => Async::Ready(()),
                Ok(Async::NotReady) => Async::NotReady,
                Err(e) => return Err(e),
            }
        };
        let ghost mid = *call;
        if let Some(f) = self.fail_f {
            match call.call.poll(&f) {
                Ok(Async::Ready(_)) => {},
                Ok(Async::NotReady) => {
                    proof {
                        lemma_progresses_trans(start.call, mid.call, call.call);
                    }
                    return Ok(Async::NotReady);
                },
                Err(e) => {
                    proof {
                        lemma_progresses_trans(start.call, mid.call, call.call);
                    }
                    return Err(e);
                },
            }
        }
        proof {
            lemma_progresses_trans(start.call, mid.call, call.call);
        }
        self.fail_f = None;
        Ok(readiness)
    }
}

/// The server side of a single response: one message with the terminal
/// status, or an error status alone.
pub struct UnarySink {
    pub write_flags: u32,
}

/// The response sink of a client-streaming call has the same shape.
pub type ClientStreamingSink = UnarySink;

/// The future of a single response.
pub struct UnarySinkResult {
    pub cq_f: Option<BatchFuture>,
    pub err: Option<Error>,
}

impl UnarySink {
    pub fn new() -> (r: UnarySink)
        ensures
            r.write_flags == 0,
    {
        UnarySink { write_flags: 0 }
    }

    /// Responds with the serialized message `resp` and status `Success`.
    pub fn success(self, call: &mut ShareCall, resp: Vec<u8>) -> (r: UnarySinkResult)
        requires
            old(call).wf(),
        ensures
            final(call).wf(),
            final(call).close_f == old(call).close_f,
            final(call).finished == old(call).finished,
            final(call).status == old(call).status,
            final(call).call.is_queue_shutdown() ==> *final(call) == *old(call) && r.cq_f is None
                && r.err == Some(Error::QueueShutdown),
            !final(call).call.is_queue_shutdown() ==> {
                let t = old(call).call.num_ops() as int;
                &&& final(call).call.extends(&old(call).call, 1)
                &&& final(call).call.op_kind(t).sends_status(
                    RpcStatus { status: RpcStatusCode::Success, details: None },
                    true,
                    Some(resp@),
                    self.write_flags,
                )
                &&& r.cq_f matches Some(f) && f.tag == t
                &&& r.err is None
            },
    {
        self.complete(call, RpcStatus::ok(), Some(resp))
    }

    /// Responds with the error status `status` and no message.
    pub fn fail(self, call: &mut ShareCall, status: RpcStatus) -> (r: UnarySinkResult)
        requires
            old(call).wf(),
        ensures
            final(call).wf(),
            final(call).close_f == old(call).close_f,
            final(call).finished == old(call).finished,
            final(call).status == old(call).status,
            final(call).call.is_queue_shutdown() ==> *final(call) == *old(call) && r.cq_f is None
                && r.err == Some(Error::QueueShutdown),
            !final(call).call.is_queue_shutdown() ==> {
                let t = old(call).call.num_ops() as int;
                &&& final(call).call.extends(&old(call).call, 1)
                &&& final(call).call.op_kind(t).sends_status(status, true, None, self.write_flags)
                &&& r.cq_f matches Some(f) && f.tag == t
                &&& r.err is None
            },
    {
        self.complete(call, status, None)
    }

    fn complete(self, call: &mut ShareCall, status: RpcStatus, data: Option<Vec<u8>>) -> (r:
        UnarySinkResult)
        requires
            old(call).wf(),
        ensures
            final(call).wf(),
            final(call).close_f == old(call).close_f,
            final(call).finished == old(call).finished,
            final(call).status == old(call).status,
            final(call).call.is_queue_shutdown() ==> *final(call) == *old(call) && r.cq_f is None
                && r.err == Some(Error::QueueShutdown),
            !final(call).call.is_queue_shutdown() ==> {
                let t = old(call).call.num_ops() as int;
                &&& final(call).call.extends(&old(call).call, 1)
                &&& final(call).call.op_kind(t).sends_status(
                    status,
                    true,
                    crate::call::bytes_of(data),
                    self.write_flags,
                )
                &&& r.cq_f matches Some(f) && f.tag == t
                &&& r.err is None
            },
    {
        let res = call.call.start_send_status_from_server(&status, true, &data, self.write_flags);
        match res {
            Ok(f) => UnarySinkResult { cq_f: Some(f), err: None },
            Err(e) => UnarySinkResult { cq_f: None, err: Some(e) },
        }
    }
}

impl UnarySinkResult {
    pub open spec fn inv(&self, call: ShareCall) -> bool {
        &&& call.wf()
        &&& (self.cq_f matches Some(f) ==> call.call.has_tag(f.tag))
    }

    /// Waits for the response to be sent and for the call to close.
    pub fn poll(&mut self, call: &mut ShareCall) -> (r: Result<Async<()>, Error>)
        requires
            old(self).inv(*old(call)),
        ensures
            final(self).inv(*final(call)),
            final(call).call.progresses(&old(call).call),
            final(call).call.num_ops() == old(call).call.num_ops(),
            final(call).close_f == old(call).close_f,
            old(self).err matches Some(e) ==> r == Err::<Async<()>, Error>(e)
                && *final(call) == *old(call),
            r matches Ok(Async::Ready(())) ==> final(call).finished,
            old(self).err is None && future_pending(old(self).cq_f, *old(call)) ==> (r matches Ok(
                Async::NotReady,
            )),
            old(self).err is None && (old(self).cq_f is None || sent_ok(old(self).cq_f, *old(call)))
                ==> r == unit_outcome(
                if old(call).finished {
                    finished_outcome(old(call).status.unwrap())
                } else {
                    poll_outcome(old(call).call.slot(old(call).close_f.tag as int)).1
                },
            ),
    {
        if let Some(e) = self.err.take() {
            return Err(e);
        }
        let ghost start = *call;
        if let Some(f) = self.cq_f {
            match call.call.poll(&f) {
                Ok(Async::Ready(_)) => {},
                Ok(Async::NotReady) => return Ok(Async::NotReady),
                Err(e) => return Err(e),
            }
            self.cq_f = None;
        }
        let ghost mid = *call;
        let res = if call.finished {
            call.finished_result()
        } else {
            call.poll_finish()
        };
        let r = match res {
            Ok(Async::Ready(_)) => Ok(Async::Ready(())),
            Ok(Async::NotReady) => Ok(Async::NotReady),
            Err(e) => Err(e),
        };
        proof {
            lemma_progresses_trans(start.call, mid.call, call.call);
        }
        r
    }
}

/// Flush before terminate: a sink sends its terminal operation (the status
/// on a server, the half-close on a client) only once every message write
/// started before it has completed, as its `close` states; and this stays so
/// whatever else then happens on the call, in any order.
pub proof fn law_flush_before_terminate(then: Call, now: Call, terminal: int)
    requires
        flushed_before(then, terminal),
        terminal <= then.num_ops(),
        now.progresses(&then),
    ensures
        flushed_before(now, terminal),
{
    assert forall|t: int| 0 <= t < terminal && (#[trigger] now.op_kind(t)) is SendMessage implies !now.is_pending(t) by {
        assert(then.op_kind(t) is SendMessage);
    }
}

} // verus!
