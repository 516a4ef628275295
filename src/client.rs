use vstd::prelude::*;

use crate::call::{lemma_extends_progresses, lemma_progresses_trans, poll_outcome, Async, BatchFuture};
use crate::flags::WriteFlags;
use crate::respond::{flushed_before, no_writes_after};
use crate::share::ShareCall;
use crate::sink::{
    in_flight, lemma_writes_settled_kept, poll_complete_spec, write_completed, write_failed,
    write_pending, writes_settled, SinkBase,
};
use crate::status::Error;

verus! {

/// The client side of a request stream: messages, then the half-close.
pub struct StreamingCallSink {
    pub base: SinkBase,
    /// The future of the half-close, once it has been sent.
    pub close_f: Option<BatchFuture>,
    /// Whether the half-close has completed.
    pub flushed: bool,
}

/// Readiness once the half-close has completed: the call's terminal-close
/// future has resolved.
pub open spec fn call_closed(call: ShareCall) -> Result<Async<()>, Error> {
    if call.finished || !call.call.is_pending(call.close_f.tag as int) {
        Ok(Async::Ready(()))
    } else {
        Ok(Async::NotReady)
    }
}

impl StreamingCallSink {
    /// The sink's writes are settled, and the half-close, if sent, was sent
    /// after every message write had completed.
    pub open spec fn inv(&self, call: ShareCall) -> bool {
        &&& call.wf()
        &&& !self.base.send_metadata
        &&& writes_settled(self.base, call.call)
        &&& (self.close_f matches Some(f) ==> {
            &&& call.call.has_tag(f.tag)
            &&& call.call.op_kind(f.tag as int) is SendCloseFromClient
            &&& flushed_before(call.call, f.tag as int)
            &&& no_writes_after(call.call, f.tag as int)
        })
    }

    pub fn new() -> (r: StreamingCallSink)
        ensures
            r.base.batch_f is None,
            !r.base.send_metadata,
            r.close_f is None,
            !r.flushed,
    {
        StreamingCallSink { base: SinkBase::new(false), close_f: None, flushed: false }
    }

    /// Starts writing the serialized message `msg`; `Ok(false)` when the
    /// previous write is still in flight. Once the call has finished, fails
    /// with its recorded status and starts nothing; after the half-close, no
    /// write is started either.
    pub fn start_send(&mut self, call: &mut ShareCall, msg: &[u8], flags: WriteFlags) -> (r: Result<
        bool,
        Error,
    >)
        requires
            old(self).inv(*old(call)),
        ensures
            final(self).inv(*final(call)),
            final(call).call.progresses(&old(call).call),
            final(call).close_f == old(call).close_f,
            final(call).finished == old(call).finished,
            final(call).status == old(call).status,
            final(self).close_f == old(self).close_f,
            old(self).close_f is Some ==> r == Err::<bool, Error>(Error::RpcFinished(None))
                && *final(call) == *old(call) && *final(self) == *old(self),
            old(self).close_f is None && old(call).finished ==> r == Err::<bool, Error>(
                Error::RpcFinished(old(call).status),
            ) && *final(call) == *old(call),
            r matches Ok(true) ==> final(call).call.num_ops() == old(call).call.num_ops() + 1
                && final(call).call.op_kind(old(call).call.num_ops() as int).sends(
                msg@,
                flags.flags,
                false,
            ),
            !(r matches Ok(true)) ==> final(call).call.num_ops() == old(call).call.num_ops(),
            r == Ok::<bool, Error>(false) ==> final(self).base == old(self).base
                && *final(call) == *old(call),
            old(self).close_f is None && !old(call).finished && old(call).call.is_pending(
                old(call).close_f.tag as int,
            ) ==> {
                &&& write_completed(old(self).base, old(call).call) ==> if old(
                    call,
                ).call.is_queue_shutdown() {
                    r == Err::<bool, Error>(Error::QueueShutdown)
                } else {
                    r == Ok::<bool, Error>(true)
                }
                &&& write_pending(old(self).base, old(call).call) ==> r == Ok::<bool, Error>(false)
                &&& write_failed(old(self).base, old(call).call) ==> r == Err::<bool, Error>(
                    poll_outcome(old(call).call.slot(old(self).base.batch_f->0.tag as int)).1->Err_0,
                )
            },
    {
        if self.close_f.is_some() {
            return Err(Error::RpcFinished(None));
        }
        match call.check_alive() {
            Err(e) => return Err(e),
            Ok(()) => {},
        }
        self.base.start_send(call, msg, flags)
    }

    /// Waits for the write in flight, if any.
    pub fn poll_complete(&mut self, call: &mut ShareCall) -> (r: Result<Async<()>, Error>)
        requires
            old(self).inv(*old(call)),
        ensures
            final(self).inv(*final(call)),
            final(call).call.progresses(&old(call).call),
            final(call).call.num_ops() == old(call).call.num_ops(),
            final(call).close_f == old(call).close_f,
            final(call).finished == old(call).finished,
            final(call).status == old(call).status,
            final(self).close_f == old(self).close_f,
            poll_complete_spec(old(self).base, final(self).base, old(call).call, final(call).call, r),
    {
        self.base.poll_complete(&mut call.call)
    }

    /// Flushes and half-closes: waits for the write in flight, then sends the
    /// half-close and waits for it, then waits for the call to close. The
    /// half-close is never sent while a write is in flight.
    pub fn close(&mut self, call: &mut ShareCall) -> (r: Result<Async<()>, Error>)
        requires
            old(self).inv(*old(call)),
        ensures
            final(self).inv(*final(call)),
            final(call).call.progresses(&old(call).call),
            final(call).close_f == old(call).close_f,
            final(call).finished == old(call).finished,
            old(self).close_f is Some ==> final(self).close_f == old(self).close_f
                && final(call).call.num_ops() == old(call).call.num_ops(),
            old(self).close_f is None && final(self).close_f is Some ==> {
                let t = old(call).call.num_ops() as int;
                &&& final(self).close_f->0.tag == t
                &&& final(call).call.num_ops() == t + 1
                &&& old(self).base.batch_f is None || !old(call).call.is_pending(
                    old(self).base.batch_f->0.tag as int,
                )
                &&& flushed_before(final(call).call, t)
            },
            final(self).close_f is None ==> final(call).call.num_ops() == old(call).call.num_ops(),
            old(self).close_f is None && write_completed(old(self).base, old(call).call)
                && !old(call).call.is_queue_shutdown() ==> final(self).close_f is Some,
            old(self).close_f is None && write_pending(old(self).base, old(call).call) ==> (r matches Ok(
                Async::NotReady,
            )) && final(self).close_f is None,
            old(self).close_f is Some && !old(self).flushed ==> match poll_outcome(
                old(call).call.slot(old(self).close_f->0.tag as int),
            ).1 {
                Ok(Async::Ready(_)) => final(self).flushed && r == call_closed(*final(call)),
                Ok(Async::NotReady) => (r matches Ok(Async::NotReady)) && !final(self).flushed,
                Err(e) => r == Err::<Async<()>, Error>(e),
            },
            old(self).close_f is Some && old(self).flushed ==> r == call_closed(*old(call))
                && *final(call) == *old(call) && *final(self) == *old(self),
            r matches Ok(Async::Ready(())) ==> final(self).flushed && (final(call).finished
                || !final(call).call.is_pending(final(call).close_f.tag as int)),
    {
        let ghost start = *call;
        if self.close_f.is_none() {
            match self.base.poll_complete(&mut call.call) {
                Ok(Async::Ready(())) => {},
                Ok(Async::NotReady) => return Ok(Async::NotReady),
                Err(e) => return Err(e),
            }
            let ghost mid = *call;
            let close_f = match call.call.start_send_close_client() {
                Ok(f) => f,
                Err(e) => return Err(e),
            };
            self.close_f = Some(close_f);
            proof {
                lemma_extends_progresses(call.call, mid.call, 1);
                lemma_progresses_trans(start.call, mid.call, call.call);
                assert forall|t: int|
                    0 <= t < close_f.tag && (#[trigger] call.call.op_kind(t)) is SendMessage implies !call.call.is_pending(
                    t,
                ) by {
                    assert(mid.call.op_kind(t) is SendMessage);
                }
                assert forall|t: int|
                    0 <= t < call.call.num_ops() && (#[trigger] call.call.op_kind(t)) is SendMessage
                        && call.call.is_pending(t) implies in_flight(self.base, t) by {
                    assert(mid.call.op_kind(t) is SendMessage);
                }
            }
        }
        let close_f = self.close_f.unwrap();
        let ghost before = *call;
        if !self.flushed {
            let r = call.call.poll(&close_f);
            proof {
                lemma_progresses_trans(start.call, before.call, call.call);
                lemma_writes_settled_kept(self.base, before.call, call.call);
            }
            match r {
                Ok(Async::Ready(_)) => {},
                Ok(Async::NotReady) => return Ok(Async::NotReady),
                Err(e) => return Err(e),
            }
            self.flushed = true;
        }
        // The terminal status of the call is waited for, not taken: it is
        // the receiving side that reads it.
        let close_tag = call.close_f.tag;
        if call.finished || !call.call.pending(close_tag) {
            Ok(Async::Ready(()))
        } else {
            Ok(Async::NotReady)
        }
    }
}

} // verus!
