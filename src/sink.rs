use vstd::prelude::*;

use crate::call::{lemma_extends_progresses, lemma_progresses_trans, poll_outcome, Async, BatchFuture, Call, SlotState};
use crate::flags::{WriteFlags, WRITE_BUFFER_HINT};
use crate::message::MessageWriter;
use crate::share::ShareCall;
use crate::status::Error;

verus! {

/// The write side of a call: at most one message write in flight.
pub struct SinkBase {
    pub batch_f: Option<BatchFuture>,
    pub buf: MessageWriter,
    /// Whether the next write carries the response headers.
    pub send_metadata: bool,
}

/// No write is in flight, or the one in flight has completed successfully.
pub open spec fn write_completed(base: SinkBase, call: Call) -> bool {
    base.batch_f matches Some(f) ==> call.slot(f.tag as int) matches SlotState::Resolved(Ok(_))
}

/// The write in flight failed, or its result was already taken.
pub open spec fn write_failed(base: SinkBase, call: Call) -> bool {
    base.batch_f matches Some(f) && poll_outcome(call.slot(f.tag as int)).1 is Err
}

/// A write is in flight and still pending.
pub open spec fn write_pending(base: SinkBase, call: Call) -> bool {
    base.batch_f matches Some(f) && call.is_pending(f.tag as int)
}

/// What waiting for the write in flight does, from `ob` and `oc` to `nb` and
/// `nc`, returning `r`.
pub open spec fn poll_complete_spec(ob: SinkBase, nb: SinkBase, oc: Call, nc: Call, r: Result<Async<()>, Error>) -> bool {
    &&& nb.send_metadata == ob.send_metadata
    &&& nb.buf@ == ob.buf@
    &&& ob.batch_f is None ==> (r matches Ok(Async::Ready(()))) && nc == oc && nb == ob
    &&& ob.batch_f matches Some(f) ==> match poll_outcome(oc.slot(f.tag as int)).1 {
        Ok(Async::NotReady) => (r matches Ok(Async::NotReady)) && nb == ob && nc == oc,
        Ok(_) => (r matches Ok(Async::Ready(()))) && nb.batch_f is None,
        Err(e) => r == Err::<Async<()>, Error>(e) && nb.batch_f == ob.batch_f,
    }
    &&& r matches Ok(Async::Ready(())) ==> nb.batch_f is None
}

/// The write in flight is operation `t`.
pub open spec fn in_flight(base: SinkBase, t: int) -> bool {
    base.batch_f matches Some(f) && f.tag == t
}

/// Every message write on `call` that has not completed is the one in flight.
pub open spec fn writes_settled(base: SinkBase, call: Call) -> bool {
    &&& call.wf()
    &&& (base.batch_f matches Some(f) ==> call.has_tag(f.tag) && call.op_kind(f.tag as int) is SendMessage)
    &&& forall|t: int|
        0 <= t < call.num_ops() && (#[trigger] call.op_kind(t)) is SendMessage && call.is_pending(t)
            ==> in_flight(base, t)
}

/// No message write on `call` waits for its completion.
pub open spec fn no_pending_writes(call: Call) -> bool {
    forall|t: int| 0 <= t < call.num_ops() && (#[trigger] call.op_kind(t)) is SendMessage ==> !call.is_pending(t)
}

/// `new` follows `old` and starts no message write.
pub open spec fn no_new_writes(new: Call, old: Call) -> bool {
    &&& new.progresses(&old)
    &&& forall|t: int| old.num_ops() <= t < new.num_ops() ==> !((#[trigger] new.op_kind(t)) is SendMessage)
}

/// Whatever else happens on a call, as long as no other message write is
/// started, the sink's writes stay settled.
pub proof fn lemma_writes_settled_kept(base: SinkBase, old: Call, new: Call)
    requires
        writes_settled(base, old),
        new.wf(),
        no_new_writes(new, old),
    ensures
        writes_settled(base, new),
{
    assert forall|t: int|
        0 <= t < new.num_ops() && (#[trigger] new.op_kind(t)) is SendMessage && new.is_pending(t)
            implies in_flight(base, t) by {
        if t < old.num_ops() {
            assert(old.op_kind(t) is SendMessage);
        }
    }
}

impl SinkBase {
    pub fn new(send_metadata: bool) -> (r: SinkBase)
        ensures
            r.batch_f is None,
            r.buf@ == Seq::<u8>::empty(),
            r.send_metadata == send_metadata,
    {
        SinkBase { batch_f: None, buf: MessageWriter::new(), send_metadata }
    }

    /// Waits for the write in flight, if any.
    pub fn poll_complete(&mut self, call: &mut Call) -> (r: Result<Async<()>, Error>)
        requires
            writes_settled(*old(self), *old(call)),
        ensures
            writes_settled(*final(self), *final(call)),
            no_new_writes(*final(call), *old(call)),
            final(call).num_ops() == old(call).num_ops(),
            final(call).is_queue_shutdown() == old(call).is_queue_shutdown(),
            final(call).is_cancelled() == old(call).is_cancelled(),
            poll_complete_spec(*old(self), *final(self), *old(call), *final(call), r),
    {
        if let Some(batch_f) = self.batch_f {
            match call.poll(&batch_f) {
                Ok(Async::NotReady) => return Ok(Async::NotReady),
                Err(e) => return Err(e),
                Ok(Async::Ready(_)) => {},
            }
        }
        self.batch_f = None;
        Ok(Async::Ready(()))
    }

    /// Starts writing `msg` unless a previous write is still in flight, in
    /// which case it returns `false` and changes nothing. A previous write
    /// that failed fails this one; a finished call takes no more writes.
    ///
    /// The first write carries the response headers; a buffer hint on it is
    /// dropped, so that the headers go out.
    pub fn start_send(&mut self, call: &mut ShareCall, msg: &[u8], flags: WriteFlags) -> (r: Result<bool, Error>)
        requires
            old(call).wf(),
            writes_settled(*old(self), old(call).call),
        ensures
            final(call).wf(),
            writes_settled(*final(self), final(call).call),
            final(call).call.progresses(&old(call).call),
            final(call).close_f == old(call).close_f,
            final(call).finished == old(call).finished,
            final(call).status == old(call).status,
            final(call).call.is_queue_shutdown() == old(call).call.is_queue_shutdown(),
            final(call).call.is_cancelled() == old(call).call.is_cancelled(),
            old(call).finished ==> r == Err::<bool, Error>(Error::RpcFinished(old(call).status))
                && *final(call) == *old(call) && *final(self) == *old(self),
            r matches Ok(true) ==> {
                let t = final(call).call.num_ops() - 1;
                &&& final(call).call.num_ops() == old(call).call.num_ops() + 1
                &&& final(call).call.op_kind(t).sends(
                    msg@,
                    if old(self).send_metadata && flags.hint_set() {
                        flags.flags & !WRITE_BUFFER_HINT
                    } else {
                        flags.flags
                    },
                    old(self).send_metadata,
                )
                &&& final(self).batch_f == Some(BatchFuture { tag: t as usize })
                &&& final(self).buf@ == msg@
                &&& !final(self).send_metadata
            },
            !(r matches Ok(true)) ==> final(call).call.num_ops() == old(call).call.num_ops()
                && final(self).send_metadata == old(self).send_metadata,
            r == Ok::<bool, Error>(false) ==> *final(self) == *old(self) && *final(call) == *old(call),
            !old(call).finished && write_completed(*old(self), old(call).call) ==> if old(
                call,
            ).call.is_queue_shutdown() {
                r == Err::<bool, Error>(Error::QueueShutdown)
            } else {
                r == Ok::<bool, Error>(true)
            },
            !old(call).finished && write_pending(*old(self), old(call).call) ==> r == Ok::<bool, Error>(
                false,
            ),
            !old(call).finished && write_failed(*old(self), old(call).call) ==> r == Err::<bool, Error>(
                poll_outcome(old(call).call.slot(old(self).batch_f->0.tag as int)).1->Err_0,
            ),
    {
        if call.finished {
            return Err(Error::RpcFinished(call.status_copy()));
        }
        let ghost start = *call;
        if self.batch_f.is_some() {
            match self.poll_complete(&mut call.call) {
                Err(e) => return Err(e),
                _ => {},
            }
            if self.batch_f.is_some() {
                return Ok(false);
            }
        }
        let ghost mid = *call;
        self.buf.clear();
        let _ = self.buf.write(msg);
        let mut flags = flags;
        if flags.get_buffer_hint() && self.send_metadata {
            flags = flags.buffer_hint(false);
        }
        let f = match call.call.start_send_message(&self.buf, flags.flags, self.send_metadata) {
            Ok(f) => f,
            Err(e) => return Err(e),
        };
        self.batch_f = Some(f);
        self.send_metadata = false;
        proof {
            lemma_extends_progresses(call.call, mid.call, 1);
            lemma_progresses_trans(start.call, mid.call, call.call);
            assert forall|t: int|
                0 <= t < call.call.num_ops() && (#[trigger] call.call.op_kind(t)) is SendMessage
                    && call.call.is_pending(t) implies in_flight(*self, t) by {
                if t < mid.call.num_ops() {
                    assert(mid.call.op_kind(t) is SendMessage);
                }
            }
        }
        Ok(true)
    }
}

} // verus!
