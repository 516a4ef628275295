use vstd::prelude::*;

use crate::call::{alive_outcome, poll_outcome, Async, BatchFuture, Call, SlotState};
use crate::share::{close_result, finish_status, ShareCall};
use crate::status::Error;

verus! {

/// The read side of a call: one decoded message per item.
///
/// At most one receive is in flight (`msg_f`); `close_f`, when present, is the
/// future of the call's terminal status.
pub struct StreamingBase {
    pub close_f: Option<BatchFuture>,
    pub msg_f: Option<BatchFuture>,
    pub read_done: bool,
}

/// The futures of `base` name operations of `call`.
pub open spec fn base_wf(base: StreamingBase, call: Call) -> bool {
    &&& call.wf()
    &&& (base.close_f matches Some(f) ==> call.has_tag(f.tag))
    &&& (base.msg_f matches Some(f) ==> call.has_tag(f.tag) && call.op_kind(f.tag as int) is RecvMessage)
    &&& (base.close_f matches Some(c) ==> base.msg_f matches Some(m) ==> c.tag != m.tag)
}

/// The close future of `base` has failed, or was already taken.
pub open spec fn close_failed(base: StreamingBase, call: Call) -> bool {
    base.close_f matches Some(f) && !(call.slot(f.tag as int) is Pending) && !(call.slot(
        f.tag as int,
    ) matches SlotState::Resolved(Ok(_)))
}

/// The close future of `base` resolves successfully in `call`.
pub open spec fn close_succeeded(base: StreamingBase, call: Call) -> bool {
    base.close_f matches Some(f) && call.slot(f.tag as int) matches SlotState::Resolved(Ok(_))
}

/// The in-flight receive of `base` delivered `m` (a message, or `None` at the
/// end of the stream).
pub open spec fn read_delivered(base: StreamingBase, call: Call, m: Option<Vec<u8>>) -> bool {
    base.msg_f matches Some(f) && call.slot(f.tag as int) == SlotState::Resolved(Ok(m))
}

/// The in-flight receive of `base` has not completed.
pub open spec fn read_pending(base: StreamingBase, call: Call) -> bool {
    base.msg_f matches Some(f) && call.is_pending(f.tag as int)
}

/// The in-flight receive of `base` failed, or its result was already taken.
pub open spec fn read_failed(base: StreamingBase, call: Call) -> bool {
    base.msg_f matches Some(f) && !(call.slot(f.tag as int) is Pending) && !(call.slot(
        f.tag as int,
    ) matches SlotState::Resolved(Ok(_)))
}

/// `new` differs from `old` only in slots that were not pending before and
/// in at most one receive started at its end.
pub open spec fn reads_only(new: Call, old: Call) -> bool {
    &&& old.num_ops() <= new.num_ops() <= old.num_ops() + 1
    &&& forall|t: int| 0 <= t < old.num_ops() ==> {
        &&& #[trigger] new.op_kind(t) == old.op_kind(t)
        &&& new.op_type(t) == old.op_type(t)
        &&& (old.slot(t) is Pending ==> new.slot(t) is Pending)
    }
    &&& new.num_ops() > old.num_ops() ==> new.op_kind(old.num_ops() as int) is RecvMessage
        && new.is_pending(old.num_ops() as int)
    &&& new.is_queue_shutdown() == old.is_queue_shutdown()
    &&& new.is_cancelled() == old.is_cancelled()
}

/// What one poll of the read side does, from `ob` and `oc` to `nb` and `nc`,
/// returning `r`.
pub open spec fn poll_spec(
    ob: StreamingBase,
    nb: StreamingBase,
    oc: ShareCall,
    nc: ShareCall,
    r: Result<Async<Option<Vec<u8>>>, Error>,
) -> bool {
    let call = oc.call;
    &&& close_failed(ob, call) ==> {
        &&& r == poll_outcome(call.slot(ob.close_f->0.tag as int)).1
        &&& nb.msg_f == ob.msg_f
        &&& nb.read_done == ob.read_done
        &&& nc.call.num_ops() == call.num_ops()
    }
    &&& !close_failed(ob, call) ==> {
        &&& nb.close_f == if close_succeeded(ob, call) {
            None
        } else {
            ob.close_f
        }
        // The first poll starts the first receive.
        &&& (!ob.read_done && ob.msg_f is None) ==> if call.is_queue_shutdown() {
            r == Err::<Async<Option<Vec<u8>>>, Error>(Error::QueueShutdown)
        } else {
            (r matches Ok(Async::NotReady)) && (nb.msg_f matches Some(f) && f.tag == call.num_ops())
        }
        // A delivered message is yielded and the next receive started; the
        // end of the stream ends the reads.
        &&& forall|m: Option<Vec<u8>>|
            !ob.read_done && read_delivered(ob, call, m) ==> {
                &&& m is None ==> nb.read_done
                &&& m matches Some(b) ==> {
                    &&& r == Ok::<Async<Option<Vec<u8>>>, Error>(Async::Ready(Some(b)))
                    &&& !nb.read_done
                    &&& if call.is_queue_shutdown() {
                        // No receive can be started: the message is still yielded.
                        nb.msg_f is None && nc.call.num_ops() == call.num_ops()
                    } else {
                        nb.msg_f matches Some(f) && f.tag == call.num_ops()
                    }
                }
            }
        // A receive that failed, or was already used up, fails the poll.
        &&& (!ob.read_done && read_failed(ob, call)) ==> r == poll_outcome(
            call.slot(ob.msg_f->0.tag as int),
        ).1
        &&& nb.read_done ==> (r == if nb.close_f is None {
            Ok::<Async<Option<Vec<u8>>>, Error>(Async::Ready(None))
        } else {
            Ok(Async::NotReady)
        })
        &&& (!ob.read_done && read_pending(ob, call)) ==> {
            &&& r matches Ok(Async::NotReady)
            &&& nb.msg_f == ob.msg_f
            &&& !nb.read_done
            &&& nc.call.num_ops() == call.num_ops()
        }
    }
    &&& r matches Ok(Async::Ready(None)) ==> nb.read_done && nb.close_f is None
    &&& r matches Ok(Async::Ready(Some(b))) ==> !ob.read_done && read_delivered(ob, call, Some(b))
    &&& !(r matches Ok(Async::Ready(Some(_)))) && !ob.read_done && nb.read_done ==> read_delivered(
        ob,
        call,
        None,
    )
    &&& ob.read_done ==> nb.read_done
}

impl StreamingBase {
    pub fn new(close_f: Option<BatchFuture>) -> (r: StreamingBase)
        ensures
            r.close_f == close_f,
            r.msg_f is None,
            !r.read_done,
    {
        StreamingBase { close_f, msg_f: None, read_done: false }
    }

    /// Polls for the next message.
    ///
    /// A resolved close future is remembered, but reading goes on until the
    /// end of the stream, since messages may still be buffered. The stream
    /// ends (`Ready(None)`) only once both the reads and the close are done.
    pub fn poll(&mut self, call: &mut ShareCall) -> (r: Result<Async<Option<Vec<u8>>>, Error>)
        requires
            old(call).wf(),
            base_wf(*old(self), old(call).call),
        ensures
            final(call).wf(),
            base_wf(*final(self), final(call).call),
            final(call).close_f == old(call).close_f,
            final(call).finished == old(call).finished,
            final(call).status == old(call).status,
            reads_only(final(call).call, old(call).call),
            poll_spec(*old(self), *final(self), *old(call), *final(call), r),
    {
        let mut finished = false;
        if let Some(close_f) = self.close_f {
            match call.call.poll(&close_f) {
                Ok(Async::Ready(_)) => {
                    finished = true;
                },
                Err(e) => return Err(e),
                Ok(Async::NotReady) => {},
            }
        }
        if finished {
            self.close_f = None;
        }
        let mut bytes: Option<Vec<u8>> = None;
        if !self.read_done {
            if let Some(msg_f) = self.msg_f {
                match call.call.poll(&msg_f) {
                    Ok(Async::Ready(b)) => {
                        bytes = b;
                        if bytes.is_none() {
                            self.read_done = true;
                        }
                    },
                    Ok(Async::NotReady) => return Ok(Async::NotReady),
                    Err(e) => return Err(e),
                }
            }
        }
        if self.read_done {
            if self.close_f.is_none() {
                return Ok(Async::Ready(bytes));
            }
            return Ok(Async::NotReady);
        }
        // The in-flight receive is used up, or none was started yet.
        self.msg_f = None;
        let msg_f = match call.call.start_recv_message() {
            Ok(f) => f,
            Err(e) => {
                // The queue is shutting down: a message already received is
                // still handed out.
                return match bytes {
                    Some(b) => Ok(Async::Ready(Some(b))),
                    None => Err(e),
                };
            },
        };
        self.msg_f = Some(msg_f);
        match bytes {
            // The receive just started is pending.
            None => Ok(Async::NotReady),
            Some(b) => Ok(Async::Ready(Some(b))),
        }
    }

    /// Whether dropping the stream now must cancel the call: reads are not
    /// done, or the terminal status was not received.
    pub fn needs_cancel(&self) -> (r: bool)
        ensures
            r == (!self.read_done || self.close_f is Some),
    {
        !self.read_done || self.close_f.is_some()
    }

    /// Cancels the call if messages are left or the status was not received.
    pub fn on_drop(&self, call: &mut ShareCall)
        requires
            old(call).wf(),
        ensures
            final(call).wf(),
            final(call).close_f == old(call).close_f,
            final(call).finished == old(call).finished,
            final(call).status == old(call).status,
            final(call).call.num_ops() == old(call).call.num_ops(),
            forall|t: int| 0 <= t < old(call).call.num_ops() ==> {
                &&& #[trigger] final(call).call.slot(t) == old(call).call.slot(t)
                &&& final(call).call.op_kind(t) == old(call).call.op_kind(t)
                &&& final(call).call.op_type(t) == old(call).call.op_type(t)
            },
            !(!self.read_done || self.close_f is Some) ==> *final(call) == *old(call),
            final(call).call.is_cancelled() == (old(call).call.is_cancelled() || (
            !old(call).call.is_queue_shutdown() && (!self.read_done || self.close_f is Some))),
    {
        if self.needs_cancel() {
            call.call.cancel();
        }
    }
}

/// Number of receives among the first `t` operations of `c`.
pub open spec fn recvs_before(c: Call, t: int) -> nat
    decreases t,
{
    if t <= 0 {
        0
    } else {
        recvs_before(c, t - 1) + if c.op_kind(t - 1) is RecvMessage {
            1nat
        } else {
            0nat
        }
    }
}

/// The `i`-th message of `ms`, or the end of the stream after the last one.
pub open spec fn msg_at(ms: Seq<Seq<u8>>, i: int) -> Option<Seq<u8>> {
    if 0 <= i < ms.len() {
        Some(ms[i])
    } else {
        None
    }
}

/// The read side has yielded the first `k` of the messages `ms`: its receive
/// in flight, if any, is the `k`-th receive of the call and the last one.
pub open spec fn read_order_inv(b: StreamingBase, c: Call, ms: Seq<Seq<u8>>, k: nat) -> bool {
    &&& k <= ms.len()
    &&& b.read_done ==> k == ms.len()
    &&& !b.read_done ==> match b.msg_f {
        Some(f) => f.tag < c.num_ops() && recvs_before(c, f.tag as int) == k && recvs_before(
            c,
            c.num_ops() as int,
        ) == k + 1,
        None => recvs_before(c, c.num_ops() as int) == k,
    }
}

/// The peer sends `ms` and then half-closes: the `k`-th receive, if it has
/// completed, delivered the `k`-th message, or the end of the stream.
pub open spec fn delivers_in_order(b: StreamingBase, c: Call, ms: Seq<Seq<u8>>, k: nat) -> bool {
    forall|m: Option<Vec<u8>>| read_delivered(b, c, m) ==> crate::call::bytes_of(m) == msg_at(ms, k as int)
}

proof fn lemma_recvs_before_kept(new: Call, old: Call, t: int)
    requires
        reads_only(new, old),
        0 <= t <= old.num_ops(),
    ensures
        recvs_before(new, t) == recvs_before(old, t),
    decreases t,
{
    if t > 0 {
        lemma_recvs_before_kept(new, old, t - 1);
        assert(new.op_kind(t - 1) == old.op_kind(t - 1));
    }
}

/// Completions change no operation kind, so they keep the read order.
pub proof fn lemma_read_order_kept_by_completion(b: StreamingBase, old: Call, new: Call, ms: Seq<Seq<u8>>, k: nat)
    requires
        read_order_inv(b, old, ms, k),
        new.num_ops() == old.num_ops(),
        forall|t: int| 0 <= t < old.num_ops() ==> #[trigger] new.op_kind(t) == old.op_kind(t),
    ensures
        read_order_inv(b, new, ms, k),
{
    lemma_recvs_before_same_kinds(new, old, old.num_ops() as int);
    if let Some(f) = b.msg_f {
        if !b.read_done {
            lemma_recvs_before_same_kinds(new, old, f.tag as int);
        }
    }
}

proof fn lemma_recvs_before_same_kinds(new: Call, old: Call, t: int)
    requires
        0 <= t <= old.num_ops(),
        forall|u: int| 0 <= u < old.num_ops() ==> #[trigger] new.op_kind(u) == old.op_kind(u),
    ensures
        recvs_before(new, t) == recvs_before(old, t),
    decreases t,
{
    if t > 0 {
        lemma_recvs_before_same_kinds(new, old, t - 1);
        assert(new.op_kind(t - 1) == old.op_kind(t - 1));
    }
}

/// Read order: when the peer sends the messages `ms` and then half-closes,
/// the read side yields exactly those messages, in the order sent, and then
/// the end of the stream; also when the terminal status arrives before the
/// last message is read. Each poll that yields a message yields the next one
/// of `ms` and keeps the invariant for the rest; a poll that is not ready
/// keeps it as it was; the end of the stream comes only after all of `ms`.
pub proof fn law_read_order(
    ob: StreamingBase,
    nb: StreamingBase,
    oc: ShareCall,
    nc: ShareCall,
    r: Result<Async<Option<Vec<u8>>>, Error>,
    ms: Seq<Seq<u8>>,
    k: nat,
)
    requires
        base_wf(ob, oc.call),
        base_wf(nb, nc.call),
        reads_only(nc.call, oc.call),
        poll_spec(ob, nb, oc, nc, r),
        read_order_inv(ob, oc.call, ms, k),
        delivers_in_order(ob, oc.call, ms, k),
    ensures
        r matches Ok(Async::Ready(Some(x))) ==> k < ms.len() && x@ == ms[k as int] && read_order_inv(
            nb,
            nc.call,
            ms,
            k + 1,
        ),
        r matches Ok(Async::Ready(None)) ==> k == ms.len() && nb.read_done && read_order_inv(
            nb,
            nc.call,
            ms,
            k,
        ),
        r matches Ok(Async::NotReady) ==> read_order_inv(nb, nc.call, ms, k),
{
    let c = oc.call;
    let n = c.num_ops() as int;
    lemma_recvs_before_kept(nc.call, c, n);
    if let Ok(Async::Ready(Some(x))) = r {
        assert(read_delivered(ob, c, Some(x)));
        assert(crate::call::bytes_of(Some(x)) == msg_at(ms, k as int));
        assert(!close_failed(ob, c));
        if !c.is_queue_shutdown() {
            assert(nb.msg_f matches Some(f) && f.tag == n);
            assert(nc.call.num_ops() == n + 1);
            assert(recvs_before(nc.call, n + 1) == recvs_before(nc.call, n) + 1);
        }
    }
    if let Ok(Async::NotReady) = r {
        if !ob.read_done && !nb.read_done {
            if ob.msg_f is None {
                assert(!close_failed(ob, c));
                assert(nb.msg_f matches Some(f) && f.tag == n);
                assert(nc.call.num_ops() == n + 1);
                assert(recvs_before(nc.call, n + 1) == recvs_before(nc.call, n) + 1);
            } else {
                let f = ob.msg_f->0;
                if !read_pending(ob, c) {
                    assert(!close_failed(ob, c));
                    if let SlotState::Resolved(Ok(m)) = c.slot(f.tag as int) {
                        assert(read_delivered(ob, c, m));
                    } else {
                        assert(read_failed(ob, c));
                    }
                }
                lemma_recvs_before_kept(nc.call, c, f.tag as int);
            }
        }
        if !ob.read_done && nb.read_done {
            assert(read_delivered(ob, c, None));
            assert(crate::call::bytes_of(None) == msg_at(ms, k as int));
            assert(msg_at(ms, k as int) is None);
        }
    }
    if let Ok(Async::Ready(None)) = r {
        if !ob.read_done {
            assert(read_delivered(ob, c, None));
            assert(crate::call::bytes_of(None) == msg_at(ms, k as int));
            assert(msg_at(ms, k as int) is None);
        }
    }
}

/// The messages that the results `rs` yielded, in order.
pub open spec fn yielded(rs: Seq<Result<Async<Option<Vec<u8>>>, Error>>) -> Seq<Seq<u8>>
    decreases rs.len(),
{
    if rs.len() == 0 {
        Seq::empty()
    } else {
        let before = yielded(rs.drop_last());
        match rs.last() {
            Ok(Async::Ready(Some(b))) => before.push(b@),
            _ => before,
        }
    }
}

/// A run of polls of the read side: before poll `i` the stream is `bs[i]` on
/// `pre[i]`; after it, `bs[i + 1]` on `post[i]`, returning `rs[i]`. Between
/// polls only completions happen. The peer sends `ms` and then half-closes,
/// and no poll fails.
pub open spec fn read_run(
    bs: Seq<StreamingBase>,
    pre: Seq<ShareCall>,
    post: Seq<ShareCall>,
    rs: Seq<Result<Async<Option<Vec<u8>>>, Error>>,
    ms: Seq<Seq<u8>>,
) -> bool {
    &&& bs.len() == rs.len() + 1
    &&& pre.len() == rs.len()
    &&& post.len() == rs.len()
    &&& forall|i: int|
        0 <= i < rs.len() ==> {
            &&& base_wf(bs[i], pre[i].call)
            &&& base_wf(bs[i + 1], post[i].call)
            &&& reads_only(post[i].call, pre[i].call)
            &&& poll_spec(bs[i], bs[i + 1], pre[i], post[i], #[trigger] rs[i])
            &&& delivers_in_order(bs[i], pre[i].call, ms, yielded(rs.take(i)).len())
            &&& rs[i] is Ok
        }
    &&& forall|i: int|
        0 <= i < rs.len() - 1 ==> {
            &&& (#[trigger] pre[i + 1]).call.num_ops() == post[i].call.num_ops()
            &&& forall|t: int|
                0 <= t < post[i].call.num_ops() ==> #[trigger] pre[i + 1].call.op_kind(t)
                    == post[i].call.op_kind(t)
        }
}

proof fn lemma_yielded_step(rs: Seq<Result<Async<Option<Vec<u8>>>, Error>>, i: int)
    requires
        0 <= i < rs.len(),
    ensures
        yielded(rs.take(i + 1)) == match rs[i] {
            Ok(Async::Ready(Some(b))) => yielded(rs.take(i)).push(b@),
            _ => yielded(rs.take(i)),
        },
{
    assert(rs.take(i + 1).drop_last() =~= rs.take(i));
}

proof fn lemma_read_run(
    bs: Seq<StreamingBase>,
    pre: Seq<ShareCall>,
    post: Seq<ShareCall>,
    rs: Seq<Result<Async<Option<Vec<u8>>>, Error>>,
    ms: Seq<Seq<u8>>,
    i: int,
)
    requires
        read_run(bs, pre, post, rs, ms),
        read_order_inv(bs[0], pre[0].call, ms, 0),
        0 <= i < rs.len(),
    ensures
        read_order_inv(bs[i], pre[i].call, ms, yielded(rs.take(i)).len()),
        yielded(rs.take(i)) == ms.take(yielded(rs.take(i)).len() as int),
    decreases i,
{
    if i == 0 {
        assert(rs.take(0) =~= Seq::<Result<Async<Option<Vec<u8>>>, Error>>::empty());
        assert(ms.take(0) =~= Seq::<Seq<u8>>::empty());
    } else {
        let j = i - 1;
        lemma_read_run(bs, pre, post, rs, ms, j);
        let k = yielded(rs.take(j)).len();
        let r = rs[j];
        law_read_order(bs[j], bs[j + 1], pre[j], post[j], r, ms, k);
        lemma_yielded_step(rs, j);
        let k2 = yielded(rs.take(i)).len();
        assert(read_order_inv(bs[i], post[j].call, ms, k2));
        if let Ok(Async::Ready(Some(x))) = r {
            assert(ms.take((k + 1) as int) =~= ms.take(k as int).push(ms[k as int]));
        }
        assert(pre[j + 1].call.num_ops() == post[j].call.num_ops());
        lemma_read_order_kept_by_completion(bs[i], post[j].call, pre[i].call, ms, k2);
    }
}

/// Read order over a whole run: the messages yielded are always the first
/// ones of `ms`, in order, each once; and when the stream ends, all of `ms`
/// has been yielded. The terminal status may arrive at any point of the run.
pub proof fn law_read_order_run(
    bs: Seq<StreamingBase>,
    pre: Seq<ShareCall>,
    post: Seq<ShareCall>,
    rs: Seq<Result<Async<Option<Vec<u8>>>, Error>>,
    ms: Seq<Seq<u8>>,
)
    requires
        read_run(bs, pre, post, rs, ms),
        read_order_inv(bs[0], pre[0].call, ms, 0),
    ensures
        yielded(rs) == ms.take(yielded(rs).len() as int),
        forall|i: int|
            0 <= i < rs.len() && (#[trigger] rs[i] matches Ok(Async::Ready(None))) ==> yielded(
                rs.take(i),
            ) == ms,
{
    assert forall|i: int|
        0 <= i < rs.len() && (#[trigger] rs[i] matches Ok(Async::Ready(None))) implies yielded(
        rs.take(i),
    ) == ms by {
        lemma_read_run(bs, pre, post, rs, ms, i);
        law_read_order(bs[i], bs[i + 1], pre[i], post[i], rs[i], ms, yielded(rs.take(i)).len());
        assert(ms.take(ms.len() as int) =~= ms);
    }
    if rs.len() == 0 {
        assert(ms.take(0) =~= Seq::<Seq<u8>>::empty());
    } else {
        let j = rs.len() - 1;
        lemma_read_run(bs, pre, post, rs, ms, j);
        let k = yielded(rs.take(j)).len();
        law_read_order(bs[j], bs[j + 1], pre[j], post[j], rs[j], ms, k);
        lemma_yielded_step(rs, j);
        assert(rs.take(j + 1) =~= rs);
        if let Ok(Async::Ready(Some(x))) = rs[j] {
            assert(ms.take((k + 1) as int) =~= ms.take(k as int).push(ms[k as int]));
        }
    }
}

/// A fresh read side on a call with no receive started is at the start of
/// any run.
pub proof fn lemma_read_order_start(close_f: Option<BatchFuture>, c: Call, ms: Seq<Seq<u8>>)
    requires
        recvs_before(c, c.num_ops() as int) == 0,
    ensures
        read_order_inv(StreamingBase { close_f, msg_f: None, read_done: false }, c, ms, 0),
{
}

/// The messages a server receives on a streaming call.
pub struct RequestStream {
    pub base: StreamingBase,
}

impl RequestStream {
    pub fn new() -> (r: RequestStream)
        ensures
            r.base.close_f is None,
            r.base.msg_f is None,
            !r.base.read_done,
    {
        RequestStream { base: StreamingBase::new(None) }
    }

    /// Polls for the next message. Once the call has closed, records its
    /// terminal status, fails (with `RemoteStopped` when the peer went away,
    /// else as finished with that status) and starts nothing.
    pub fn poll(&mut self, call: &mut ShareCall) -> (r: Result<Async<Option<Vec<u8>>>, Error>)
        requires
            old(call).wf(),
            base_wf(old(self).base, old(call).call),
        ensures
            final(call).wf(),
            base_wf(final(self).base, final(call).call),
            final(call).close_f == old(call).close_f,
            reads_only(final(call).call, old(call).call),
            old(call).finished ==> r == Err::<Async<Option<Vec<u8>>>, Error>(
                Error::RpcFinished(old(call).status),
            ) && *final(call) == *old(call) && *final(self) == *old(self),
            !old(call).finished && !(old(call).call.slot(old(call).close_f.tag as int) is Pending)
                ==> {
                let res = close_result(old(call).call.slot(old(call).close_f.tag as int));
                &&& final(call).finished
                &&& final(call).status == Some(finish_status(res))
                &&& r == if res == Err::<Option<Vec<u8>>, Error>(Error::RemoteStopped) {
                    Err::<Async<Option<Vec<u8>>>, Error>(Error::RemoteStopped)
                } else {
                    Err(Error::RpcFinished(final(call).status))
                }
                &&& *final(self) == *old(self)
                &&& final(call).call.num_ops() == old(call).call.num_ops()
            },
            !old(call).finished && old(call).call.is_pending(old(call).close_f.tag as int) ==> {
                &&& final(call).finished == old(call).finished
                &&& final(call).status == old(call).status
                &&& poll_spec(old(self).base, final(self).base, *old(call), *final(call), r)
            },
    {
        if call.finished {
            return Err(Error::RpcFinished(call.status_copy()));
        }
        let close_tag = call.close_f.tag;
        if !call.call.pending(close_tag) {
            let res = call.poll_finish();
            return match res {
                Err(Error::RemoteStopped) => Err(Error::RemoteStopped),
                _ => Err(Error::RpcFinished(call.status_copy())),
            };
        }
        self.base.poll(call)
    }
}

} // verus!
