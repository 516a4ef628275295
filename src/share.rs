use vstd::prelude::*;

use crate::call::{alive_outcome, poll_outcome, Async, BatchFuture, Call, SlotState};
use crate::status::{Error, RpcStatus, RpcStatusCode};

verus! {

/// State shared by the read half and the write half of a streaming call.
///
/// Once `finished` is set the terminal status is fixed, and no operation is
/// started on the call any more.
pub struct ShareCall {
    pub call: Call,
    /// The future of the operation that completes when the call closes.
    pub close_f: BatchFuture,
    pub finished: bool,
    pub status: Option<RpcStatus>,
}

/// The status recorded when the close future resolves with `res`.
pub open spec fn finish_status(res: Result<Option<Vec<u8>>, Error>) -> RpcStatus {
    match res {
        Ok(_) => RpcStatus { status: RpcStatusCode::Success, details: None },
        Err(Error::RpcFailure(s)) => s,
        Err(_) => RpcStatus { status: RpcStatusCode::Unknown, details: None },
    }
}

/// What the close future resolved to, as `poll_finish` takes it: a future
/// already taken counts as stale.
pub open spec fn close_result(slot: SlotState) -> Result<Option<Vec<u8>>, Error> {
    match slot {
        SlotState::Resolved(res) => res,
        _ => Err(Error::FutureStale),
    }
}

/// How a finished call ended, for those that wait for it to close: ready
/// after a success, else the failure with the recorded status.
pub open spec fn finished_outcome(status: RpcStatus) -> Result<Async<Option<Vec<u8>>>, Error> {
    if status.status == RpcStatusCode::Success {
        Ok(Async::Ready(None))
    } else {
        Err(Error::RpcFailure(status))
    }
}

impl ShareCall {
    pub open spec fn wf(&self) -> bool {
        &&& self.call.wf()
        &&& self.call.has_tag(self.close_f.tag)
        &&& self.finished <==> self.status is Some
    }

    /// The call stays the same but for the slot of its close future and the
    /// finished state.
    pub open spec fn same_ops(&self, old: &ShareCall) -> bool {
        &&& self.call.same_but_slot(&old.call, old.close_f.tag as int)
        &&& self.close_f == old.close_f
    }

    pub fn new(call: Call, close_f: BatchFuture) -> (r: ShareCall)
        requires
            call.wf(),
            call.has_tag(close_f.tag),
        ensures
            r.wf(),
            r.call == call,
            r.close_f == close_f,
            !r.finished,
    {
        ShareCall { call, close_f, finished: false, status: None }
    }

    /// Polls whether the call has closed, recording its terminal status when it
    /// has. The close future yields its result once: on a finished call this
    /// fails with the recorded status.
    pub fn poll_finish(&mut self) -> (r: Result<Async<Option<Vec<u8>>>, Error>)
        requires
            old(self).wf(),
        ensures
            final(self).wf(),
            final(self).same_ops(old(self)),
            final(self).call.progresses(&old(self).call),
            old(self).finished ==> *final(self) == *old(self) && r == Err::<
                Async<Option<Vec<u8>>>,
                Error,
            >(Error::RpcFinished(old(self).status)),
            !old(self).finished ==> {
                let slot = old(self).call.slot(old(self).close_f.tag as int);
                let out = poll_outcome(slot);
                &&& final(self).call.slot(old(self).close_f.tag as int) == out.0
                &&& r == out.1
                &&& (slot is Pending ==> *final(self) == *old(self))
                &&& (!(slot is Pending) ==> final(self).finished && final(self).status == Some(
                    finish_status(close_result(slot)),
                ))
            },
    {
        if self.finished {
            return Err(Error::RpcFinished(self.status_copy()));
        }
        let f = self.close_f;
        let res = self.call.poll(&f);
        let status = match &res {
            Ok(Async::NotReady) => return res,
            Ok(Async::Ready(_)) => RpcStatus::ok(),
            Err(Error::RpcFailure(s)) => s.duplicate(),
            Err(_) => RpcStatus::new(RpcStatusCode::Unknown, None),
        };
        self.status = Some(status);
        self.finished = true;
        res
    }

    /// How the finished call ended: ready after a success, else the failure
    /// with the recorded status.
    pub fn finished_result(&self) -> (r: Result<Async<Option<Vec<u8>>>, Error>)
        requires
            self.wf(),
            self.finished,
        ensures
            r == finished_outcome(self.status.unwrap()),
    {
        let status = match &self.status {
            Some(s) => s.duplicate(),
            None => RpcStatus::ok(),
        };
        if status.status == RpcStatusCode::Success {
            return Ok(Async::Ready(None));
        }
        Err(Error::RpcFailure(status))
    }

    /// A copy of the recorded status.
    pub fn status_copy(&self) -> (r: Option<RpcStatus>)
        ensures
            r == self.status,
    {
        match &self.status {
            Some(s) => Some(s.duplicate()),
            None => None,
        }
    }

    /// Fails when the call has finished: with the recorded status, or with what
    /// the close future resolved to.
    pub fn check_alive(&self) -> (r: Result<(), Error>)
        requires
            self.wf(),
        ensures
            self.finished ==> r == Err::<(), Error>(Error::RpcFinished(self.status)),
            !self.finished ==> r == alive_outcome(self.call.slot(self.close_f.tag as int)),
    {
        if self.finished {
            let status = match &self.status {
                Some(s) => Some(s.duplicate()),
                None => None,
            };
            return Err(Error::RpcFinished(status));
        }
        self.call.check_alive(&self.close_f)
    }
}

} // verus!
