use vstd::prelude::*;

verus! {

/// Status code of a finished RPC. `Success` is the only success code.
#[derive(Clone, Copy, Debug, PartialEq, Eq, Structural)]
pub enum RpcStatusCode {
    Success,
    Cancelled,
    Unknown,
    InvalidArgument,
    DeadlineExceeded,
    NotFound,
    AlreadyExists,
    PermissionDenied,
    ResourceExhausted,
    FailedPrecondition,
    Aborted,
    OutOfRange,
    Unimplemented,
    Internal,
    Unavailable,
    DataLoss,
    Unauthenticated,
}

/// Terminal outcome of an RPC: a code and an optional detail string.
#[derive(Debug, Clone, PartialEq)]
pub struct RpcStatus {
    /// `Success` indicates success, all other values indicate an error.
    pub status: RpcStatusCode,
    /// Optional detail string.
    pub details: Option<String>,
}

impl RpcStatus {
    pub open spec fn is_ok(&self) -> bool {
        self.status == RpcStatusCode::Success
    }

    pub fn new(status: RpcStatusCode, details: Option<String>) -> (r: RpcStatus)
        ensures
            r.status == status,
            r.details == details,
    {
        RpcStatus { status, details }
    }

    /// The success status: code `Success` and no detail.
    pub fn ok() -> (r: RpcStatus)
        ensures
            r.status == RpcStatusCode::Success,
            r.details.is_none(),
    {
        RpcStatus::new(RpcStatusCode::Success, None)
    }

    /// A copy of this status.
    pub fn duplicate(&self) -> (r: RpcStatus)
        ensures
            r == *self,
    {
        let details = match &self.details {
            Some(d) => Some(d.clone()),
            None => None,
        };
        RpcStatus { status: self.status, details }
    }
}

/// Errors of the call layer.
#[derive(Debug, Clone, PartialEq)]
pub enum Error {
    /// A payload could not be decoded; carries a description.
    Codec(String),
    /// The native layer refused to start an operation; carries its code.
    CallFailure(i32),
    /// The call ended with a status other than `Success`.
    RpcFailure(RpcStatus),
    /// An operation was attempted on a call that had already finished.
    RpcFinished(Option<RpcStatus>),
    /// The peer stopped the call.
    RemoteStopped,
    /// The server could not shut down.
    ShutdownFailed,
    /// The completion queue of the call has begun shutting down.
    QueueShutdown,
    /// A future was polled again after it had yielded its result.
    FutureStale,
}

impl Error {
    /// A copy of this error.
    pub fn duplicate(&self) -> (r: Error)
        ensures
            r == *self,
    {
        match self {
            Error::Codec(s) => Error::Codec(s.clone()),
            Error::CallFailure(c) => Error::CallFailure(*c),
            Error::RpcFailure(s) => Error::RpcFailure(s.duplicate()),
            Error::RpcFinished(s) => match s {
                Some(st) => Error::RpcFinished(Some(st.duplicate())),
                None => Error::RpcFinished(None),
            },
            Error::RemoteStopped => Error::RemoteStopped,
            Error::ShutdownFailed => Error::ShutdownFailed,
            Error::QueueShutdown => Error::QueueShutdown,
            Error::FutureStale => Error::FutureStale,
        }
    }
}

} // verus!
