use grpc::call::{Async, Batch, BatchContext, BatchType, Call, OpKind, Shutdown};
use grpc::message::MessageWriter;
use grpc::status::{Error, RpcStatus, RpcStatusCode};

fn ctx(code: RpcStatusCode, detail: Option<&str>, message: Option<Vec<u8>>) -> BatchContext {
    BatchContext {
        status: RpcStatus::new(code, detail.map(|d| d.to_string())),
        message,
    }
}

#[test]
fn finish_batch_outcomes() {
    let b = Batch::new(BatchType::Finish);
    assert_eq!(b.resolve(true), Ok(None));

    let b = Batch::new(BatchType::Finish);
    assert_eq!(b.resolve(false), Err(Error::RemoteStopped));

    let mut b = Batch::new(BatchType::Finish);
    b.ctx = ctx(RpcStatusCode::NotFound, Some("gone"), None);
    assert_eq!(
        b.resolve(true),
        Err(Error::RpcFailure(RpcStatus::new(
            RpcStatusCode::NotFound,
            Some("gone".to_string())
        )))
    );
}

#[test]
fn read_batch_outcomes() {
    let mut b = Batch::new(BatchType::Read);
    b.ctx.message = Some(vec![1, 2]);
    assert_eq!(b.resolve(true), Ok(Some(vec![1, 2])));
    let b = Batch::new(BatchType::Read);
    assert_eq!(b.resolve(true), Ok(None));
}

#[test]
fn check_read_batch_checks_status_first() {
    let mut b = Batch::new(BatchType::CheckRead);
    b.ctx = ctx(RpcStatusCode::Internal, Some("boom"), Some(vec![5]));
    assert_eq!(
        b.resolve(true),
        Err(Error::RpcFailure(RpcStatus::new(
            RpcStatusCode::Internal,
            Some("boom".to_string())
        )))
    );
    let mut b = Batch::new(BatchType::CheckRead);
    b.ctx.message = Some(vec![5]);
    assert_eq!(b.context().message, Some(vec![5]));
    assert_eq!(b.resolve(true), Ok(Some(vec![5])));
}

#[test]
fn shutdown_outcomes() {
    assert_eq!(Shutdown::new().resolve(true), Ok(()));
    assert_eq!(Shutdown::new().resolve(false), Err(Error::ShutdownFailed));
}

#[test]
fn future_resolves_once_then_stale() {
    let mut call = Call::new();
    let f = call.start_recv_message().unwrap();
    assert_eq!(f.tag, 0);
    assert!(call.pending(f.tag));
    assert!(matches!(call.poll(&f), Ok(Async::NotReady)));
    assert!(matches!(call.poll(&f), Ok(Async::NotReady)));
    call.complete(f.tag, true, ctx(RpcStatusCode::Success, None, Some(vec![42])));
    assert!(!call.pending(f.tag));
    match call.poll(&f) {
        Ok(Async::Ready(Some(m))) => assert_eq!(m, vec![42]),
        other => panic!("unexpected {:?}", other),
    }
    for _ in 0..3 {
        assert!(matches!(call.poll(&f), Err(Error::FutureStale)));
    }
}

#[test]
fn failed_future_yields_its_error_once() {
    let mut call = Call::new();
    let f = call.start_server_side().unwrap();
    call.complete(f.tag, false, BatchContext::new());
    assert!(matches!(call.poll(&f), Err(Error::RemoteStopped)));
    assert!(matches!(call.poll(&f), Err(Error::FutureStale)));
}

#[test]
fn check_alive_reports_finish() {
    let mut call = Call::new();
    let f = call.start_server_side().unwrap();
    assert_eq!(call.check_alive(&f), Ok(()));
    let status = RpcStatus::new(RpcStatusCode::Cancelled, Some("bye".to_string()));
    call.complete(
        f.tag,
        true,
        BatchContext {
            status: status.clone(),
            message: None,
        },
    );
    assert_eq!(call.check_alive(&f), Err(Error::RpcFinished(Some(status))));

    let g = call.start_send_close_client().unwrap();
    call.complete(g.tag, true, BatchContext::new());
    assert_eq!(call.check_alive(&g), Err(Error::RpcFinished(None)));
}

#[test]
fn operations_are_recorded_in_order() {
    let mut call = Call::new();
    let mut w = MessageWriter::new();
    w.write(&[7, 7]);
    let a = call.start_send_message(&w, 1, true).unwrap();
    let b = call.start_send_close_client().unwrap();
    let c = call.start_recv_message().unwrap();
    assert_eq!((a.tag, b.tag, c.tag), (0, 1, 2));
    assert_eq!(call.num_started(), 3);
    match call.kind(0) {
        OpKind::SendMessage {
            payload,
            flags,
            initial_meta,
        } => {
            assert_eq!(payload, &vec![7, 7]);
            assert_eq!(*flags, 1);
            assert!(*initial_meta);
        }
        other => panic!("unexpected {:?}", other),
    }
    assert!(matches!(call.kind(1), OpKind::SendCloseFromClient));
    assert!(matches!(call.kind(2), OpKind::RecvMessage));
    assert_eq!(call.batch_type(2), BatchType::Read);
    assert_eq!(call.batch_type(0), BatchType::Finish);
}

#[test]
fn shut_down_queue_starts_nothing() {
    let mut call = Call::new();
    call.shutdown_queue();
    assert_eq!(call.check_queue(), Err(Error::QueueShutdown));
    assert!(matches!(call.start_recv_message(), Err(Error::QueueShutdown)));
    assert!(matches!(call.start_server_side(), Err(Error::QueueShutdown)));
    call.abort(&RpcStatus::ok());
    call.cancel();
    assert_eq!(call.num_started(), 0);
    assert!(!call.cancelled());
}

#[test]
fn cancel_is_idempotent() {
    let mut call = Call::new();
    assert!(!call.cancelled());
    call.cancel();
    call.cancel();
    assert!(call.cancelled());
    assert_eq!(call.num_started(), 0);
}

#[test]
fn abort_sends_status_with_metadata() {
    let mut call = Call::new();
    call.abort(&RpcStatus::new(RpcStatusCode::Aborted, None));
    match call.kind(0) {
        OpKind::SendStatus {
            status,
            send_metadata,
            payload,
            flags,
        } => {
            assert_eq!(status.status, RpcStatusCode::Aborted);
            assert!(*send_metadata);
            assert!(payload.is_none());
            assert_eq!(*flags, 0);
        }
        other => panic!("unexpected {:?}", other),
    }
}

#[test]
fn context_takes_message_once() {
    let mut c = ctx(RpcStatusCode::Success, None, Some(vec![3]));
    assert_eq!(c.rpc_status(), RpcStatus::ok());
    assert_eq!(c.recv_message(), Some(vec![3]));
    assert_eq!(c.recv_message(), None);
}

#[test]
fn errors_duplicate_exactly() {
    let all = vec![
        Error::Codec("bad bytes".to_string()),
        Error::CallFailure(3),
        Error::RpcFailure(RpcStatus::new(RpcStatusCode::DataLoss, Some("lost".to_string()))),
        Error::RpcFinished(Some(RpcStatus::ok())),
        Error::RpcFinished(None),
        Error::RemoteStopped,
        Error::ShutdownFailed,
        Error::QueueShutdown,
        Error::FutureStale,
    ];
    for e in &all {
        assert_eq!(&e.duplicate(), e);
    }
    let s = RpcStatus::new(RpcStatusCode::Unauthenticated, Some("who".to_string()));
    assert_eq!(s.duplicate(), s);
    assert_eq!(RpcStatus::ok().details, None);
}

#[test]
fn success_status_carries_no_detail() {
    let c = ctx(RpcStatusCode::Success, Some("ignored"), None);
    assert_eq!(c.rpc_status(), RpcStatus::ok());
    let c = ctx(RpcStatusCode::Aborted, Some("why"), None);
    assert_eq!(
        c.rpc_status(),
        RpcStatus::new(RpcStatusCode::Aborted, Some("why".to_string()))
    );
}

#[test]
fn refused_submission_fails_its_future_once() {
    let mut call = Call::new();
    let f = call.start_recv_message().unwrap();
    call.submission_failed(f.tag, 8);
    assert!(!call.pending(f.tag));
    assert!(matches!(call.poll(&f), Err(Error::CallFailure(8))));
    assert!(matches!(call.poll(&f), Err(Error::FutureStale)));
}
