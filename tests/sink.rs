use grpc::call::{Async, BatchContext, Call, OpKind};
use grpc::client::StreamingCallSink;
use grpc::flags::WriteFlags;
use grpc::respond::ServerStreamingSink;
use grpc::server::execute_server_streaming;
use grpc::share::ShareCall;
use grpc::status::{RpcStatus, RpcStatusCode};

const MESSAGE_NUM: i32 = 3000;

fn client_call() -> ShareCall {
    let mut call = Call::new();
    let resp_f = call.start_client_streaming().unwrap();
    ShareCall::new(call, resp_f)
}

/// Sends every message, completing each write on the transport before the
/// next, then closes. Returns the messages the peer saw before the close.
fn send_all(sc: &mut ShareCall, sink: &mut StreamingCallSink, flags: WriteFlags) -> usize {
    for i in 0..MESSAGE_NUM {
        if let Some(f) = sink.base.batch_f {
            sc.call.complete(f.tag, true, BatchContext::new());
        }
        assert_eq!(sink.start_send(sc, &i.to_le_bytes(), flags), Ok(true));
    }
    let mut seen = 0;
    for t in 0..sc.call.num_started() {
        match sc.call.kind(t) {
            OpKind::SendMessage { payload, flags: f, .. } => {
                let v = i32::from_le_bytes([payload[0], payload[1], payload[2], payload[3]]);
                assert_eq!(v as usize, seen, "messages sequence is wrong");
                assert_eq!(*f, flags.flags);
                seen += 1;
            }
            OpKind::SendCloseFromClient => panic!("closed before close()"),
            _ => {}
        }
    }
    // The last write is still in flight: close waits for it.
    assert!(matches!(sink.close(sc), Ok(Async::NotReady)));
    assert!(sink.close_f.is_none());
    let last = sink.base.batch_f.unwrap();
    sc.call.complete(last.tag, true, BatchContext::new());
    assert!(matches!(sink.close(sc), Ok(Async::NotReady)));
    let close_f = sink.close_f.unwrap();
    assert!(matches!(sc.call.kind(close_f.tag), OpKind::SendCloseFromClient));
    assert_eq!(close_f.tag + 1, sc.call.num_started());
    sc.call.complete(close_f.tag, true, BatchContext::new());
    // The half-close is done; the call itself has not closed yet.
    assert!(matches!(sink.close(sc), Ok(Async::NotReady)));
    assert!(sink.flushed);
    seen
}

fn summary(sc: &mut ShareCall, count: usize) -> usize {
    let resp_tag = sc.close_f.tag;
    sc.call.complete(
        resp_tag,
        true,
        BatchContext {
            status: RpcStatus::ok(),
            message: Some((count as u32).to_le_bytes().to_vec()),
        },
    );
    match sc.poll_finish() {
        Ok(Async::Ready(Some(b))) => u32::from_le_bytes([b[0], b[1], b[2], b[3]]) as usize,
        other => panic!("unexpected {:?}", other),
    }
}

#[test]
fn test_client_send_all() {
    // Send all without buffering.
    let mut sc = client_call();
    let mut sink = StreamingCallSink::new();
    let n = send_all(&mut sc, &mut sink, WriteFlags::new());
    assert_eq!(summary(&mut sc, n), MESSAGE_NUM as usize);
    assert!(matches!(sink.close(&mut sc), Ok(Async::Ready(()))));

    // Send all with every buffer hint set.
    let mut sc = client_call();
    let mut sink = StreamingCallSink::new();
    let n = send_all(&mut sc, &mut sink, WriteFlags::new().buffer_hint(true));
    assert_eq!(summary(&mut sc, n), MESSAGE_NUM as usize);
    assert!(matches!(sink.close(&mut sc), Ok(Async::Ready(()))));
    // No write after the half-close.
    assert_eq!(
        sink.start_send(&mut sc, &[1], WriteFlags::new()),
        Err(grpc::status::Error::RpcFinished(None))
    );
}

#[test]
fn buffered_writes_wait_for_close() {
    let mut sc = client_call();
    let mut sink = StreamingCallSink::new();
    let flags = WriteFlags::new().buffer_hint(true);
    for i in 0..MESSAGE_NUM {
        if let Some(f) = sink.base.batch_f {
            sc.call.complete(f.tag, true, BatchContext::new());
        }
        assert_eq!(sink.start_send(&mut sc, &i.to_le_bytes(), flags), Ok(true));
        match sc.call.kind(sc.call.num_started() - 1) {
            OpKind::SendMessage { flags: f, .. } => assert!(WriteFlags { flags: *f }.get_buffer_hint()),
            other => panic!("unexpected {:?}", other),
        }
    }
    // The peer has not seen the end of the stream, nor answered.
    assert_eq!(sc.call.num_started(), MESSAGE_NUM as usize + 1);
    assert!(matches!(sc.poll_finish(), Ok(Async::NotReady)));
    let last = sink.base.batch_f.unwrap();
    sc.call.complete(last.tag, true, BatchContext::new());
    assert!(matches!(sink.close(&mut sc), Ok(Async::NotReady)));
    assert!(matches!(
        sc.call.kind(sc.call.num_started() - 1),
        OpKind::SendCloseFromClient
    ));
}

#[test]
fn second_write_waits_for_first() {
    let mut sc = client_call();
    let mut sink = StreamingCallSink::new();
    assert_eq!(sink.start_send(&mut sc, &[1], WriteFlags::new()), Ok(true));
    let started = sc.call.num_started();
    assert_eq!(sink.start_send(&mut sc, &[2], WriteFlags::new()), Ok(false));
    assert_eq!(sc.call.num_started(), started);
    assert!(matches!(sink.poll_complete(&mut sc), Ok(Async::NotReady)));
    sc.call.complete(sink.base.batch_f.unwrap().tag, true, BatchContext::new());
    assert_eq!(sink.start_send(&mut sc, &[2], WriteFlags::new()), Ok(true));
    assert_eq!(sc.call.num_started(), started + 1);
}

#[test]
fn server_close_flushes_then_sends_status() {
    let (mut sc, mut sink) = match execute_server_streaming(Call::new(), None) {
        Ok(parts) => parts,
        Err(_) => panic!("call not accepted"),
    };
    // The first write carries the headers, so its buffer hint is dropped.
    let hinted = WriteFlags::new().buffer_hint(true);
    assert_eq!(sink.start_send(&mut sc, &[1], hinted), Ok(true));
    let first = sink.base.batch_f.unwrap();
    match sc.call.kind(first.tag) {
        OpKind::SendMessage { flags, initial_meta, .. } => {
            assert!(!WriteFlags { flags: *flags }.get_buffer_hint());
            assert!(*initial_meta);
        }
        other => panic!("unexpected {:?}", other),
    }
    sc.call.complete(first.tag, true, BatchContext::new());
    assert_eq!(sink.start_send(&mut sc, &[2], hinted), Ok(true));
    let second = sink.base.batch_f.unwrap();
    match sc.call.kind(second.tag) {
        OpKind::SendMessage { flags, initial_meta, .. } => {
            assert!(WriteFlags { flags: *flags }.get_buffer_hint());
            assert!(!*initial_meta);
        }
        other => panic!("unexpected {:?}", other),
    }
    let started = sc.call.num_started();
    // A write is in flight: close sends nothing yet.
    assert!(matches!(sink.close(&mut sc), Ok(Async::NotReady)));
    assert_eq!(sc.call.num_started(), started);
    sc.call.complete(second.tag, true, BatchContext::new());
    assert!(matches!(sink.close(&mut sc), Ok(Async::NotReady)));
    let flush_f = sink.flush_f.unwrap();
    match sc.call.kind(flush_f.tag) {
        OpKind::SendStatus { status, send_metadata, payload, .. } => {
            assert_eq!(status, &RpcStatus::ok());
            assert!(!*send_metadata);
            assert!(payload.is_none());
        }
        other => panic!("unexpected {:?}", other),
    }
    let started = sc.call.num_started();
    assert_eq!(
        sink.start_send(&mut sc, &[3], hinted),
        Err(grpc::status::Error::RpcFinished(Some(RpcStatus::ok())))
    );
    assert_eq!(sc.call.num_started(), started);
    sc.call.complete(flush_f.tag, true, BatchContext::new());
    assert!(matches!(sink.close(&mut sc), Ok(Async::NotReady)));
    assert!(sink.flushed);
    let close_tag = sc.close_f.tag;
    sc.call.complete(close_tag, true, BatchContext::new());
    assert!(matches!(sink.close(&mut sc), Ok(Async::Ready(()))));
    assert!(sc.finished);
}

#[test]
fn server_sink_fail_sends_error_status() {
    let (mut sc, mut sink) = match execute_server_streaming(Call::new(), None) {
        Ok(parts) => parts,
        Err(_) => panic!("call not accepted"),
    };
    let status = RpcStatus::new(RpcStatusCode::PermissionDenied, Some("no".to_string()));
    sink.set_status(status.clone());
    assert_eq!(sink.status, status);
    let fresh = ServerStreamingSink::new();
    let mut failure = fresh.fail(&mut sc, status.clone());
    let fail_f = failure.fail_f.unwrap();
    match sc.call.kind(fail_f.tag) {
        OpKind::SendStatus { status: s, send_metadata, .. } => {
            assert_eq!(s, &status);
            assert!(*send_metadata);
        }
        other => panic!("unexpected {:?}", other),
    }
    assert!(matches!(failure.poll(&mut sc), Ok(Async::NotReady)));
    sc.call.complete(fail_f.tag, true, BatchContext::new());
    let close_tag = sc.close_f.tag;
    sc.call.complete(close_tag, true, BatchContext::new());
    assert!(matches!(failure.poll(&mut sc), Ok(Async::Ready(()))));
}

#[test]
fn failed_write_fails_next_send() {
    let mut sc = client_call();
    let mut sink = StreamingCallSink::new();
    assert_eq!(sink.start_send(&mut sc, &[1], WriteFlags::new()), Ok(true));
    let w = sink.base.batch_f.unwrap();
    sc.call.complete(w.tag, false, BatchContext::new());
    let started = sc.call.num_started();
    assert_eq!(
        sink.start_send(&mut sc, &[2], WriteFlags::new()),
        Err(grpc::status::Error::RemoteStopped)
    );
    assert_eq!(sc.call.num_started(), started);
}

#[test]
fn poll_complete_without_write_is_ready() {
    let mut sc = client_call();
    let mut sink = StreamingCallSink::new();
    assert!(matches!(sink.poll_complete(&mut sc), Ok(Async::Ready(()))));
    assert_eq!(sink.start_send(&mut sc, &[1], WriteFlags::new()), Ok(true));
    assert!(matches!(sink.poll_complete(&mut sc), Ok(Async::NotReady)));
    let w = sink.base.batch_f.unwrap();
    sc.call.complete(w.tag, true, BatchContext::new());
    assert!(matches!(sink.poll_complete(&mut sc), Ok(Async::Ready(()))));
    assert!(sink.base.batch_f.is_none());
}

#[test]
fn server_close_done_after_call_closed() {
    let (mut sc, mut sink) = match execute_server_streaming(Call::new(), None) {
        Ok(parts) => parts,
        Err(_) => panic!("call not accepted"),
    };
    assert!(matches!(sink.close(&mut sc), Ok(Async::NotReady)));
    let flush_f = sink.flush_f.unwrap();
    sc.call.complete(flush_f.tag, true, BatchContext::new());
    let close_tag = sc.close_f.tag;
    sc.call.complete(close_tag, true, BatchContext::new());
    assert!(matches!(sink.close(&mut sc), Ok(Async::Ready(()))));
    // Closing again reports the same end, without polling the close again.
    assert!(matches!(sink.close(&mut sc), Ok(Async::Ready(()))));
    assert!(sink.flushed && sc.finished);
}
