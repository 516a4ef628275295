use grpc::call::{Async, BatchContext, Call};
use grpc::flags::WriteFlags;
use grpc::server::execute_duplex_streaming;
use grpc::share::ShareCall;
use grpc::status::{Error, RpcStatus, RpcStatusCode};
use grpc::stream::StreamingBase;

fn message(bytes: Vec<u8>) -> BatchContext {
    BatchContext {
        status: RpcStatus::ok(),
        message: Some(bytes),
    }
}

fn current_read(base: &StreamingBase) -> usize {
    base.msg_f.expect("a read in flight").tag
}

#[test]
fn read_order_kept_when_close_arrives_first() {
    let mut call = Call::new();
    let close_f = call.start_server_side().unwrap();
    let mut sc = ShareCall::new(call, close_f);
    let mut base = StreamingBase::new(Some(close_f));

    assert!(matches!(base.poll(&mut sc), Ok(Async::NotReady)));
    // The terminal status arrives before any message is drained.
    sc.call.complete(close_f.tag, true, BatchContext::new());

    let sent: Vec<Vec<u8>> = vec![vec![1], vec![2, 2], vec![3, 3, 3]];
    let mut got = vec![];
    for m in &sent {
        let t = current_read(&base);
        sc.call.complete(t, true, message(m.clone()));
        match base.poll(&mut sc) {
            Ok(Async::Ready(Some(b))) => got.push(b),
            other => panic!("unexpected {:?}", other),
        }
    }
    let t = current_read(&base);
    sc.call.complete(t, true, BatchContext::new());
    assert!(matches!(base.poll(&mut sc), Ok(Async::Ready(None))));
    assert_eq!(got, sent);
    assert!(!base.needs_cancel());
}

#[test]
fn stream_waits_for_close_after_last_message() {
    let mut call = Call::new();
    let close_f = call.start_server_side().unwrap();
    let mut sc = ShareCall::new(call, close_f);
    let mut base = StreamingBase::new(Some(close_f));
    assert!(matches!(base.poll(&mut sc), Ok(Async::NotReady)));
    let t = current_read(&base);
    sc.call.complete(t, true, BatchContext::new());
    // End of stream seen, but the status is still outstanding.
    assert!(matches!(base.poll(&mut sc), Ok(Async::NotReady)));
    assert!(base.needs_cancel());
    sc.call.complete(close_f.tag, true, BatchContext::new());
    assert!(matches!(base.poll(&mut sc), Ok(Async::Ready(None))));
}

#[test]
fn stream_reports_failed_status() {
    let mut call = Call::new();
    let close_f = call.start_server_side().unwrap();
    let mut sc = ShareCall::new(call, close_f);
    let mut base = StreamingBase::new(Some(close_f));
    let status = RpcStatus::new(RpcStatusCode::Unavailable, Some("down".to_string()));
    sc.call.complete(
        close_f.tag,
        true,
        BatchContext {
            status: status.clone(),
            message: None,
        },
    );
    assert_eq!(base.poll(&mut sc).unwrap_err(), Error::RpcFailure(status));
}

#[test]
fn dropping_unfinished_stream_cancels() {
    let mut call = Call::new();
    let close_f = call.start_server_side().unwrap();
    let mut sc = ShareCall::new(call, close_f);
    let mut base = StreamingBase::new(None);
    assert!(matches!(base.poll(&mut sc), Ok(Async::NotReady)));
    base.on_drop(&mut sc);
    assert!(sc.call.cancelled());
}

#[test]
fn client_abort_mid_stream_is_observed() {
    let (mut sc, mut stream, mut sink) = match execute_duplex_streaming(Call::new()) {
        Ok(parts) => parts,
        Err(_) => panic!("call not accepted"),
    };
    assert!(matches!(stream.poll(&mut sc), Ok(Async::NotReady)));
    let t = current_read(&stream.base);
    sc.call.complete(t, true, message(vec![1]));
    match stream.poll(&mut sc) {
        Ok(Async::Ready(Some(b))) => assert_eq!(b, vec![1]),
        other => panic!("unexpected {:?}", other),
    }
    // The client goes away: the call closes without success.
    let close_tag = sc.close_f.tag;
    sc.call.complete(close_tag, false, BatchContext::new());
    let started = sc.call.num_started();
    assert_eq!(stream.poll(&mut sc).unwrap_err(), Error::RemoteStopped);
    // The read side records the end of the call, with an error status.
    assert!(sc.finished);
    let status = sc.status.clone().expect("a recorded status");
    assert_ne!(status.status, RpcStatusCode::Success);
    assert_eq!(sc.call.num_started(), started);
    // Every later attempt fails with the recorded status and starts nothing.
    assert_eq!(
        stream.poll(&mut sc).unwrap_err(),
        Error::RpcFinished(Some(status.clone()))
    );
    assert_eq!(
        sink.start_send(&mut sc, &[9], WriteFlags::new()).unwrap_err(),
        Error::RpcFinished(Some(status))
    );
    assert_eq!(sc.call.num_started(), started);
}

#[test]
fn finished_call_reports_ok_status() {
    let mut call = Call::new();
    let close_f = call.start_server_side().unwrap();
    let mut sc = ShareCall::new(call, close_f);
    assert!(matches!(sc.poll_finish(), Ok(Async::NotReady)));
    assert_eq!(sc.check_alive(), Ok(()));
    sc.call.complete(close_f.tag, true, BatchContext::new());
    assert!(matches!(sc.poll_finish(), Ok(Async::Ready(None))));
    assert!(sc.finished);
    assert_eq!(sc.status, Some(RpcStatus::ok()));
    // The close future yields its result once: polling again fails.
    assert_eq!(
        sc.poll_finish().unwrap_err(),
        Error::RpcFinished(Some(RpcStatus::ok()))
    );
    assert!(matches!(sc.finished_result(), Ok(Async::Ready(None))));
    assert_eq!(
        sc.check_alive(),
        Err(Error::RpcFinished(Some(RpcStatus::ok())))
    );
}

#[test]
fn message_kept_when_queue_shuts_down() {
    let mut call = Call::new();
    let close_f = call.start_server_side().unwrap();
    let mut sc = ShareCall::new(call, close_f);
    let mut base = StreamingBase::new(None);
    assert!(matches!(base.poll(&mut sc), Ok(Async::NotReady)));
    let t = current_read(&base);
    sc.call.complete(t, true, message(vec![5, 6]));
    sc.call.shutdown_queue();
    match base.poll(&mut sc) {
        Ok(Async::Ready(Some(b))) => assert_eq!(b, vec![5, 6]),
        other => panic!("unexpected {:?}", other),
    }
    assert!(base.msg_f.is_none());
    assert_eq!(base.poll(&mut sc).unwrap_err(), Error::QueueShutdown);
}
