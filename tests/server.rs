use grpc::call::{Async, BatchContext, Call, OpKind};
use grpc::message::MessageWriter;
use grpc::server::{
    bytes_eq, execute_client_streaming, execute_unary, execute_unimplemented,
    Deadline, Handler, HandlerTable, Method, MethodType, RequestContext, Route, ServerBuilder,
    ServiceBuilder, UnaryRequestContext, DEFAULT_REQUEST_SLOTS_PER_CQ,
};
use grpc::status::{RpcStatus, RpcStatusCode};

const GET: Method = Method {
    ty: MethodType::Unary,
    name: "/example.Greeter/Get",
};
const UPLOAD: Method = Method {
    ty: MethodType::ClientStreaming,
    name: "/example.Greeter/Upload",
};
const WATCH: Method = Method {
    ty: MethodType::ServerStreaming,
    name: "/example.Greeter/Watch",
};
const CHAT: Method = Method {
    ty: MethodType::Duplex,
    name: "/example.Greeter/Chat",
};

fn request(method: &str) -> RequestContext {
    RequestContext {
        method: method.as_bytes().to_vec(),
        host: b"localhost".to_vec(),
        deadline: Deadline::new(100, 0),
        peer: "ipv4:127.0.0.1:1".to_string(),
    }
}

fn table() -> HandlerTable {
    let service = ServiceBuilder::new()
        .add_unary_handler(&GET)
        .add_client_streaming_handler(&UPLOAD)
        .add_server_streaming_handler(&WATCH)
        .add_duplex_streaming_handler(&CHAT)
        .build();
    ServerBuilder::new().register_service(service).handlers
}

#[test]
fn routes_by_method_type() {
    let t = table();
    assert_eq!(request(GET.name).handle_stream_req(&t), Route::ReadPayload(MethodType::Unary));
    assert_eq!(
        request(WATCH.name).handle_stream_req(&t),
        Route::ReadPayload(MethodType::ServerStreaming)
    );
    assert_eq!(
        request(UPLOAD.name).handle_stream_req(&t),
        Route::Execute(MethodType::ClientStreaming)
    );
    assert_eq!(request(CHAT.name).handle_stream_req(&t), Route::Execute(MethodType::Duplex));
    assert_eq!(request("/nope/Nope").handle_stream_req(&t), Route::Unimplemented);
}

#[test]
fn later_registration_replaces_earlier() {
    let first = ServiceBuilder::new().add_unary_handler(&GET).build();
    let again = Method {
        ty: MethodType::Duplex,
        name: GET.name,
    };
    let second = ServiceBuilder::new().add_duplex_streaming_handler(&again).build();
    let b = ServerBuilder::new().register_service(first).register_service(second);
    assert_eq!(
        b.handlers.get_method(GET.name.as_bytes()),
        Some(Handler::new(MethodType::Duplex))
    );
    assert_eq!(b.handlers.get_method(b"other"), None);
}

#[test]
fn server_builder_settings() {
    let b = ServerBuilder::new();
    assert_eq!(b.slots_per_cq, DEFAULT_REQUEST_SLOTS_PER_CQ);
    let b = b.bind("127.0.0.1".to_string(), 0).requests_slot_per_cq(8);
    assert_eq!(b.addrs, vec![("127.0.0.1".to_string(), 0)]);
    assert_eq!(b.slots_per_cq, 8);
}

#[test]
fn request_context_getters() {
    let r = request(GET.name);
    assert_eq!(r.method(), GET.name.as_bytes());
    assert_eq!(r.host(), b"localhost");
    assert_eq!(r.deadline(), Deadline::new(100, 0));
    assert_eq!(r.peer(), "ipv4:127.0.0.1:1");
    assert_eq!(Handler::new(MethodType::Unary).method_type(), MethodType::Unary);
}

#[test]
fn unknown_method_gets_unimplemented() {
    let mut call = Call::new();
    execute_unimplemented(&mut call);
    assert_eq!(call.num_started(), 2);
    assert!(matches!(call.kind(0), OpKind::ServerSide));
    match call.kind(1) {
        OpKind::SendStatus { status, send_metadata, payload, .. } => {
            assert_eq!(status, &RpcStatus::new(RpcStatusCode::Unimplemented, None));
            assert!(*send_metadata);
            assert!(payload.is_none());
        }
        other => panic!("unexpected {:?}", other),
    }
}

#[test]
fn missing_payload_aborts_with_internal() {
    let mut call = Call::new();
    let unary = UnaryRequestContext::new(request(GET.name));
    assert!(!unary.handle(&mut call, &None));
    match call.kind(0) {
        OpKind::SendStatus { status, .. } => {
            assert_eq!(
                status,
                &RpcStatus::new(RpcStatusCode::Internal, Some("No payload".to_string()))
            );
        }
        other => panic!("unexpected {:?}", other),
    }
    let mut call = Call::new();
    assert!(unary.handle(&mut call, &Some(vec![1])));
    assert_eq!(call.num_started(), 0);
}

#[test]
fn undecodable_request_aborts_with_internal() {
    let detail = "Failed to deserialize response message: bad".to_string();
    let call = match execute_unary(Call::new(), Some(detail.clone())) {
        Err(c) => c,
        Ok(_) => panic!("handler must not run"),
    };
    assert_eq!(call.num_started(), 2);
    match call.kind(1) {
        OpKind::SendStatus { status, .. } => {
            assert_eq!(status, &RpcStatus::new(RpcStatusCode::Internal, Some(detail)));
        }
        other => panic!("unexpected {:?}", other),
    }
}

#[test]
fn shut_down_queue_drops_request() {
    let mut call = Call::new();
    call.shutdown_queue();
    let call = match execute_client_streaming(call) {
        Err(c) => c,
        Ok(_) => panic!("handler must not run"),
    };
    assert_eq!(call.num_started(), 0);
}

#[test]
fn unary_call_round_trip() {
    let t = table();
    let req = vec![10u8, 20, 30];
    // Client sends the request.
    let mut client = Call::new();
    let mut w = MessageWriter::new();
    w.write(&req);
    let resp_f = client.start_unary(&w, 0).unwrap();
    let sent = match client.kind(resp_f.tag) {
        OpKind::Unary { payload, .. } => payload.clone(),
        other => panic!("unexpected {:?}", other),
    };
    // Server receives it and calls the handler.
    let ctx = request(GET.name);
    assert_eq!(ctx.handle_stream_req(&t), Route::ReadPayload(MethodType::Unary));
    let mut server = Call::new();
    let recv_f = ctx.handle_unary_req(&mut server).unwrap();
    server.complete(
        recv_f.tag,
        true,
        BatchContext {
            status: RpcStatus::ok(),
            message: Some(sent.clone()),
        },
    );
    let data = match server.poll(&recv_f) {
        Ok(Async::Ready(d)) => d,
        other => panic!("unexpected {:?}", other),
    };
    let unary = UnaryRequestContext::new(ctx);
    assert_eq!(unary.request_ctx().method(), GET.name.as_bytes());
    assert!(unary.handle(&mut server, &data));
    let (mut sc, sink) = match execute_unary(server, None) {
        Ok(parts) => parts,
        Err(_) => panic!("call not accepted"),
    };
    assert_eq!(sent, req);
    let resp: Vec<u8> = sent.iter().map(|b| b + 1).collect();
    let mut result = sink.success(&mut sc, resp.clone());
    let status_f = result.cq_f.unwrap();
    let wire = match sc.call.kind(status_f.tag) {
        OpKind::SendStatus { status, payload, .. } => {
            assert_eq!(status, &RpcStatus::ok());
            payload.clone().unwrap()
        }
        other => panic!("unexpected {:?}", other),
    };
    assert!(matches!(result.poll(&mut sc), Ok(Async::NotReady)));
    sc.call.complete(status_f.tag, true, BatchContext::new());
    let close_tag = sc.close_f.tag;
    sc.call.complete(close_tag, true, BatchContext::new());
    assert!(matches!(result.poll(&mut sc), Ok(Async::Ready(()))));
    // Client gets the response within the one round trip.
    client.complete(
        resp_f.tag,
        true,
        BatchContext {
            status: RpcStatus::ok(),
            message: Some(wire),
        },
    );
    match client.poll(&resp_f) {
        Ok(Async::Ready(Some(b))) => assert_eq!(b, vec![11, 21, 31]),
        other => panic!("unexpected {:?}", other),
    }
}

#[test]
fn unary_failure_reaches_client() {
    let (mut sc, sink) = match execute_unary(Call::new(), None) {
        Ok(parts) => parts,
        Err(_) => panic!("call not accepted"),
    };
    let status = RpcStatus::new(RpcStatusCode::NotFound, Some("missing".to_string()));
    let result = sink.fail(&mut sc, status.clone());
    match sc.call.kind(result.cq_f.unwrap().tag) {
        OpKind::SendStatus { status: s, payload, .. } => {
            assert_eq!(s, &status);
            assert!(payload.is_none());
        }
        other => panic!("unexpected {:?}", other),
    }
}

#[test]
fn deadline_exceeded() {
    let d = Deadline::new(10, 500);
    assert!(!d.exceeded(&Deadline::new(9, 999)));
    assert!(!d.exceeded(&Deadline::new(10, 499)));
    assert!(d.exceeded(&Deadline::new(10, 500)));
    assert!(d.exceeded(&Deadline::new(11, 0)));
}

#[test]
fn byte_strings_compare() {
    assert!(bytes_eq(b"abc", b"abc"));
    assert!(!bytes_eq(b"abc", b"abd"));
    assert!(!bytes_eq(b"ab", b"abc"));
    assert!(bytes_eq(b"", b""));
}
