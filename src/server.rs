use vstd::prelude::*;
use vstd::string::StringSliceAdditionalSpecFns;

use crate::call::{lemma_extends_trans, BatchFuture, BatchType, Call};
use crate::respond::{ClientStreamingSink, DuplexSink, ServerStreamingSink, UnarySink};
use crate::sink::no_pending_writes;
use crate::share::ShareCall;
use crate::status::{Error, RpcStatus, RpcStatusCode};
use crate::stream::RequestStream;

verus! {

/// The shape of a remote method.
#[derive(Clone, Copy, Debug, PartialEq, Eq, Structural)]
pub enum MethodType {
    /// Single request sent from client, single response received from server.
    Unary,
    /// Stream of requests sent from client, single response received from server.
    ClientStreaming,
    /// Single request sent from client, stream of responses received from server.
    ServerStreaming,
    /// Both sides stream messages at the same time.
    Duplex,
}

/// A remote method: its shape and fully qualified name.
pub struct Method {
    pub ty: MethodType,
    pub name: &'static str,
}

/// What a server registered for one method.
#[derive(Clone, Copy, Debug, PartialEq, Eq, Structural)]
pub struct Handler {
    pub method_type: MethodType,
}

impl Handler {
    pub fn new(method_type: MethodType) -> (r: Handler)
        ensures
            r.method_type == method_type,
    {
        Handler { method_type }
    }

    pub fn method_type(&self) -> (r: MethodType)
        ensures
            r == self.method_type,
    {
        self.method_type
    }
}

/// Whether two byte strings are equal.
pub fn bytes_eq(a: &[u8], b: &[u8]) -> (r: bool)
    ensures
        r == (a@ == b@),
{
    if a.len() != b.len() {
        return false;
    }
    let mut i: usize = 0;
    while i < a.len()
        invariant
            i <= a@.len(),
            a@.len() == b@.len(),
            forall|j: int| 0 <= j < i ==> a@[j] == b@[j],
        decreases a@.len() - i,
    {
        if a[i] != b[i] {
            return false;
        }
        i = i + 1;
    }
    assert(a@ =~= b@);
    true
}

/// Handlers by method name; a name appears at most once.
pub struct HandlerTable {
    names: Vec<Vec<u8>>,
    handlers: Vec<Handler>,
}

impl HandlerTable {
    pub closed spec fn wf(&self) -> bool {
        &&& self.names@.len() == self.handlers@.len()
        &&& forall|i: int, j: int|
            0 <= i < j < self.names@.len() ==> (#[trigger] self.names@[i])@ != (#[trigger] self.names@[j])@
    }

    /// The table as a map from method name to handler.
    pub closed spec fn map(&self) -> Map<Seq<u8>, Handler> {
        Map::new(
            |k: Seq<u8>| exists|i: int| 0 <= i < self.names@.len() && (#[trigger] self.names@[i])@ == k,
            |k: Seq<u8>| {
                let i = choose|i: int| 0 <= i < self.names@.len() && (#[trigger] self.names@[i])@ == k;
                self.handlers@[i]
            },
        )
    }

    pub fn new() -> (r: HandlerTable)
        ensures
            r.wf(),
            r.map() == Map::<Seq<u8>, Handler>::empty(),
    {
        let r = HandlerTable { names: Vec::new(), handlers: Vec::new() };
        assert(r.map() =~= Map::<Seq<u8>, Handler>::empty());
        r
    }

    /// The position of `name`, if present.
    fn find(&self, name: &[u8]) -> (r: Option<usize>)
        requires
            self.wf(),
        ensures
            r matches Some(i) ==> i < self.names@.len() && self.names@[i as int]@ == name@,
            r is None ==> forall|i: int| 0 <= i < self.names@.len() ==> (#[trigger] self.names@[i])@ != name@,
    {
        let mut i: usize = 0;
        while i < self.names.len()
            invariant
                self.wf(),
                i <= self.names@.len(),
                forall|j: int| 0 <= j < i ==> (#[trigger] self.names@[j])@ != name@,
            decreases self.names@.len() - i,
        {
            if bytes_eq(self.names[i].as_slice(), name) {
                return Some(i);
            }
            i = i + 1;
        }
        None
    }

    /// Registers `handler` for `name`, replacing an earlier one.
    pub fn insert(&mut self, name: &[u8], handler: Handler)
        requires
            old(self).wf(),
        ensures
            final(self).wf(),
            final(self).map() == old(self).map().insert(name@, handler),
    {
        match self.find(name) {
            Some(i) => {
                self.handlers.set(i, handler);
                proof {
                    assert forall|k: Seq<u8>| #[trigger] self.map().contains_key(k) == old(self).map().insert(name@, handler).contains_key(k) by {
                        if old(self).map().insert(name@, handler).contains_key(k) && k != name@ {
                            let j = choose|j: int| 0 <= j < old(self).names@.len() && (#[trigger] old(self).names@[j])@ == k;
                            assert(self.names@[j]@ == k);
                        }
                        if k == name@ {
                            assert(self.names@[i as int]@ == k);
                        }
                    }
                    assert forall|k: Seq<u8>| #[trigger] self.map().contains_key(k) implies self.map()[k] == old(self).map().insert(name@, handler)[k] by {
                        let j = choose|j: int| 0 <= j < self.names@.len() && (#[trigger] self.names@[j])@ == k;
                        if k != name@ {
                            let j0 = choose|j: int| 0 <= j < old(self).names@.len() && (#[trigger] old(self).names@[j])@ == k;
                            assert(j == j0);
                        } else {
                            assert(j == i);
                        }
                    }
                    assert(self.map() =~= old(self).map().insert(name@, handler));
                }
            },
            None => {
                let mut key: Vec<u8> = Vec::new();
                let mut i: usize = 0;
                while i < name.len()
                    invariant
                        i <= name@.len(),
                        key@ == name@.subrange(0, i as int),
                    decreases name@.len() - i,
                {
                    key.push(name[i]);
                    i = i + 1;
                    proof {
                        assert(name@.subrange(0, i as int) =~= name@.subrange(0, i - 1) + seq![name@[i - 1]]);
                    }
                }
                assert(name@.subrange(0, i as int) =~= name@);
                let ghost n = self.names@.len();
                self.names.push(key);
                self.handlers.push(handler);
                proof {
                    assert forall|k: Seq<u8>| #[trigger] self.map().contains_key(k) == old(self).map().insert(name@, handler).contains_key(k) by {
                        if old(self).map().insert(name@, handler).contains_key(k) && k != name@ {
                            let j = choose|j: int| 0 <= j < old(self).names@.len() && (#[trigger] old(self).names@[j])@ == k;
                            assert(self.names@[j]@ == k);
                        }
                        if k == name@ {
                            assert(self.names@[n as int]@ == k);
                        }
                    }
                    assert forall|k: Seq<u8>| #[trigger] self.map().contains_key(k) implies self.map()[k] == old(self).map().insert(name@, handler)[k] by {
                        let j = choose|j: int| 0 <= j < self.names@.len() && (#[trigger] self.names@[j])@ == k;
                        if k != name@ {
                            let j0 = choose|j: int| 0 <= j < old(self).names@.len() && (#[trigger] old(self).names@[j])@ == k;
                            assert(self.names@[j0]@ == k);
                            assert(j == j0);
                        } else {
                            assert(self.names@[n as int]@ == k);
                            assert(j == n);
                        }
                    }
                    assert(self.map() =~= old(self).map().insert(name@, handler));
                }
            },
        }
    }

    /// The handler registered for `name`.
    pub fn get_method(&self, name: &[u8]) -> (r: Option<Handler>)
        requires
            self.wf(),
        ensures
            self.map().contains_key(name@) ==> r == Some(self.map()[name@]),
            !self.map().contains_key(name@) ==> r is None,
    {
        match self.find(name) {
            Some(i) => {
                proof {
                    let j = choose|j: int| 0 <= j < self.names@.len() && (#[trigger] self.names@[j])@ == name@;
                    assert(j == i);
                }
                Some(self.handlers[i])
            },
            None => None,
        }
    }
}

/// The number of requests a server keeps pending per completion queue,
/// unless told otherwise.
pub const DEFAULT_REQUEST_SLOTS_PER_CQ: usize = 1024;

/// Collects the handlers of one service.
pub struct ServiceBuilder {
    pub handlers: HandlerTable,
}

/// The handlers of one service, by method name.
pub struct Service {
    pub handlers: HandlerTable,
}

impl ServiceBuilder {
    pub fn new() -> (r: ServiceBuilder)
        ensures
            r.handlers.wf(),
            r.handlers.map() == Map::<Seq<u8>, Handler>::empty(),
    {
        ServiceBuilder { handlers: HandlerTable::new() }
    }

    fn add(self, method: &Method, ty: MethodType) -> (r: ServiceBuilder)
        requires
            self.handlers.wf(),
        ensures
            r.handlers.wf(),
            r.handlers.map() == self.handlers.map().insert(method.name.spec_bytes(), Handler { method_type: ty }),
    {
        let mut this = self;
        this.handlers.insert(method.name.as_bytes(), Handler::new(ty));
        this
    }

    /// Registers a unary handler for `method`.
    pub fn add_unary_handler(self, method: &Method) -> (r: ServiceBuilder)
        requires
            self.handlers.wf(),
        ensures
            r.handlers.wf(),
            r.handlers.map() == self.handlers.map().insert(
                method.name.spec_bytes(),
                Handler { method_type: MethodType::Unary },
            ),
    {
        self.add(method, MethodType::Unary)
    }

    /// Registers a client-streaming handler for `method`.
    pub fn add_client_streaming_handler(self, method: &Method) -> (r: ServiceBuilder)
        requires
            self.handlers.wf(),
        ensures
            r.handlers.wf(),
            r.handlers.map() == self.handlers.map().insert(
                method.name.spec_bytes(),
                Handler { method_type: MethodType::ClientStreaming },
            ),
    {
        self.add(method, MethodType::ClientStreaming)
    }

    /// Registers a server-streaming handler for `method`.
    pub fn add_server_streaming_handler(self, method: &Method) -> (r: ServiceBuilder)
        requires
            self.handlers.wf(),
        ensures
            r.handlers.wf(),
            r.handlers.map() == self.handlers.map().insert(
                method.name.spec_bytes(),
                Handler { method_type: MethodType::ServerStreaming },
            ),
    {
        self.add(method, MethodType::ServerStreaming)
    }

    /// Registers a duplex-streaming handler for `method`.
    pub fn add_duplex_streaming_handler(self, method: &Method) -> (r: ServiceBuilder)
        requires
            self.handlers.wf(),
        ensures
            r.handlers.wf(),
            r.handlers.map() == self.handlers.map().insert(
                method.name.spec_bytes(),
                Handler { method_type: MethodType::Duplex },
            ),
    {
        self.add(method, MethodType::Duplex)
    }

    pub fn build(self) -> (r: Service)
        ensures
            r.handlers == self.handlers,
    {
        Service { handlers: self.handlers }
    }
}

/// Configures a server: the addresses to bind, the request slots per queue,
/// and the handlers of its services.
pub struct ServerBuilder {
    pub addrs: Vec<(String, u32)>,
    pub slots_per_cq: usize,
    pub handlers: HandlerTable,
}

impl ServerBuilder {
    pub fn new() -> (r: ServerBuilder)
        ensures
            r.addrs@.len() == 0,
            r.slots_per_cq == DEFAULT_REQUEST_SLOTS_PER_CQ,
            r.handlers.wf(),
            r.handlers.map() == Map::<Seq<u8>, Handler>::empty(),
    {
        ServerBuilder { addrs: Vec::new(), slots_per_cq: DEFAULT_REQUEST_SLOTS_PER_CQ, handlers: HandlerTable::new() }
    }

    /// Adds an address to listen on.
    pub fn bind(self, host: String, port: u32) -> (r: ServerBuilder)
        ensures
            r.addrs@ == self.addrs@.push((host, port)),
            r.slots_per_cq == self.slots_per_cq,
            r.handlers == self.handlers,
    {
        let mut this = self;
        this.addrs.push((host, port));
        this
    }

    /// Sets how many requests are kept pending per completion queue.
    pub fn requests_slot_per_cq(self, slots: usize) -> (r: ServerBuilder)
        ensures
            r.slots_per_cq == slots,
            r.addrs == self.addrs,
            r.handlers == self.handlers,
    {
        let mut this = self;
        this.slots_per_cq = slots;
        this
    }

    /// Adds the handlers of `service`; they replace earlier ones of the same name.
    pub fn register_service(self, service: Service) -> (r: ServerBuilder)
        requires
            self.handlers.wf(),
            service.handlers.wf(),
        ensures
            r.handlers.wf(),
            r.handlers.map() == self.handlers.map().union_prefer_right(service.handlers.map()),
            r.addrs == self.addrs,
            r.slots_per_cq == self.slots_per_cq,
    {
        let Service { handlers } = service;
        let ghost addrs = self.addrs;
        let ghost slots = self.slots_per_cq;
        let mut this = self;
        let ghost start = this.handlers.map();
        proof {
            assert(handlers.prefix_map(0) =~= Map::<Seq<u8>, Handler>::empty());
            assert(start.union_prefer_right(handlers.prefix_map(0)) =~= start);
        }
        let mut i: usize = 0;
        while i < handlers.names.len()
            invariant
                handlers.wf(),
                this.handlers.wf(),
                i <= handlers.names@.len(),
                this.handlers.map() == start.union_prefer_right(handlers.prefix_map(i as int)),
                this.addrs == addrs,
                this.slots_per_cq == slots,
            decreases handlers.names@.len() - i,
        {
            proof {
                handlers.lemma_prefix_step(i as int);
            }
            this.handlers.insert(handlers.names[i].as_slice(), handlers.handlers[i]);
            proof {
                assert(start.union_prefer_right(handlers.prefix_map(i as int)).insert(
                    handlers.names@[i as int]@,
                    handlers.handlers@[i as int],
                ) =~= start.union_prefer_right(handlers.prefix_map(i + 1)));
            }
            i = i + 1;
        }
        proof {
            handlers.lemma_prefix_all();
        }
        this
    }
}

impl HandlerTable {
    /// The map of the first `n` entries.
    pub closed spec fn prefix_map(&self, n: int) -> Map<Seq<u8>, Handler> {
        Map::new(
            |k: Seq<u8>| exists|i: int| 0 <= i < n && (#[trigger] self.names@[i])@ == k,
            |k: Seq<u8>| {
                let i = choose|i: int| 0 <= i < n && (#[trigger] self.names@[i])@ == k;
                self.handlers@[i]
            },
        )
    }

    proof fn lemma_prefix_step(&self, n: int)
        requires
            self.wf(),
            0 <= n < self.names@.len(),
        ensures
            self.prefix_map(n + 1) == self.prefix_map(n).insert(self.names@[n]@, self.handlers@[n]),
    {
        let m1 = self.prefix_map(n + 1);
        let m0 = self.prefix_map(n).insert(self.names@[n]@, self.handlers@[n]);
        assert forall|k: Seq<u8>| #[trigger] m1.contains_key(k) == m0.contains_key(k) by {
            if m0.contains_key(k) && k != self.names@[n]@ {
                let j = choose|j: int| 0 <= j < n && (#[trigger] self.names@[j])@ == k;
                assert(0 <= j < n + 1 && self.names@[j]@ == k);
            }
            if k == self.names@[n]@ {
                assert(0 <= n < n + 1 && self.names@[n]@ == k);
            }
            if m1.contains_key(k) && k != self.names@[n]@ {
                let j = choose|j: int| 0 <= j < n + 1 && (#[trigger] self.names@[j])@ == k;
                assert(j != n);
                assert(0 <= j < n && self.names@[j]@ == k);
            }
        }
        assert forall|k: Seq<u8>| #[trigger] m1.contains_key(k) implies m1[k] == m0[k] by {
            let j = choose|j: int| 0 <= j < n + 1 && (#[trigger] self.names@[j])@ == k;
            if k != self.names@[n]@ {
                let j0 = choose|j: int| 0 <= j < n && (#[trigger] self.names@[j])@ == k;
                assert(j == j0);
            } else {
                assert(j == n);
            }
        }
        assert(m1 =~= m0);
    }

    proof fn lemma_prefix_all(&self)
        requires
            self.wf(),
        ensures
            self.prefix_map(self.names@.len() as int) == self.map(),
    {
        assert(self.prefix_map(self.names@.len() as int) =~= self.map());
    }
}

/// A point in time: seconds and nanoseconds of the realtime clock.
#[derive(Clone, Copy, Debug, PartialEq, Eq, Structural)]
pub struct Deadline {
    pub secs: i64,
    pub nanos: i32,
}

/// `a` is at or after `b`.
pub open spec fn at_or_after(a: Deadline, b: Deadline) -> bool {
    a.secs > b.secs || (a.secs == b.secs && a.nanos >= b.nanos)
}

impl Deadline {
    pub fn new(secs: i64, nanos: i32) -> (r: Deadline)
        ensures
            r.secs == secs,
            r.nanos == nanos,
    {
        Deadline { secs, nanos }
    }

    /// Whether the deadline has passed at time `now`.
    pub fn exceeded(&self, now: &Deadline) -> (r: bool)
        ensures
            r == at_or_after(*now, *self),
    {
        now.secs > self.secs || (now.secs == self.secs && now.nanos >= self.nanos)
    }
}

/// How an incoming request is handled.
#[derive(Clone, Copy, Debug, PartialEq, Eq, Structural)]
pub enum Route {
    /// No handler is registered for the method: answer `Unimplemented`.
    Unimplemented,
    /// The handler takes a single request: read it before calling the handler.
    ReadPayload(MethodType),
    /// The handler takes a stream of requests: call it at once.
    Execute(MethodType),
}

/// The route of a request for a method with the given handler.
pub open spec fn route_of(h: Option<Handler>) -> Route {
    match h {
        None => Route::Unimplemented,
        Some(h) => match h.method_type {
            MethodType::Unary | MethodType::ServerStreaming => Route::ReadPayload(h.method_type),
            _ => Route::Execute(h.method_type),
        },
    }
}

/// An incoming request, as the native layer describes it.
pub struct RequestContext {
    pub method: Vec<u8>,
    pub host: Vec<u8>,
    pub deadline: Deadline,
    pub peer: String,
}

impl RequestContext {
    pub fn method(&self) -> (r: &[u8])
        ensures
            r@ == self.method@,
    {
        self.method.as_slice()
    }

    pub fn host(&self) -> (r: &[u8])
        ensures
            r@ == self.host@,
    {
        self.host.as_slice()
    }

    pub fn deadline(&self) -> (r: Deadline)
        ensures
            r == self.deadline,
    {
        self.deadline
    }

    pub fn peer(&self) -> (r: String)
        ensures
            r == self.peer,
    {
        self.peer.clone()
    }

    /// Starts receiving the single request message, which the handler of a
    /// unary or server-streaming method takes.
    pub fn handle_unary_req(&self, call: &mut Call) -> (r: Result<BatchFuture, Error>)
        requires
            old(call).wf(),
        ensures
            final(call).wf(),
            old(call).is_queue_shutdown() ==> r == Err::<BatchFuture, Error>(Error::QueueShutdown)
                && *final(call) == *old(call),
            !old(call).is_queue_shutdown() ==> (r matches Ok(f) && f.tag == old(call).num_ops())
                && final(call).extends(old(call), 1) && final(call).is_pending(old(call).num_ops() as int)
                && final(call).op_kind(old(call).num_ops() as int) is RecvMessage,
    {
        call.start_recv_message()
    }

    /// Decides how the request is handled, by the handler registered for its
    /// method.
    pub fn handle_stream_req(&self, handlers: &HandlerTable) -> (r: Route)
        requires
            handlers.wf(),
        ensures
            handlers.map().contains_key(self.method@) ==> r == route_of(Some(handlers.map()[self.method@])),
            !handlers.map().contains_key(self.method@) ==> r == Route::Unimplemented,
    {
        match handlers.get_method(self.method.as_slice()) {
            None => Route::Unimplemented,
            Some(h) => match h.method_type() {
                MethodType::Unary | MethodType::ServerStreaming => Route::ReadPayload(h.method_type),
                _ => Route::Execute(h.method_type),
            },
        }
    }
}

/// A request whose single message is being received before its handler runs.
pub struct UnaryRequestContext {
    pub request: RequestContext,
}

impl UnaryRequestContext {
    pub fn new(request: RequestContext) -> (r: UnaryRequestContext)
        ensures
            r.request == request,
    {
        UnaryRequestContext { request }
    }

    pub fn request_ctx(&self) -> (r: &RequestContext)
        ensures
            *r == self.request,
    {
        &self.request
    }

    /// Hands a received single request on to its handler. Without a payload the
    /// call is aborted with status `Internal` and detail "No payload", and
    /// `false` is returned; with one, `true` is returned and nothing is started.
    pub fn handle(&self, call: &mut Call, data: &Option<Vec<u8>>) -> (r: bool)
        requires
            old(call).wf(),
        ensures
            final(call).wf(),
            r == data is Some,
            r ==> *final(call) == *old(call),
            !r && old(call).is_queue_shutdown() ==> *final(call) == *old(call),
            !r && !old(call).is_queue_shutdown() ==> {
                let n = old(call).num_ops() as int;
                &&& final(call).extends(old(call), 1)
                &&& final(call).op_kind(n) is SendStatus
                &&& final(call).op_kind(n)->SendStatus_status.status == RpcStatusCode::Internal
                &&& final(call).op_kind(n)->SendStatus_status.details matches Some(d) && d@ == "No payload"@
            },
    {
        if data.is_some() {
            return true;
        }
        let detail = "No payload".to_string();
        call.abort(&RpcStatus::new(RpcStatusCode::Internal, Some(detail)));
        false
    }
}

/// `call` after `old` shows the call accepted and then aborted with `status`.
pub open spec fn accepted_then_aborted(call: Call, old: Call, status: RpcStatus) -> bool {
    let n = old.num_ops() as int;
    &&& call.extends(&old, 2)
    &&& call.op_kind(n) is ServerSide
    &&& call.op_kind(n + 1).sends_status(status, true, None, 0)
}

/// Accepts the call on the server, returning its close future; `None` once the
/// queue is shutting down, when the request is dropped.
pub fn accept_call(call: &mut Call) -> (r: Option<BatchFuture>)
    requires
        old(call).wf(),
    ensures
        final(call).wf(),
        old(call).is_queue_shutdown() ==> r is None && *final(call) == *old(call),
        !old(call).is_queue_shutdown() ==> {
            &&& r matches Some(f) && f.tag == old(call).num_ops()
            &&& final(call).extends(old(call), 1)
            &&& final(call).op_kind(old(call).num_ops() as int) is ServerSide
            &&& final(call).op_type(old(call).num_ops() as int) == BatchType::Finish
        },
{
    match call.start_server_side() {
        Ok(f) => Some(f),
        Err(_) => None,
    }
}

/// Answers a request for a method that has no handler: accepts the call and
/// sends status `Unimplemented`, calling no handler.
pub fn execute_unimplemented(call: &mut Call)
    requires
        old(call).wf(),
    ensures
        final(call).wf(),
        old(call).is_queue_shutdown() ==> *final(call) == *old(call),
        !old(call).is_queue_shutdown() ==> accepted_then_aborted(
            *final(call),
            *old(call),
            RpcStatus { status: RpcStatusCode::Unimplemented, details: None },
        ),
{
    let ghost start = *call;
    if accept_call(call).is_none() {
        return;
    }
    let ghost mid = *call;
    call.abort(&RpcStatus::new(RpcStatusCode::Unimplemented, None));
    proof {
        lemma_extends_trans(start, mid, *call, 1, 1);
    }
}

/// Accepts the call, then aborts it with status `Internal` and `detail`.
fn abort_internal(call: &mut Call, detail: String)
    requires
        old(call).wf(),
    ensures
        final(call).wf(),
        old(call).is_queue_shutdown() ==> *final(call) == *old(call),
        !old(call).is_queue_shutdown() ==> accepted_then_aborted(
            *final(call),
            *old(call),
            RpcStatus { status: RpcStatusCode::Internal, details: Some(detail) },
        ),
{
    let ghost start = *call;
    if accept_call(call).is_none() {
        return;
    }
    let ghost mid = *call;
    call.abort(&RpcStatus::new(RpcStatusCode::Internal, Some(detail)));
    proof {
        lemma_extends_trans(start, mid, *call, 1, 1);
    }
}

/// Prepares a unary call for its handler: accepts it and wraps it with its
/// response sink. When the request did not decode (`decode_error` holds the
/// detail), the call is aborted with status `Internal` instead and handed
/// back, as it is when the queue is shutting down.
pub fn execute_unary(call: Call, decode_error: Option<String>) -> (r: Result<(ShareCall, UnarySink), Call>)
    requires
        call.wf(),
    ensures
        call.is_queue_shutdown() ==> (r matches Err(c) && c == call),
        !call.is_queue_shutdown() && decode_error is Some ==> (r matches Err(c)
            && accepted_then_aborted(c, call, RpcStatus { status: RpcStatusCode::Internal, details: decode_error })),
        !call.is_queue_shutdown() && decode_error is None ==> (r matches Ok((sc, sink)) && {
            &&& sc.wf()
            &&& !sc.finished
            &&& sc.call.extends(&call, 1)
            &&& sc.close_f.tag == call.num_ops()
            &&& sc.call.op_kind(call.num_ops() as int) is ServerSide
            &&& sink.write_flags == 0
        }),
{
    let mut call = call;
    if let Some(d) = decode_error {
        abort_internal(&mut call, d);
        return Err(call);
    }
    match accept_call(&mut call) {
        Some(close_f) => Ok((ShareCall::new(call, close_f), UnarySink::new())),
        None => Err(call),
    }
}

/// Prepares a server-streaming call for its handler, as `execute_unary` does.
pub fn execute_server_streaming(call: Call, decode_error: Option<String>) -> (r: Result<
    (ShareCall, ServerStreamingSink),
    Call,
>)
    requires
        call.wf(),
        no_pending_writes(call),
    ensures
        call.is_queue_shutdown() ==> (r matches Err(c) && c == call),
        !call.is_queue_shutdown() && decode_error is Some ==> (r matches Err(c)
            && accepted_then_aborted(c, call, RpcStatus { status: RpcStatusCode::Internal, details: decode_error })),
        !call.is_queue_shutdown() && decode_error is None ==> (r matches Ok((sc, sink)) && {
            &&& sc.wf()
            &&& !sc.finished
            &&& sc.call.extends(&call, 1)
            &&& sc.close_f.tag == call.num_ops()
            &&& sc.call.op_kind(call.num_ops() as int) is ServerSide
            &&& sink.inv(sc)
            &&& sink.flush_f is None
            &&& sink.base.send_metadata
        }),
{
    let mut call = call;
    if let Some(d) = decode_error {
        abort_internal(&mut call, d);
        return Err(call);
    }
    let ghost call_before = call;
    match accept_call(&mut call) {
        Some(close_f) => {
            let sc = ShareCall::new(call, close_f);
            let sink = ServerStreamingSink::new();
            proof {
                assert forall|t: int|
                    0 <= t < sc.call.num_ops() && (#[trigger] sc.call.op_kind(t)) is SendMessage && sc.call.is_pending(t)
                        implies crate::sink::in_flight(sink.base, t) by {
                    assert(call_before.op_kind(t) is SendMessage);
                }
            }
            Ok((sc, sink))
        },
        None => Err(call),
    }
}

/// Prepares a streaming-request call for its handler: accepts it and gives
/// the request stream and the response sink that share it. Hands the call
/// back when the queue is shutting down.
fn execute_streaming(call: Call) -> (r: Result<(ShareCall, RequestStream, ServerStreamingSink), Call>)
    requires
        call.wf(),
        no_pending_writes(call),
    ensures
        call.is_queue_shutdown() ==> (r matches Err(c) && c == call),
        !call.is_queue_shutdown() ==> (r matches Ok((sc, stream, sink)) && {
            &&& sc.wf()
            &&& !sc.finished
            &&& sc.call.extends(&call, 1)
            &&& sc.close_f.tag == call.num_ops()
            &&& sc.call.op_kind(call.num_ops() as int) is ServerSide
            &&& crate::stream::base_wf(stream.base, sc.call)
            &&& stream.base.msg_f is None
            &&& !stream.base.read_done
            &&& sink.inv(sc)
            &&& sink.flush_f is None
            &&& sink.base.send_metadata
        }),
{
    let mut call = call;
    let ghost call_before = call;
    match accept_call(&mut call) {
        Some(close_f) => {
            let sc = ShareCall::new(call, close_f);
            let sink = ServerStreamingSink::new();
            proof {
                assert forall|t: int|
                    0 <= t < sc.call.num_ops() && (#[trigger] sc.call.op_kind(t)) is SendMessage && sc.call.is_pending(t)
                        implies crate::sink::in_flight(sink.base, t) by {
                    assert(call_before.op_kind(t) is SendMessage);
                }
            }
            Ok((sc, RequestStream::new(), sink))
        },
        None => Err(call),
    }
}

/// Prepares a client-streaming call for its handler. The response sink is
/// a single-response sink.
pub fn execute_client_streaming(call: Call) -> (r: Result<(ShareCall, RequestStream, ClientStreamingSink), Call>)
    requires
        call.wf(),
        no_pending_writes(call),
    ensures
        call.is_queue_shutdown() ==> (r matches Err(c) && c == call),
        !call.is_queue_shutdown() ==> (r matches Ok((sc, stream, sink)) && {
            &&& sc.wf()
            &&& !sc.finished
            &&& sc.call.extends(&call, 1)
            &&& sc.close_f.tag == call.num_ops()
            &&& sc.call.op_kind(call.num_ops() as int) is ServerSide
            &&& crate::stream::base_wf(stream.base, sc.call)
            &&& stream.base.msg_f is None
            &&& !stream.base.read_done
            &&& sink.write_flags == 0
        }),
{
    match execute_streaming(call) {
        Ok((sc, stream, _)) => Ok((sc, stream, UnarySink::new())),
        Err(c) => Err(c),
    }
}

/// Prepares a duplex call for its handler.
pub fn execute_duplex_streaming(call: Call) -> (r: Result<(ShareCall, RequestStream, DuplexSink), Call>)
    requires
        call.wf(),
        no_pending_writes(call),
    ensures
        call.is_queue_shutdown() ==> (r matches Err(c) && c == call),
        !call.is_queue_shutdown() ==> (r matches Ok((sc, stream, sink)) && {
            &&& sc.wf()
            &&& !sc.finished
            &&& sc.call.extends(&call, 1)
            &&& sc.close_f.tag == call.num_ops()
            &&& sc.call.op_kind(call.num_ops() as int) is ServerSide
            &&& crate::stream::base_wf(stream.base, sc.call)
            &&& stream.base.msg_f is None
            &&& !stream.base.read_done
            &&& sink.inv(sc)
            &&& sink.flush_f is None
            &&& sink.base.send_metadata
        }),
{
    execute_streaming(call)
}

} // verus!
