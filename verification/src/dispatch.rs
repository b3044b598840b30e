//! The dispatcher: it serves a call in this process or forwards it to a
//! sibling service, and brings both outcomes into one shape.
//!
//! The dispatcher itself neither runs a handler nor talks to the network. It
//! says what is to be done (`RpcStep`), and takes what came of it
//! (`do_rpc_handler_dispatch_inproc`, `finish_dispatch_server`).

use crate::ctx::{Ctx, CtxView, LinkView, ReqChainLink};
use crate::error::Error;
use crate::json::{
    distinct_keys, json_clone, json_get, json_object, json_text, json_view, member_keys,
    member_views, printed_json, JsonModel,
};
use crate::propagation::{ctx_json, get_ctx_headers, AUTH1_HEADER_KEY};
use crate::resolver::CtxW;
use crate::routing::{
    lemma_bare_name_is_local, lemma_compound_name_is_remote, route, target_of, RpcTarget,
    TargetView, SEPARATOR,
};
use crate::rpc_request::{
    envelope_of, parse_request, CallEnvelope, CallId, CallIdView, EnvelopeView, RpcInfo,
};
use crate::service_resolution::{
    resolve_service, RecordView, ServiceRegistry, ServiceResolutionData,
};
use vstd::prelude::*;

verus! {

/// Why the handler registry did not serve a call.
#[derive(Debug)]
pub enum RouterError {
    /// The parameters do not fit the handler; the message is kept.
    ParamsParsing(String),
    /// The handler wants parameters and the call has none.
    ParamsMissingButRequested,
    /// No handler is registered under the method.
    MethodUnknown,
    /// A resource that the handler wants is not there; the message is kept.
    FromResources(String),
    /// The handler's result could not be written as JSON.
    HandlerResultSerialize(String),
    /// The handler failed; its own message is kept.
    Handler(String),
}

impl RouterError {
    /// The name of the failure, with the message in brackets where it has one.
    pub open spec fn text(self) -> Seq<char> {
        match self {
            RouterError::ParamsParsing(m) => "ParamsParsing("@ + m@ + ")"@,
            RouterError::ParamsMissingButRequested => "ParamsMissingButRequested"@,
            RouterError::MethodUnknown => "MethodUnknown"@,
            RouterError::FromResources(m) => "FromResources("@ + m@ + ")"@,
            RouterError::HandlerResultSerialize(m) => "HandlerResultSerialize("@ + m@ + ")"@,
            RouterError::Handler(m) => "Handler("@ + m@ + ")"@,
        }
    }

    /// The failure in words.
    pub fn message(&self) -> (r: String)
        ensures
            r@ == self.text(),
    {
        match self {
            RouterError::ParamsParsing(m) => {
                let s = "ParamsParsing(".to_owned();
                let s = s.concat(m.as_str());
                s.concat(")")
            },
            RouterError::ParamsMissingButRequested => "ParamsMissingButRequested".to_owned(),
            RouterError::MethodUnknown => "MethodUnknown".to_owned(),
            RouterError::FromResources(m) => {
                let s = "FromResources(".to_owned();
                let s = s.concat(m.as_str());
                s.concat(")")
            },
            RouterError::HandlerResultSerialize(m) => {
                let s = "HandlerResultSerialize(".to_owned();
                let s = s.concat(m.as_str());
                s.concat(")")
            },
            RouterError::Handler(m) => {
                let s = "Handler(".to_owned();
                let s = s.concat(m.as_str());
                s.concat(")")
            },
        }
    }
}

/// A call that was not served, with its id and method.
#[derive(Debug)]
pub struct CallError {
    pub id: CallId,
    pub method: String,
    pub error: RouterError,
}

/// A call that the handler registry served, with its id and method.
#[derive(Debug)]
pub struct CallSuccess {
    pub id: CallId,
    pub method: String,
    pub value: serde_json::Value,
}

/// Why a call could not be forwarded.
#[derive(Debug)]
pub enum DispatchCause {
    /// The outbound context could not be written as a header.
    CtxSerialization,
    /// The service locator has no such service.
    ServiceUnresolved,
    /// The request did not get through, or the answer was no JSON; the
    /// transport's message is kept.
    Transport(String),
    /// The service answered, with an error envelope or without a result.
    Downstream,
}

/// A forwarding that failed: what the client is told, and the cause that
/// stays in this process.
#[derive(Debug)]
pub struct DispatchFailure {
    pub cause: DispatchCause,
    pub error: CallError,
}

/// What a transport brought back: the status and the JSON body.
#[derive(Debug)]
pub struct WebResponse {
    pub status: u16,
    pub body: serde_json::Value,
}

/// One POST to make: the address, the headers, and the JSON body.
#[derive(Debug)]
pub struct RemoteCall {
    pub url: String,
    pub headers: Vec<(String, String)>,
    pub payload: serde_json::Value,
}

/// The name under which a process whose own name is not known records its
/// hops.
pub const UNKNOWN_PROC: &'static str = "Unknown";

/// The path under which every service takes its calls.
pub const RPC_PATH: &'static str = "/api/rpc";

/// The id under which a failure of a call is told: the call's id, or the
/// empty string where none is known.
pub open spec fn error_id(id: Option<CallId>) -> CallIdView {
    match id {
        Some(i) => i@,
        None => CallIdView::Text(Seq::empty()),
    }
}

/// The error that a client is told for a forwarding that failed. Whatever
/// the cause, it names the call's id and method and the one kind
/// `MethodUnknown`; the cause is kept beside it.
pub fn to_rpc_error(cause: DispatchCause, rpc_info: &RpcInfo) -> (r: DispatchFailure)
    ensures
        r.cause == cause,
        r.error.id@ == error_id(rpc_info.id),
        r.error.method@ == rpc_info.method@,
        r.error.error is MethodUnknown,
{
    let id = match &rpc_info.id {
        Some(i) => i.clone(),
        None => CallId::Text(String::new()),
    };
    DispatchFailure {
        cause,
        error: CallError { id, method: rpc_info.method.clone(), error: RouterError::MethodUnknown },
    }
}

/// The hop that this process records when it forwards a call.
pub open spec fn own_link(proc_name: Option<String>, req_uuid: u128) -> LinkView {
    LinkView {
        service: match proc_name {
            Some(n) => n@,
            None => UNKNOWN_PROC@,
        },
        uuid: req_uuid,
    }
}

/// The context that goes out with a forwarded call: the incoming one with
/// this process's hop at the end of its chain. `proc_name` is this process's
/// name, where it is known, and `req_uuid` the id under which this process
/// tracks the call.
pub fn add_curr_req_to_chain(ctx: Ctx, proc_name: Option<String>, req_uuid: u128) -> (r: Ctx)
    ensures
        r@ == ctx@.with_link(own_link(proc_name, req_uuid)),
{
    let service = match proc_name {
        Some(n) => n,
        None => UNKNOWN_PROC.to_owned(),
    };
    ctx.add_req_chain_link(ReqChainLink { service, uuid: req_uuid })
}

/// The decimal digits of a natural number.
pub open spec fn digits(n: nat) -> Seq<char>
    decreases n,
{
    if n < 10 {
        seq!["0123456789"@[n as int]]
    } else {
        digits(n / 10).push("0123456789"@[(n % 10) as int])
    }
}

/// An integer in decimal, with a minus sign where it is negative.
pub open spec fn decimal_text(i: int) -> Seq<char> {
    if i < 0 {
        seq!['-'] + digits((-i) as nat)
    } else {
        digits(i as nat)
    }
}

/// One decimal digit as a text.
fn digit_text(d: u32) -> (r: &'static str)
    requires
        d < 10,
    ensures
        r@ == seq!["0123456789"@[d as int]],
{
    proof {
        reveal_strlit("0123456789");
        reveal_strlit("0");
        reveal_strlit("1");
        reveal_strlit("2");
        reveal_strlit("3");
        reveal_strlit("4");
        reveal_strlit("5");
        reveal_strlit("6");
        reveal_strlit("7");
        reveal_strlit("8");
        reveal_strlit("9");
    }
    let r = if d == 0 {
        "0"
    } else if d == 1 {
        "1"
    } else if d == 2 {
        "2"
    } else if d == 3 {
        "3"
    } else if d == 4 {
        "4"
    } else if d == 5 {
        "5"
    } else if d == 6 {
        "6"
    } else if d == 7 {
        "7"
    } else if d == 8 {
        "8"
    } else {
        "9"
    };
    assert(r@ =~= seq!["0123456789"@[d as int]]);
    r
}

/// Writes the decimal digits of `n` behind `s`.
fn push_digits(s: String, n: u32) -> (r: String)
    ensures
        r@ == s@ + digits(n as nat),
    decreases n,
{
    if n < 10 {
        s.concat(digit_text(n))
    } else {
        let head = push_digits(s, n / 10);
        let r = head.concat(digit_text(n % 10));
        assert(r@ =~= s@ + digits(n as nat));
        r
    }
}

/// Writes an integer in decimal.
pub fn i32_to_text(i: i32) -> (r: String)
    ensures
        r@ == decimal_text(i as int),
{
    if i < 0 {
        let magnitude: u32 = (-(i as i64)) as u32;
        let r = push_digits("-".to_owned(), magnitude);
        proof {
            reveal_strlit("-");
            assert("-"@ =~= seq!['-']);
        }
        r
    } else {
        let r = push_digits(String::new(), i as u32);
        assert(r@ =~= digits(i as nat));
        r
    }
}

/// The address under which a service takes its calls.
pub open spec fn url_of(rec: RecordView) -> Seq<char> {
    "http://"@ + rec.host + ":"@ + decimal_text(rec.port as int) + RPC_PATH@
}

/// The address under which the service of `rec` takes its calls.
pub fn service_url(rec: &ServiceResolutionData) -> (r: String)
    ensures
        r@ == url_of(rec@),
{
    let s = "http://".to_owned();
    let s = s.concat(rec.host.as_str());
    let s = s.concat(":");
    let s = s.concat(i32_to_text(rec.port).as_str());
    s.concat(RPC_PATH)
}

/// The members of an optional `params`: one member where it is there.
pub open spec fn params_member(params: Option<JsonModel>) -> Seq<(Seq<char>, JsonModel)> {
    match params {
        Some(p) => seq![("params"@, p)],
        None => Seq::empty(),
    }
}

/// The envelope that goes to the sibling service: the protocol tag, the id
/// of the call, the method without the service's name, and the parameters
/// as they came (no member where the call has none).
pub open spec fn payload_json(id: CallIdView, method: Seq<char>, params: Option<JsonModel>)
    -> JsonModel {
    JsonModel::Object(
        seq![
            ("jsonrpc"@, JsonModel::Text("2.0"@)),
            ("id"@, id.json()),
            ("method"@, JsonModel::Text(method)),
        ] + params_member(params),
    )
}

/// The envelope of a success: the protocol tag, the id of the call, and the
/// result as it came.
pub open spec fn success_json(id: CallIdView, result: JsonModel) -> JsonModel {
    JsonModel::Object(
        seq![("jsonrpc"@, JsonModel::Text("2.0"@)), ("id"@, id.json()), ("result"@, result)],
    )
}

/// The keys of the envelopes are all different.
proof fn lemma_envelope_keys()
    ensures
        distinct_keys(seq!["jsonrpc"@, "id"@, "method"@, "params"@]),
        distinct_keys(seq!["jsonrpc"@, "id"@, "method"@]),
        distinct_keys(seq!["jsonrpc"@, "id"@, "result"@]),
{
    reveal_strlit("jsonrpc");
    reveal_strlit("id");
    reveal_strlit("method");
    reveal_strlit("params");
    reveal_strlit("result");
    assert("jsonrpc"@.len() == 7 && "id"@.len() == 2 && "method"@.len() == 6);
    assert("params"@.len() == 6 && "result"@.len() == 6);
    assert("method"@[0] != "params"@[0]);
}

/// Builds the envelope that goes to the sibling service.
pub fn remote_payload(id: &CallId, method: &str, params: Option<serde_json::Value>) -> (r:
    serde_json::Value)
    ensures
        json_view(r) == payload_json(
            id@,
            method@,
            match params {
                Some(p) => Some(json_view(p)),
                None => None,
            },
        ),
{
    let mut fields: Vec<(String, serde_json::Value)> = Vec::new();
    fields.push(("jsonrpc".to_owned(), json_text("2.0".to_owned())));
    fields.push(("id".to_owned(), id.to_value()));
    fields.push(("method".to_owned(), json_text(method.to_owned())));
    proof {
        lemma_envelope_keys();
    }
    match params {
        Some(p) => {
            fields.push(("params".to_owned(), p));
            proof {
                assert(member_keys(fields@) =~= seq!["jsonrpc"@, "id"@, "method"@, "params"@]);
                assert(member_views(fields@) =~= payload_json(
                    id@,
                    method@,
                    Some(json_view(p)),
                )->Object_0);
            }
        },
        None => {
            proof {
                assert(member_keys(fields@) =~= seq!["jsonrpc"@, "id"@, "method"@]);
                assert(member_views(fields@) =~= payload_json(id@, method@, None)->Object_0);
            }
        },
    }
    json_object(fields)
}

/// Builds the envelope of a success.
pub fn success_envelope(id: &CallId, result: serde_json::Value) -> (r: serde_json::Value)
    ensures
        json_view(r) == success_json(id@, json_view(result)),
{
    let mut fields: Vec<(String, serde_json::Value)> = Vec::new();
    fields.push(("jsonrpc".to_owned(), json_text("2.0".to_owned())));
    fields.push(("id".to_owned(), id.to_value()));
    fields.push(("result".to_owned(), result));
    proof {
        lemma_envelope_keys();
        assert(member_keys(fields@) =~= seq!["jsonrpc"@, "id"@, "result"@]);
        assert(member_views(fields@) =~= success_json(id@, json_view(result))->Object_0);
    }
    json_object(fields)
}

/// What preparing a forwarding comes to. The outbound context is written
/// first and the service looked up second, so a context that cannot be
/// written is reported even where the service is unknown too. On success
/// the call goes to the address of the service, carries the outbound context
/// as its one header, and asks for `method` with the id and parameters of the
/// incoming call.
pub open spec fn forwarding(
    out_ctx: CtxView,
    services: Map<Seq<char>, RecordView>,
    request: EnvelopeView,
    service: Seq<char>,
    method: Seq<char>,
    rpc_info: RpcInfo,
    r: Result<RemoteCall, DispatchFailure>,
) -> bool {
    match r {
        Ok(call) => {
            &&& services.contains_key(service)
            &&& call.url@ == url_of(services[service])
            &&& call.headers@.len() == 1
            &&& call.headers@[0].0@ == AUTH1_HEADER_KEY@
            &&& printed_json(ctx_json(out_ctx)) == Some(call.headers@[0].1@)
            &&& json_view(call.payload) == payload_json(request.id, method, request.params)
        },
        Err(f) => {
            &&& f.error.id@ == error_id(rpc_info.id)
            &&& f.error.method@ == rpc_info.method@
            &&& f.error.error is MethodUnknown
            &&& match f.cause {
                DispatchCause::CtxSerialization => printed_json(ctx_json(out_ctx)) is None,
                DispatchCause::ServiceUnresolved => printed_json(ctx_json(out_ctx)) is Some
                    && !services.contains_key(service),
                _ => false,
            }
        },
    }
}

/// Prepares the forwarding of `rpc_req` to `service`: records this
/// process's hop in the context, writes the context as a header, looks the
/// service up, and packs the call again under `method`. Nothing is sent; the
/// caller makes the one POST and hands its outcome to
/// `finish_dispatch_server`.
pub fn do_rpc_handler_dispatch_server(
    ctx: Ctx,
    req_uuid: u128,
    proc_name: Option<String>,
    registry: &ServiceRegistry,
    rpc_req: CallEnvelope,
    service: &str,
    method: &str,
    rpc_info: &RpcInfo,
) -> (r: Result<RemoteCall, DispatchFailure>)
    ensures
        forwarding(
            ctx@.with_link(own_link(proc_name, req_uuid)),
            registry@,
            rpc_req@,
            service@,
            method@,
            *rpc_info,
            r,
        ),
{
    let ctx = add_curr_req_to_chain(ctx, proc_name, req_uuid);
    let header = match get_ctx_headers(&ctx) {
        Ok(h) => h,
        Err(_) => {
            return Err(to_rpc_error(DispatchCause::CtxSerialization, rpc_info));
        },
    };
    let srd = match resolve_service(registry, service) {
        Ok(rec) => rec,
        Err(_) => {
            return Err(to_rpc_error(DispatchCause::ServiceUnresolved, rpc_info));
        },
    };
    let url = service_url(srd);
    let payload = remote_payload(&rpc_req.id, method, rpc_req.params);
    let mut headers: Vec<(String, String)> = Vec::new();
    headers.push(header);
    Ok(RemoteCall { url, headers, payload })
}

/// The result that a sibling service's answer carries: the member
/// `result`, unless the answer has a member `error`.
pub open spec fn downstream_result(body: JsonModel) -> Option<JsonModel> {
    if body.get("error"@) is Some {
        None
    } else {
        body.get("result"@)
    }
}

/// The id under which a call is answered: the call's id, or `null` where
/// none is known.
pub open spec fn reply_id(id: Option<CallId>) -> CallIdView {
    match id {
        Some(i) => i@,
        None => CallIdView::Null,
    }
}

/// What a forwarding comes to once the transport has returned. A transport
/// that failed and a service that answered without a result are told apart
/// in the cause; the client is told the same for both.
pub open spec fn forwarded(
    outcome: Result<WebResponse, String>,
    rpc_info: RpcInfo,
    r: Result<serde_json::Value, DispatchFailure>,
) -> bool {
    match r {
        Ok(body) => outcome matches Ok(resp) && downstream_result(json_view(resp.body))
            matches Some(result) && json_view(body) == success_json(
            reply_id(rpc_info.id),
            result,
        ),
        Err(f) => {
            &&& f.error.id@ == error_id(rpc_info.id)
            &&& f.error.method@ == rpc_info.method@
            &&& f.error.error is MethodUnknown
            &&& match f.cause {
                DispatchCause::Transport(m) => outcome matches Err(msg) && m@ == msg@,
                DispatchCause::Downstream => outcome matches Ok(resp) && downstream_result(
                    json_view(resp.body),
                ) is None,
                _ => false,
            }
        },
    }
}

/// Takes the outcome of the one POST of a forwarding: the result of the
/// sibling service goes back to the client as it came, under the id of the
/// call; anything else is a failure of the forwarding.
pub fn finish_dispatch_server(outcome: Result<WebResponse, String>, rpc_info: &RpcInfo) -> (r:
    Result<serde_json::Value, DispatchFailure>)
    ensures
        forwarded(outcome, *rpc_info, r),
{
    match outcome {
        Err(msg) => Err(to_rpc_error(DispatchCause::Transport(msg), rpc_info)),
        Ok(resp) => {
            if json_get(&resp.body, "error").is_some() {
                return Err(to_rpc_error(DispatchCause::Downstream, rpc_info));
            }
            match json_get(&resp.body, "result") {
                Some(result) => {
                    let id = match &rpc_info.id {
                        Some(i) => i.clone(),
                        None => CallId::Null,
                    };
                    Ok(success_envelope(&id, json_clone(result)))
                },
                None => Err(to_rpc_error(DispatchCause::Downstream, rpc_info)),
            }
        },
    }
}

/// Takes the outcome of a call to the handler registry: a success is
/// packed into the envelope of a success, under the id that the registry
/// echoes; a failure passes through as it is.
pub fn do_rpc_handler_dispatch_inproc(outcome: Result<CallSuccess, CallError>) -> (r: Result<
    serde_json::Value,
    CallError,
>)
    ensures
        match r {
            Ok(body) => outcome matches Ok(s) && json_view(body) == success_json(
                s.id@,
                json_view(s.value),
            ),
            Err(e) => outcome matches Err(o) && e == o,
        },
{
    match outcome {
        Ok(s) => Ok(success_envelope(&s.id, s.value)),
        Err(e) => Err(e),
    }
}

/// What is to be done with a call.
#[derive(Debug)]
pub enum RpcStep {
    /// The body is no call envelope: answer with `error`. Nothing is known
    /// of the call, so no `RpcInfo` goes with the answer.
    Reject { error: Error },
    /// Call the handler registry with `request`, whole method name and
    /// parameters, and with `ctx` laid over the resources of the process;
    /// hand the outcome to `do_rpc_handler_dispatch_inproc`.
    Local { ctx: Ctx, request: CallEnvelope, rpc_info: RpcInfo },
    /// Make the one POST that `call` describes and hand the outcome to
    /// `finish_dispatch_server`.
    Remote { call: RemoteCall, rpc_info: RpcInfo },
    /// The forwarding could not be prepared: answer with the failure.
    Failed { failure: DispatchFailure, rpc_info: RpcInfo },
}

/// Whether `info` names the id and method of the call `env`.
pub open spec fn info_of(env: EnvelopeView, info: RpcInfo) -> bool {
    info.id matches Some(i) && i@ == env.id && info.method@ == env.method
}

/// What the handler decides for a body. A body that is no envelope is
/// rejected. A call under a bare method name is served here, with the
/// context untouched and the request whole. A call under `service/method`
/// is forwarded as `forwarding` says, with this process's hop added to the
/// context.
pub open spec fn handled(
    ctx: CtxView,
    own: LinkView,
    services: Map<Seq<char>, RecordView>,
    body: JsonModel,
    r: RpcStep,
) -> bool {
    match envelope_of(body) {
        Err(fault) => r matches RpcStep::Reject { error } && error == Error::RpcRequestParsing(
            fault,
        ),
        Ok(env) => match target_of(env.method) {
            TargetView::Local => r matches RpcStep::Local { ctx: c, request, rpc_info } && c@
                == ctx && request@ == env && info_of(env, rpc_info),
            TargetView::Remote { service, method } => match r {
                RpcStep::Remote { call, rpc_info } => info_of(env, rpc_info) && forwarding(
                    ctx.with_link(own),
                    services,
                    env,
                    service,
                    method,
                    rpc_info,
                    Ok(call),
                ),
                RpcStep::Failed { failure, rpc_info } => info_of(env, rpc_info) && forwarding(
                    ctx.with_link(own),
                    services,
                    env,
                    service,
                    method,
                    rpc_info,
                    Err(failure),
                ),
                _ => false,
            },
        },
    }
}

/// A call under a method name without a separator is always served in this
/// process: the handler registry gets the request whole and the context as
/// it came, with no hop added.
pub proof fn lemma_bare_method_is_served_here(
    ctx: CtxView,
    own: LinkView,
    services: Map<Seq<char>, RecordView>,
    body: JsonModel,
    r: RpcStep,
)
    requires
        handled(ctx, own, services, body, r),
        envelope_of(body) is Ok,
        !envelope_of(body)->Ok_0.method.contains(SEPARATOR),
    ensures
        r matches RpcStep::Local { ctx: c, request, rpc_info } && c@ == ctx && request@
            == envelope_of(body)->Ok_0,
{
    lemma_bare_name_is_local(envelope_of(body)->Ok_0.method);
}

/// A call under `service/op` is never served in this process. The service
/// locator is asked for `service`, and for nothing else; where it knows the
/// service, the call goes to that service's address and asks for exactly
/// `op`, never for the compound name, with the id and parameters of the
/// incoming call and with a context whose chain is one hop longer.
pub proof fn lemma_compound_method_is_forwarded(
    ctx: CtxView,
    own: LinkView,
    services: Map<Seq<char>, RecordView>,
    body: JsonModel,
    r: RpcStep,
    service: Seq<char>,
    op: Seq<char>,
)
    requires
        handled(ctx, own, services, body, r),
        envelope_of(body) is Ok,
        envelope_of(body)->Ok_0.method == service + seq![SEPARATOR] + op,
        !service.contains(SEPARATOR),
    ensures
        !(r is Local) && !(r is Reject),
        r matches RpcStep::Remote { call, .. } ==> {
            &&& services.contains_key(service)
            &&& call.url@ == url_of(services[service])
            &&& json_view(call.payload) == payload_json(
                envelope_of(body)->Ok_0.id,
                op,
                envelope_of(body)->Ok_0.params,
            )
            &&& printed_json(ctx_json(ctx.with_link(own))) == Some(call.headers@[0].1@)
            &&& ctx.with_link(own).chain_len() == ctx.chain_len() + 1
        },
        r matches RpcStep::Failed { failure, .. } && failure.cause is ServiceUnresolved
            ==> !services.contains_key(service),
        services.contains_key(service) && printed_json(ctx_json(ctx.with_link(own))) is Some
            ==> r is Remote,
{
    lemma_compound_name_is_remote(service, op);
}

/// Takes a call from its JSON body to the step that serves it: validates
/// the envelope, keeps the id and method for the answer, and routes by the
/// form of the method name. `req_uuid` is the id under which this process
/// tracks the request, `proc_name` the name of this process where it is
/// known.
pub fn rpc_axum_handler(
    registry: &ServiceRegistry,
    ctx: CtxW,
    req_uuid: u128,
    proc_name: Option<String>,
    rpc_req: serde_json::Value,
) -> (r: RpcStep)
    ensures
        handled(ctx.0@, own_link(proc_name, req_uuid), registry@, json_view(rpc_req), r),
{
    let ctx = ctx.0;
    let rpc_req = match parse_request(rpc_req) {
        Ok(req) => req,
        Err(fault) => {
            return RpcStep::Reject { error: Error::RpcRequestParsing(fault) };
        },
    };
    let rpc_info = RpcInfo { id: Some(rpc_req.id.clone()), method: rpc_req.method.clone() };
    match route(rpc_info.method.as_str()) {
        RpcTarget::Remote { service, method } => {
            match do_rpc_handler_dispatch_server(
                ctx,
                req_uuid,
                proc_name,
                registry,
                rpc_req,
                service.as_str(),
                method.as_str(),
                &rpc_info,
            ) {
                Ok(call) => RpcStep::Remote { call, rpc_info },
                Err(failure) => RpcStep::Failed { failure, rpc_info },
            }
        },
        RpcTarget::Local => RpcStep::Local { ctx, request: rpc_req, rpc_info },
    }
}

/// The answer of the handler for a call that has been served or given up:
/// the envelope of the success, or the failure as an error of the web layer.
pub fn handler_response(result: Result<serde_json::Value, CallError>) -> (r: Result<
    serde_json::Value,
    Error,
>)
    ensures
        match r {
            Ok(body) => result matches Ok(b) && body == b,
            Err(e) => result matches Err(c) && e == Error::Rpc(c),
        },
{
    match result {
        Ok(body) => Ok(body),
        Err(e) => Err(Error::Rpc(e)),
    }
}

} // verus!
